//! Neuron activation functions: a closed set of nonlinearities, each with
//! its first derivative, applied to a whole batch at a time.

use vstd::prelude::*;

use crate::matrix::Matrix;
use crate::scalar::Scalar;

verus! {

/// Logistic sigmoid activation function.
pub struct Sigmoid;

/// Rectified linear unit activation function.
pub struct ReLU;

/// "Leaky" rectified linear unit activation function.
pub struct LeakyReLU;

/// Softmax activation function, normalizing along the feature axis.
pub struct Softmax;

/// The closed set of activation functions a layer can be built with.
#[derive(Clone, Copy, Debug, PartialEq, Eq, Structural)]
pub enum Activation {
    /// Logistic sigmoid.
    Sigmoid,
    /// Rectified linear unit.
    ReLU,
    /// Leaky rectified linear unit.
    LeakyReLU,
    /// Softmax over the feature axis.
    Softmax,
}

/// `1 / (1 + e^-x)`.
fn sigmoid<T: Scalar>(x: T) -> T {
    T::one().div(T::one().add(x.neg().exp()))
}

/// `s (1 - s)` where `s` is the sigmoid of `x`.
fn sigmoid_prime<T: Scalar>(x: T) -> T {
    let s: T = sigmoid(x);
    s.mul(T::one().sub(s))
}

/// `x` for positive `x`, else the additive identity.
fn relu<T: Scalar>(x: T) -> T {
    if x.is_positive() {
        x
    } else {
        T::zero()
    }
}

/// `1` for positive `x`, else `0`.
fn relu_prime<T: Scalar>(x: T) -> T {
    if x.is_positive() {
        T::one()
    } else {
        T::zero()
    }
}

/// `x` for positive `x`, else `x / 100`.
fn leaky_relu<T: Scalar>(x: T) -> T {
    if x.is_positive() {
        x
    } else {
        T::of_ratio(1, 100).mul(x)
    }
}

/// `1` for positive `x`, else `1 / 100`.
fn leaky_relu_prime<T: Scalar>(x: T) -> T {
    if x.is_positive() {
        T::one()
    } else {
        T::of_ratio(1, 100)
    }
}

/// Which entry-wise map [`elem_map`] applies.
enum ElemFn {
    Sig,
    SigPrime,
    Relu,
    ReluPrime,
    Leaky,
    LeakyPrime,
    Exp,
}

/// Applies one of the entry-wise maps to every entry of `x`.
fn elem_map<T: Scalar>(x: &Matrix<T>, f: &ElemFn) -> (r: Matrix<T>)
    requires
        x.wf(),
    ensures
        r.wf(),
        r.rows == x.rows,
        r.cols == x.cols,
{
    let mut data: Vec<Vec<T>> = Vec::new();
    let mut i: usize = 0;
    while i < x.rows
        invariant
            x.wf(),
            i <= x.rows,
            data@.len() == i,
            forall|p: int| 0 <= p < i ==> (#[trigger] data@[p])@.len() == x.cols,
        decreases x.rows - i,
    {
        let mut row: Vec<T> = Vec::new();
        let mut j: usize = 0;
        while j < x.cols
            invariant
                x.wf(),
                i < x.rows,
                j <= x.cols,
                row@.len() == j,
            decreases x.cols - j,
        {
            let v: T = x.entry(i, j);
            let w: T = match f {
                ElemFn::Sig => sigmoid(v),
                ElemFn::SigPrime => sigmoid_prime(v),
                ElemFn::Relu => relu(v),
                ElemFn::ReluPrime => relu_prime(v),
                ElemFn::Leaky => leaky_relu(v),
                ElemFn::LeakyPrime => leaky_relu_prime(v),
                ElemFn::Exp => v.exp(),
            };
            row.push(w);
            j = j + 1;
        }
        data.push(row);
        i = i + 1;
    }
    Matrix { rows: x.rows, cols: x.cols, data }
}

impl Sigmoid {
    /// The sigmoid of every entry of the batch.
    pub fn call<T: Scalar>(&self, x: &Matrix<T>) -> (r: Matrix<T>)
        requires
            x.wf(),
        ensures
            r.wf(),
            r.rows == x.rows,
            r.cols == x.cols,
    {
        elem_map(x, &ElemFn::Sig)
    }

    /// The sigmoid derivative at every entry of the batch.
    pub fn prime<T: Scalar>(&self, x: &Matrix<T>) -> (r: Matrix<T>)
        requires
            x.wf(),
        ensures
            r.wf(),
            r.rows == x.rows,
            r.cols == x.cols,
    {
        elem_map(x, &ElemFn::SigPrime)
    }
}

impl ReLU {
    /// `max(x, 0)` at every entry of the batch.
    pub fn call<T: Scalar>(&self, x: &Matrix<T>) -> (r: Matrix<T>)
        requires
            x.wf(),
        ensures
            r.wf(),
            r.rows == x.rows,
            r.cols == x.cols,
    {
        elem_map(x, &ElemFn::Relu)
    }

    /// The step derivative at every entry of the batch.
    pub fn prime<T: Scalar>(&self, x: &Matrix<T>) -> (r: Matrix<T>)
        requires
            x.wf(),
        ensures
            r.wf(),
            r.rows == x.rows,
            r.cols == x.cols,
    {
        elem_map(x, &ElemFn::ReluPrime)
    }
}

impl LeakyReLU {
    /// `x` where positive, a hundredth of `x` elsewhere, at every entry.
    pub fn call<T: Scalar>(&self, x: &Matrix<T>) -> (r: Matrix<T>)
        requires
            x.wf(),
        ensures
            r.wf(),
            r.rows == x.rows,
            r.cols == x.cols,
    {
        elem_map(x, &ElemFn::Leaky)
    }

    /// The leaky step derivative at every entry of the batch.
    pub fn prime<T: Scalar>(&self, x: &Matrix<T>) -> (r: Matrix<T>)
        requires
            x.wf(),
        ensures
            r.wf(),
            r.rows == x.rows,
            r.cols == x.cols,
    {
        elem_map(x, &ElemFn::LeakyPrime)
    }
}

impl Softmax {
    /// Exponentiates every entry, then divides each column by its sum.
    pub fn call<T: Scalar>(&self, x: &Matrix<T>) -> (r: Matrix<T>)
        requires
            x.wf(),
        ensures
            r.wf(),
            r.rows == x.rows,
            r.cols == x.cols,
    {
        let exps: Matrix<T> = elem_map(x, &ElemFn::Exp);
        let sums: Matrix<T> = exps.col_sums();
        exps.div_row_broadcast(&sums)
    }

    /// The softmax derivative: with `s` the softmax of `x`, entry `(i, j)`
    /// becomes `s[j][j] - s[i][j]·s[i][j]`. The diagonal is only defined
    /// when the batch has at least as many rows as columns.
    pub fn prime<T: Scalar>(&self, x: &Matrix<T>) -> (r: Matrix<T>)
        requires
            x.wf(),
            x.rows >= x.cols,
        ensures
            r.wf(),
            r.rows == x.rows,
            r.cols == x.cols,
    {
        let s: Matrix<T> = self.call(x);
        let mut data: Vec<Vec<T>> = Vec::new();
        let mut i: usize = 0;
        while i < s.rows
            invariant
                s.wf(),
                s.rows >= s.cols,
                i <= s.rows,
                data@.len() == i,
                forall|p: int| 0 <= p < i ==> (#[trigger] data@[p])@.len() == s.cols,
            decreases s.rows - i,
        {
            let mut row: Vec<T> = Vec::new();
            let mut j: usize = 0;
            while j < s.cols
                invariant
                    s.wf(),
                    s.rows >= s.cols,
                    i < s.rows,
                    j <= s.cols,
                    row@.len() == j,
                decreases s.cols - j,
            {
                let sij: T = s.entry(i, j);
                let diag: T = s.entry(j, j);
                row.push(diag.add(sij.neg().mul(sij)));
                j = j + 1;
            }
            data.push(row);
            i = i + 1;
        }
        Matrix { rows: s.rows, cols: s.cols, data }
    }
}

impl Activation {
    /// Applies the activation function to a batch of pre-activations.
    pub fn call<T: Scalar>(&self, x: &Matrix<T>) -> (r: Matrix<T>)
        requires
            x.wf(),
        ensures
            r.wf(),
            r.rows == x.rows,
            r.cols == x.cols,
    {
        match self {
            Activation::Sigmoid => Sigmoid.call(x),
            Activation::ReLU => ReLU.call(x),
            Activation::LeakyReLU => LeakyReLU.call(x),
            Activation::Softmax => Softmax.call(x),
        }
    }

    /// Applies the activation function's first derivative to a batch of
    /// pre-activations. The softmax derivative needs at least as many rows
    /// as columns.
    pub fn prime<T: Scalar>(&self, x: &Matrix<T>) -> (r: Matrix<T>)
        requires
            x.wf(),
            *self is Softmax ==> x.rows >= x.cols,
        ensures
            r.wf(),
            r.rows == x.rows,
            r.cols == x.cols,
    {
        match self {
            Activation::Sigmoid => Sigmoid.prime(x),
            Activation::ReLU => ReLU.prime(x),
            Activation::LeakyReLU => LeakyReLU.prime(x),
            Activation::Softmax => Softmax.prime(x),
        }
    }
}

} // verus!
