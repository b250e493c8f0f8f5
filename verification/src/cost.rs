//! Cost (loss) functions: the gradient of the error between a predicted
//! batch and the expected batch, taken entry by entry.

use vstd::prelude::*;

use crate::matrix::Matrix;
use crate::scalar::Scalar;

verus! {

/// Mean squared error loss function.
pub struct MSE;

impl MSE {
    /// The gradient of the mean squared error with respect to the
    /// prediction: `actual - expected`, entry by entry and unscaled —
    /// batch-size normalization happens in the layer update, not here.
    pub fn prime<T: Scalar>(&self, actual: &Matrix<T>, expected: &Matrix<T>) -> (r: Matrix<T>)
        requires
            actual.wf(),
            expected.wf(),
            actual.same_shape(expected),
        ensures
            r.wf(),
            r.rows == actual.rows,
            r.cols == actual.cols,
    {
        actual.elem_sub(expected)
    }
}

/// The closed set of cost functions the engine can train with.
pub enum Cost {
    /// Mean squared error.
    MSE,
}

impl Cost {
    /// The gradient of the cost with respect to the prediction, for the
    /// whole batch.
    pub fn prime<T: Scalar>(&self, actual: &Matrix<T>, expected: &Matrix<T>) -> (r: Matrix<T>)
        requires
            actual.wf(),
            expected.wf(),
            actual.same_shape(expected),
        ensures
            r.wf(),
            r.rows == actual.rows,
            r.cols == actual.cols,
    {
        match self {
            Cost::MSE => MSE.prime(actual, expected),
        }
    }
}

} // verus!
