//! Output encoders: the bidirectional transform between raw label values
//! and the network's numeric output representation.
//!
//! One-hot encoding turns the label of each example into a row that holds
//! the carrier's `one` at the label's position and `zero` everywhere else;
//! decoding takes the position of the largest entry in each output column.

use vstd::prelude::*;

use crate::matrix::Matrix;
use crate::scalar::Scalar;

verus! {

/// The one-hot row for `label`: `one` at position `label`, `zero` elsewhere.
pub open spec fn hot_row<T>(label: usize, width: nat, zero: T, one: T) -> Seq<T> {
    Seq::new(width, |j: int| if j == label { one } else { zero })
}

/// The position of a `one` entry in an encoded row — the decoded label.
pub open spec fn hot_index<T>(row: Seq<T>, one: T) -> int {
    choose|j: int| 0 <= j < row.len() && row[j] == one
}

/// Decoding inverts encoding: in the one-hot row built for any label within
/// the encoder's width, the only position holding `one` is the label
/// itself, so reading the hot position back recovers every label exactly.
pub proof fn lemma_one_hot_round_trip<T>(labels: Seq<usize>, width: nat, zero: T, one: T)
    requires
        zero != one,
        forall|e: int| 0 <= e < labels.len() ==> (#[trigger] labels[e]) < width,
    ensures
        forall|e: int|
            0 <= e < labels.len()
                ==> hot_index(hot_row(#[trigger] labels[e], width, zero, one), one)
                    == labels[e],
{
    assert forall|e: int|
        0 <= e < labels.len() implies hot_index(
        hot_row(#[trigger] labels[e], width, zero, one),
        one,
    ) == labels[e] by {
        let row = hot_row(labels[e], width, zero, one);
        assert(row[labels[e] as int] == one);
        assert(exists|j: int| 0 <= j < row.len() && row[j] == one);
        let j = hot_index(row, one);
        assert(0 <= j < row.len() && row[j] == one);
        if j != labels[e] {
            assert(row[j] == zero);
        }
    }
}

/// One-hot encoder: label values are integers in `0 ..= max`, and each is
/// represented by a row of width `max + 1`.
pub struct OneHot<T> {
    /// The largest admissible label value.
    pub max: usize,
    /// The carrier value written at every non-label position.
    pub zero: T,
    /// The carrier value written at the label position.
    pub one: T,
}

impl<T: Scalar> OneHot<T> {
    /// The encoder's width `max + 1` fits a machine integer.
    pub open spec fn wf(&self) -> bool {
        self.max < usize::MAX
    }

    /// An encoder for labels in `0 ..= max`.
    pub fn new(max: usize) -> (r: OneHot<T>)
        requires
            max < usize::MAX,
        ensures
            r.wf(),
            r.max == max,
    {
        OneHot { max, zero: T::zero(), one: T::one() }
    }

    /// Encodes one label per example: row `e` of the result is the one-hot
    /// row for `labels[e]`.
    pub fn encode_indices(&self, labels: &Vec<usize>) -> (r: Matrix<T>)
        requires
            self.wf(),
            forall|e: int| 0 <= e < labels@.len() ==> #[trigger] labels@[e] <= self.max,
        ensures
            r.wf(),
            r.rows == labels@.len(),
            r.cols == self.max + 1,
            forall|e: int|
                0 <= e < labels@.len()
                    ==> #[trigger] r@[e] == hot_row(
                    labels@[e],
                    (self.max + 1) as nat,
                    self.zero,
                    self.one,
                ),
    {
        let width: usize = self.max + 1;
        let mut m: Matrix<T> = Matrix::fill(labels.len(), width, self.zero);
        let mut e: usize = 0;
        while e < labels.len()
            invariant
                self.wf(),
                width == self.max + 1,
                forall|p: int| 0 <= p < labels@.len() ==> #[trigger] labels@[p] <= self.max,
                e <= labels@.len(),
                m.wf(),
                m.rows == labels@.len(),
                m.cols == width,
                forall|p: int, q: int|
                    e <= p < labels@.len() && 0 <= q < width ==> #[trigger] m@[p][q] == self.zero,
                forall|p: int|
                    0 <= p < e ==> #[trigger] m@[p] == hot_row(
                        labels@[p],
                        width as nat,
                        self.zero,
                        self.one,
                    ),
            decreases labels@.len() - e,
        {
            m.set_entry(e, labels[e], self.one);
            proof {
                assert(m@[e as int] =~= hot_row(
                    labels@[e as int],
                    width as nat,
                    self.zero,
                    self.one,
                ));
            }
            e = e + 1;
        }
        m
    }

    /// Encodes raw label values, one per example row: reads the first entry
    /// of each row as an integer label and builds its one-hot row. Returns
    /// `None` when a label falls outside `0 ..= max`; a batch with no
    /// examples always encodes.
    pub fn encode(&self, y: &Matrix<T>) -> (r: Option<Matrix<T>>)
        requires
            self.wf(),
            y.wf(),
            y.cols >= 1,
        ensures
            y.rows == 0 ==> r is Some,
            match r {
                Some(m) => {
                    &&& m.wf()
                    &&& m.rows == y.rows
                    &&& m.cols == self.max + 1
                    &&& exists|ls: Seq<usize>|
                        ls.len() == y.rows && (forall|e: int|
                            0 <= e < ls.len() ==> #[trigger] ls[e] <= self.max) && (forall|e: int|
                            0 <= e < ls.len() ==> #[trigger] m@[e] == hot_row(
                                ls[e],
                                (self.max + 1) as nat,
                                self.zero,
                                self.one,
                            ))
                },
                None => true,
            },
    {
        let mut labels: Vec<usize> = Vec::new();
        let mut e: usize = 0;
        while e < y.rows
            invariant
                self.wf(),
                y.wf(),
                y.cols >= 1,
                e <= y.rows,
                labels@.len() == e,
                forall|p: int| 0 <= p < e ==> #[trigger] labels@[p] <= self.max,
            decreases y.rows - e,
        {
            let label: usize = y.entry(e, 0).to_index();
            if label > self.max {
                return None;
            }
            labels.push(label);
            e = e + 1;
        }
        let m = self.encode_indices(&labels);
        proof {
            let ls = labels@;
            assert(ls.len() == y.rows && (forall|q: int|
                0 <= q < ls.len() ==> #[trigger] ls[q] <= self.max) && (forall|q: int|
                0 <= q < ls.len() ==> #[trigger] m@[q] == hot_row(
                    ls[q],
                    (self.max + 1) as nat,
                    self.zero,
                    self.one,
                )));
        }
        Some(m)
    }

    /// Decodes a raw network output batch (one column per example): the
    /// result holds, per example row, the carrier embedding of the row
    /// index with the largest output value, ties going to the lowest index.
    /// The decoded labels come back one per example row — the orientation
    /// the datasets and the evaluation metric use for raw labels.
    pub fn decode(&self, y: &Matrix<T>) -> (r: Matrix<T>)
        requires
            y.wf(),
            y.rows >= 1,
        ensures
            r.wf(),
            r.rows == y.cols,
            r.cols == 1,
    {
        let mut data: Vec<Vec<T>> = Vec::new();
        let mut c: usize = 0;
        while c < y.cols
            invariant
                y.wf(),
                y.rows >= 1,
                c <= y.cols,
                data@.len() == c,
                forall|p: int| 0 <= p < c ==> (#[trigger] data@[p])@.len() == 1,
            decreases y.cols - c,
        {
            let mut best_i: usize = 0;
            let mut best_v: T = y.entry(0, c);
            let mut i: usize = 1;
            while i < y.rows
                invariant
                    y.wf(),
                    y.rows >= 1,
                    c < y.cols,
                    i <= y.rows,
                    best_i < y.rows,
                decreases y.rows - i,
            {
                let v: T = y.entry(i, c);
                if best_v.lt(v) {
                    best_v = v;
                    best_i = i;
                }
                i = i + 1;
            }
            let mut row: Vec<T> = Vec::new();
            row.push(T::of_usize(best_i));
            data.push(row);
            c = c + 1;
        }
        Matrix { rows: y.cols, cols: 1, data }
    }
}

/// The closed set of output encoders.
pub enum Encoder<T> {
    /// One-hot encoding over integer labels.
    OneHot(OneHot<T>),
}

impl<T: Scalar> Encoder<T> {
    /// The configured encoder is internally consistent.
    pub open spec fn wf(&self) -> bool {
        match self {
            Encoder::OneHot(o) => o.wf(),
        }
    }

    /// The width of the network output this encoder expects.
    pub open spec fn spec_width(&self) -> int {
        match self {
            Encoder::OneHot(o) => o.max + 1,
        }
    }

    /// The width of the network output this encoder expects.
    pub fn width(&self) -> (r: usize)
        requires
            self.wf(),
        ensures
            r == self.spec_width(),
    {
        match self {
            Encoder::OneHot(o) => o.max + 1,
        }
    }

    /// Encodes raw label values into the network's output representation.
    /// Returns `None` when a label cannot be represented; a batch with no
    /// examples always encodes.
    pub fn encode(&self, y: &Matrix<T>) -> (r: Option<Matrix<T>>)
        requires
            self.wf(),
            y.wf(),
            y.cols >= 1,
        ensures
            y.rows == 0 ==> r is Some,
            match r {
                Some(m) => {
                    &&& m.wf()
                    &&& m.rows == y.rows
                    &&& m.cols == self.spec_width()
                },
                None => true,
            },
    {
        match self {
            Encoder::OneHot(o) => o.encode(y),
        }
    }

    /// Decodes a raw network output batch back into label space.
    pub fn decode(&self, y: &Matrix<T>) -> (r: Matrix<T>)
        requires
            y.wf(),
            y.rows >= 1,
        ensures
            r.wf(),
            r.rows == y.cols,
            r.cols == 1,
    {
        match self {
            Encoder::OneHot(o) => o.decode(y),
        }
    }
}

} // verus!
