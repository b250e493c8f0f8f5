//! Evaluation metrics: scoring a prediction batch against the expected
//! batch, and the pass threshold that drives early stopping.
//!
//! The accuracy threshold is held as an exact fraction, so the pass/fail
//! decision is pure integer arithmetic and fully specified.

use vstd::prelude::*;

use crate::matrix::Matrix;
use crate::scalar::Scalar;

verus! {

/// A metric passes when at least `count` of `total` entries match, where
/// `count / total >= min_num / min_den`, compared without rounding.
pub open spec fn ratio_meets(count: nat, total: nat, min_num: nat, min_den: nat) -> bool {
    count * min_den >= min_num * total
}

/// Metric satisfied when a minimum share of all expected and actual output
/// entries are equal. The minimum is the fraction `min_num / min_den`.
pub struct Accuracy {
    /// Numerator of the minimum passing share.
    pub min_num: u64,
    /// Denominator of the minimum passing share; never zero.
    pub min_den: u64,
}

impl Accuracy {
    /// The threshold fraction has a nonzero denominator.
    pub open spec fn wf(&self) -> bool {
        self.min_den > 0
    }

    /// A metric requiring that at least `min_num / min_den` of all entries
    /// match. The default threshold is `1 / 1`: an exact match.
    pub fn new(min_num: u64, min_den: u64) -> (r: Accuracy)
        requires
            min_den > 0,
        ensures
            r.wf(),
            r.min_num == min_num,
            r.min_den == min_den,
    {
        Accuracy { min_num, min_den }
    }

    /// The metric's name.
    pub fn label(&self) -> (r: &'static str)
        ensures
            r@ == "Accuracy"@,
    {
        "Accuracy"
    }

    /// Whether `count` matches out of `total` reach the threshold:
    /// exactly when `count * min_den >= min_num * total`.
    pub fn check_ratio(&self, count: usize, total: usize) -> (r: bool)
        requires
            self.wf(),
        ensures
            r == ratio_meets(count as nat, total as nat, self.min_num as nat, self.min_den as nat),
    {
        proof {
            vstd::arithmetic::mul::lemma_mul_upper_bound(
                count as int,
                0xffff_ffff_ffff_ffff,
                self.min_den as int,
                0xffff_ffff_ffff_ffff,
            );
            vstd::arithmetic::mul::lemma_mul_upper_bound(
                self.min_num as int,
                0xffff_ffff_ffff_ffff,
                total as int,
                0xffff_ffff_ffff_ffff,
            );
        }
        let lhs: u128 = (count as u128) * (self.min_den as u128);
        let rhs: u128 = (self.min_num as u128) * (total as u128);
        lhs >= rhs
    }

    /// Counts the entries on which the two batches agree, as the carrier's
    /// own equality sees it. The count never exceeds the entry count.
    pub fn count_equal<T: Scalar>(actual: &Matrix<T>, expected: &Matrix<T>) -> (r: usize)
        requires
            actual.wf(),
            expected.wf(),
            actual.same_shape(expected),
            actual.rows * actual.cols <= usize::MAX,
        ensures
            r <= actual.rows * actual.cols,
    {
        let mut count: usize = 0;
        let mut i: usize = 0;
        while i < actual.rows
            invariant
                actual.wf(),
                expected.wf(),
                actual.same_shape(expected),
                actual.rows * actual.cols <= usize::MAX,
                i <= actual.rows,
                count <= i * actual.cols,
            decreases actual.rows - i,
        {
            let mut j: usize = 0;
            while j < actual.cols
                invariant
                    actual.wf(),
                    expected.wf(),
                    actual.same_shape(expected),
                    actual.rows * actual.cols <= usize::MAX,
                    i < actual.rows,
                    j <= actual.cols,
                    count <= i * actual.cols + j,
                decreases actual.cols - j,
            {
                proof {
                    assert(i * actual.cols + actual.cols <= actual.rows * actual.cols)
                        by (nonlinear_arith)
                        requires i < actual.rows, actual.cols >= 0;
                }
                if actual.entry(i, j).eq_value(expected.entry(i, j)) {
                    count = count + 1;
                }
                j = j + 1;
            }
            proof {
                assert((i + 1) * actual.cols == i * actual.cols + actual.cols)
                    by (nonlinear_arith);
            }
            i = i + 1;
        }
        count
    }

    /// The share of matching entries, as a carrier value.
    pub fn value<T: Scalar>(&self, actual: &Matrix<T>, expected: &Matrix<T>) -> (r: T)
        requires
            actual.wf(),
            expected.wf(),
            actual.same_shape(expected),
            actual.rows * actual.cols <= usize::MAX,
    {
        let count: usize = Self::count_equal(actual, expected);
        let total: usize = actual.rows * actual.cols;
        T::of_usize(count).div(T::of_usize(total))
    }

    /// Whether the share of matching entries reaches the threshold. The
    /// result is the threshold comparison for some match count no larger
    /// than the entry count; an empty batch never passes, and a zero
    /// threshold numerator always passes on a nonempty batch.
    pub fn check<T: Scalar>(&self, actual: &Matrix<T>, expected: &Matrix<T>) -> (r: bool)
        requires
            self.wf(),
            actual.wf(),
            expected.wf(),
            actual.same_shape(expected),
            actual.rows * actual.cols <= usize::MAX,
        ensures
            actual.rows * actual.cols == 0 ==> r == false,
            self.min_num == 0 && actual.rows * actual.cols > 0 ==> r,
            actual.rows * actual.cols > 0 ==> exists|n: nat|
                n <= actual.rows * actual.cols && r == #[trigger] ratio_meets(
                    n,
                    (actual.rows * actual.cols) as nat,
                    self.min_num as nat,
                    self.min_den as nat,
                ),
    {
        let total: usize = actual.rows * actual.cols;
        if total == 0 {
            return false;
        }
        let count: usize = Self::count_equal(actual, expected);
        let r = self.check_ratio(count, total);
        proof {
            assert(count as nat <= (actual.rows * actual.cols) as nat);
            if self.min_num == 0 {
                assert(ratio_meets(
                    count as nat,
                    total as nat,
                    self.min_num as nat,
                    self.min_den as nat,
                ));
            }
        }
        r
    }
}

/// The closed set of evaluation metrics the engine can stop on.
pub enum Metric {
    /// Share of exactly matching output entries.
    Accuracy(Accuracy),
}

impl Metric {
    /// The configured metric is internally consistent.
    pub open spec fn wf(&self) -> bool {
        match self {
            Metric::Accuracy(a) => a.wf(),
        }
    }

    /// The metric's name.
    pub fn label(&self) -> (r: &'static str)
    {
        match self {
            Metric::Accuracy(a) => a.label(),
        }
    }

    /// The metric's score for a prediction batch.
    pub fn value<T: Scalar>(&self, actual: &Matrix<T>, expected: &Matrix<T>) -> (r: T)
        requires
            actual.wf(),
            expected.wf(),
            actual.same_shape(expected),
            actual.rows * actual.cols <= usize::MAX,
    {
        match self {
            Metric::Accuracy(a) => a.value(actual, expected),
        }
    }

    /// Whether the prediction batch is acceptable; `true` stops training.
    /// An empty batch never passes, and a zero threshold numerator always
    /// passes on a nonempty batch.
    pub fn check<T: Scalar>(&self, actual: &Matrix<T>, expected: &Matrix<T>) -> (r: bool)
        requires
            self.wf(),
            actual.wf(),
            expected.wf(),
            actual.same_shape(expected),
            actual.rows * actual.cols <= usize::MAX,
        ensures
            actual.rows * actual.cols == 0 ==> r == false,
            match self {
                Metric::Accuracy(a) => {
                    &&& (a.min_num == 0 && actual.rows * actual.cols > 0 ==> r)
                    &&& (actual.rows * actual.cols > 0 ==> exists|n: nat|
                        n <= actual.rows * actual.cols && r == #[trigger] ratio_meets(
                            n,
                            (actual.rows * actual.cols) as nat,
                            a.min_num as nat,
                            a.min_den as nat,
                        ))
                },
            },
    {
        match self {
            Metric::Accuracy(a) => a.check(actual, expected),
        }
    }
}

} // verus!
