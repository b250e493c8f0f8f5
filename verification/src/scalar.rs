//! The abstract scalar that all numeric state of the engine is built from.
//!
//! The engine never computes with a concrete number type of its own: every
//! arithmetic step is expressed through the primitive operations below, and
//! the embedding application chooses the carrier (typically a wrapper around
//! a machine float) and implements them. The contracts of this crate
//! therefore speak about shapes, selections and bookkeeping — never about
//! the value a primitive operation returns.

use vstd::prelude::*;

verus! {

/// Primitive operations of the numeric carrier.
///
/// The methods carry no contracts: the verifier treats every result as an
/// unknown value of the carrier type. `sample_unit` is the engine's source
/// of random initial weights; it is expected to draw from a small symmetric
/// range, but nothing in this crate depends on that.
pub trait Scalar: Copy + Sized {
    /// The additive identity of the carrier.
    fn zero() -> Self;

    /// The multiplicative identity of the carrier.
    fn one() -> Self;

    /// Embeds a machine integer into the carrier.
    fn of_usize(n: usize) -> Self;

    /// The quotient of two machine integers, for fractional constants.
    fn of_ratio(num: u64, den: u64) -> Self;

    /// Addition.
    fn add(self, other: Self) -> Self;

    /// Subtraction.
    fn sub(self, other: Self) -> Self;

    /// Multiplication.
    fn mul(self, other: Self) -> Self;

    /// Division.
    fn div(self, other: Self) -> Self;

    /// Negation.
    fn neg(self) -> Self;

    /// The exponential function.
    fn exp(self) -> Self;

    /// The square root.
    fn sqrt(self) -> Self;

    /// Whether the value is strictly greater than the additive identity.
    fn is_positive(self) -> bool;

    /// Strict order on carrier values.
    fn lt(self, other: Self) -> bool;

    /// Equality of carrier values, as the evaluation metric counts it.
    fn eq_value(self, other: Self) -> bool;

    /// Truncates the value to a machine integer index.
    fn to_index(self) -> usize;

    /// Draws a random value from the carrier's symmetric unit range.
    fn sample_unit() -> Self;
}

} // verus!
