//! The engine's two sources of randomness, taken from the `rand` crate.
//!
//! Dropout decisions are made on integer draws so that the masking rule
//! itself can be verified: a neuron is dropped when a uniform draw below
//! [`DRAW_DENOM`] falls under the configured rate, which is likewise a
//! fraction of [`DRAW_DENOM`].

use vstd::prelude::*;

verus! {

/// The denominator of dropout rates: a rate of `DRAW_DENOM` means certain
/// dropping, a rate of `0` means none.
pub const DRAW_DENOM: u64 = 0x1_0000_0000;

/// One uniform draw in `[0, DRAW_DENOM)`.
///
/// Relies on `rand::random::<u32>`: every 32-bit value is below `2^32`.
#[verifier::external_body]
pub(crate) fn random_draw() -> (r: u64)
    ensures
        r < DRAW_DENOM,
{
    rand::random::<u32>() as u64
}

/// Shuffles a vector of indices in place.
///
/// Relies on `rand::seq::SliceRandom::shuffle`: it permutes the slice in
/// place, so the multiset of elements is unchanged.
#[verifier::external_body]
pub(crate) fn shuffle_indices(v: &mut Vec<usize>)
    ensures
        final(v)@.to_multiset() == old(v)@.to_multiset(),
{
    rand::seq::SliceRandom::shuffle(v.as_mut_slice(), &mut rand::thread_rng());
}

} // verus!
