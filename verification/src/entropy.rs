//! The random draws the typist makes, taken from the `rand` crate.
//!
//! Nothing here is proved: each function states what `rand` documents of the
//! call it makes, and the rest of the library is verified against that.

use rand::rngs::StdRng;
use rand::seq::SliceRandom;
use rand::Rng;
use vstd::prelude::*;

verus! {

/// `rand::rngs::StdRng`, the source of chance. Nothing is known of its
/// state: it is only handed on to the draws below.
#[verifier::external_type_specification]
#[verifier::external_body]
pub struct ExStdRng(StdRng);

/// Calls `rand::Rng::gen_ratio`: a trial that succeeds with probability
/// `numerator / denominator`. `rand` panics on a zero denominator and on a
/// numerator above the denominator, and documents that the trial never
/// succeeds for a zero numerator and always succeeds when the two are equal.
#[verifier::external_body]
pub(crate) fn draw_ratio(rng: &mut StdRng, numerator: u32, denominator: u32) -> (hit: bool)
    requires
        denominator > 0,
        numerator <= denominator,
    ensures
        numerator == 0 ==> !hit,
        numerator == denominator ==> hit,
{
    rng.gen_ratio(numerator, denominator)
}

/// Calls `rand::Rng::gen_range` on the half-open range `low..high`: the value
/// lies in that range. `rand` panics on an empty range.
#[verifier::external_body]
pub(crate) fn draw_between(rng: &mut StdRng, low: u64, high: u64) -> (value: u64)
    requires
        low < high,
    ensures
        low <= value < high,
{
    rng.gen_range(low..high)
}

/// Calls `rand::seq::SliceRandom::choose` on the keys: one of them, or `None`
/// when there is none to choose from.
#[verifier::external_body]
pub(crate) fn draw_key(rng: &mut StdRng, keys: &Vec<char>) -> (picked: Option<char>)
    ensures
        keys@.len() == 0 ==> picked is None,
        keys@.len() > 0 ==> picked is Some && keys@.contains(picked->0),
{
    keys.choose(rng).copied()
}

} // verus!
