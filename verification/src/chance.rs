//! The random source, and the only calls the library makes on it.
//!
//! Nothing in this file is proved. Each function hands one request to the
//! `rand` crate, and its contract says what `rand` promises of every answer.

use rand::rngs::StdRng;
use rand::seq::SliceRandom;
use rand::Rng;
use vstd::prelude::*;

verus! {

/// `rand::rngs::StdRng`, a seedable generator. Its state is never looked at.
#[verifier::external_type_specification]
#[verifier::external_body]
pub struct ExStdRng(StdRng);

/// `Rng::gen_range` on the half-open range `low..high`. The range must not be
/// empty, and the number that comes back lies in it.
#[verifier::external_body]
pub(crate) fn roll(rng: &mut StdRng, low: u64, high: u64) -> (n: u64)
    requires
        low < high,
    ensures
        low <= n < high,
{
    rng.gen_range(low..high)
}

/// `Rng::gen_ratio`: true with a chance of `numerator` in `denominator`. A
/// chance of nothing is never true and a chance of everything always is; of
/// the chances between, nothing is known of a single answer.
#[verifier::external_body]
pub(crate) fn flip(rng: &mut StdRng, numerator: u32, denominator: u32) -> (heads: bool)
    requires
        0 < denominator,
        numerator <= denominator,
    ensures
        numerator == 0 ==> !heads,
        numerator == denominator ==> heads,
{
    rng.gen_ratio(numerator, denominator)
}

/// `SliceRandom::choose` on the items of a vector: nothing when there are no
/// items, else one of them.
#[verifier::external_body]
pub(crate) fn pick<'a>(items: &'a Vec<String>, rng: &mut StdRng) -> (picked: Option<&'a String>)
    ensures
        items@.len() == 0 ==> picked is None,
        items@.len() > 0 ==> picked is Some && items@.contains(*picked.unwrap()),
{
    items.choose(rng)
}

} // verus!
