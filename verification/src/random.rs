//! The random draws the library makes, each a single call into `rand`.

use rand::distr::weighted::{Error as WeightError, WeightedIndex};
use rand::distr::Distribution;
use rand::rngs::ThreadRng;
use rand::RngExt;
use vstd::prelude::*;

verus! {

#[verifier::external_type_specification]
#[verifier::external_body]
pub struct ExThreadRng(ThreadRng);

/// A `WeightedIndex<u32>` of `rand`, held opaque; its weights are named by
/// [`choice_weights`].
#[verifier::external_body]
pub struct WeightedChoice {
    index: WeightedIndex<u32>,
}

#[verifier::external_type_specification]
#[verifier::external_body]
pub struct ExWeightError(WeightError);

/// The weights a [`WeightedChoice`] was built from, in order.
pub uninterp spec fn choice_weights(choice: WeightedChoice) -> Seq<u32>;

/// Sum of a sequence of weights.
pub open spec fn weight_sum(weights: Seq<u32>) -> int
    decreases weights.len(),
{
    if weights.len() == 0 {
        0
    } else {
        weight_sum(weights.drop_last()) + weights.last()
    }
}

/// Draws a number in `0..bound` with `RngExt::random_range`.
///
/// Trusted: `rand` documents that the result lies in the given range and that
/// the call panics only on an empty range, which `requires` rules out.
#[verifier::external_body]
pub(crate) fn random_below(rng: &mut ThreadRng, bound: usize) -> (r: usize)
    requires
        bound > 0,
    ensures
        r < bound,
{
    rng.random_range(0..bound)
}

/// Draws a number in `low..=high` with `RngExt::random_range`.
///
/// Trusted: `rand` documents that the result lies in the given range and that
/// the call panics only on an empty range, which `requires` rules out.
#[verifier::external_body]
pub(crate) fn random_between(rng: &mut ThreadRng, low: u32, high: u32) -> (r: u32)
    requires
        low <= high,
    ensures
        low <= r <= high,
{
    rng.random_range(low..=high)
}

/// Builds a weighted index distribution with `WeightedIndex::new`.
///
/// Trusted: from the source of `rand`, construction fails exactly when the
/// weights are empty, sum to zero, or their sum overflows `u32` (a `u32`
/// weight is never negative); on success the distribution keeps the weights.
/// Which error is returned is left unsaid.
#[verifier::external_body]
pub(crate) fn weighted_choice_new(weights: &Vec<u32>) -> (r: Result<WeightedChoice, WeightError>)
    ensures
        r is Ok <==> (weights@.len() > 0 && 0 < weight_sum(weights@) <= u32::MAX),
        r matches Ok(choice) ==> choice_weights(choice) == weights@,
{
    match WeightedIndex::new(weights) {
        Ok(index) => Ok(WeightedChoice { index }),
        Err(error) => Err(error),
    }
}

/// Draws an index from a weighted index distribution with
/// `Distribution::sample`.
///
/// Trusted: from the source of `rand`, the draw is the position of one of
/// the weights the distribution was built from, and never one whose weight
/// is zero. Which position comes out depends on chance and is left unsaid.
#[verifier::external_body]
pub(crate) fn weighted_choice_sample(choice: &WeightedChoice, rng: &mut ThreadRng) -> (r: usize)
    ensures
        r < choice_weights(*choice).len(),
        choice_weights(*choice)[r as int] > 0,
{
    choice.index.sample(rng)
}

} // verus!
