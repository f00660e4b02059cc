//! The random source and the draws the generator makes from it.
//!
//! Every draw is delegated to the `rand` crate. The functions here are the
//! only place where its generators and distributions are touched; what each
//! of them promises is what holds of every possible outcome of the draw.

use rand::distributions::Distribution;
use rand::seq::IteratorRandom;
use rand::seq::SliceRandom;
use rand::Rng;
use rand::SeedableRng;
use vstd::prelude::*;

verus! {

/// The standard generator of `rand`, carried through as an opaque value.
#[verifier::external_type_specification]
#[verifier::external_body]
pub struct ExStdRng(rand::rngs::StdRng);

/// A distribution over the positions of a list of weights, as `rand` builds
/// it: position `i` is drawn with a chance proportional to the `i`-th weight.
///
/// Trusted: the value holds the `WeightedIndex` of `rand` and is opaque to
/// the proofs; `distribution_weights` names the weights it was built from.
#[verifier::external_body]
pub struct WeightedIndex {
    inner: rand::distributions::WeightedIndex<u32>,
}

/// Why a list of weights cannot be turned into a distribution.
#[derive(Debug, Clone, Copy, PartialEq, Eq, Structural)]
pub enum WeightedError {
    /// The list holds no weight at all.
    NoItem,
    /// A weight, or the sum of all weights, is beyond what the sampler can hold.
    InvalidWeight,
    /// Every weight is zero.
    AllWeightsZero,
    /// More weights than the sampler can index.
    TooMany,
}

/// The sum of a list of weights.
pub open spec fn total_weight(weights: Seq<u32>) -> nat
    decreases weights.len(),
{
    if weights.len() == 0 {
        0
    } else {
        total_weight(weights.drop_last()) + weights.last() as nat
    }
}

/// The weights a weighted index distribution was built from, in order.
pub uninterp spec fn distribution_weights(distribution: WeightedIndex) -> Seq<u32>;

/// Builds the weighted index distribution of `rand` over `weights`.
///
/// Trusted: `WeightedIndex::new` walks the weights once, keeping a running
/// sum in a `u32`; it rejects an empty list with `NoItem` and a zero sum with
/// `AllWeightsZero`, and otherwise remembers the weights it was given. The
/// running sum must not overflow, which the precondition rules out.
#[verifier::external_body]
pub(crate) fn weighted_index(weights: &Vec<u32>) -> (made: Result<WeightedIndex, WeightedError>)
    requires
        total_weight(weights@) <= u32::MAX,
    ensures
        weights@.len() == 0 ==> made is Err && made->Err_0 == WeightedError::NoItem,
        weights@.len() > 0 && total_weight(weights@) == 0 ==> made is Err && made->Err_0
            == WeightedError::AllWeightsZero,
        weights@.len() > 0 && total_weight(weights@) > 0 ==> made is Ok && distribution_weights(
            made->Ok_0,
        ) == weights@,
{
    match rand::distributions::WeightedIndex::new(weights) {
        Ok(inner) => Ok(WeightedIndex { inner }),
        Err(rand::distributions::WeightedError::NoItem) => Err(WeightedError::NoItem),
        Err(rand::distributions::WeightedError::InvalidWeight) => Err(WeightedError::InvalidWeight),
        Err(rand::distributions::WeightedError::AllWeightsZero) => Err(
            WeightedError::AllWeightsZero,
        ),
        Err(rand::distributions::WeightedError::TooMany) => Err(WeightedError::TooMany),
    }
}

/// Draws an index from a weighted index distribution.
///
/// Trusted: `WeightedIndex::sample` returns a position of the weight list,
/// each with a chance proportional to its weight, so a position whose weight
/// is zero is never returned.
#[verifier::external_body]
pub(crate) fn sample_index(
    rng: &mut rand::rngs::StdRng,
    distribution: &WeightedIndex,
) -> (index: usize)
    ensures
        index < distribution_weights(*distribution).len(),
        distribution_weights(*distribution)[index as int] > 0,
{
    distribution.inner.sample(rng)
}

impl WeightedIndex {
    /// Draws a row: each with a chance proportional to its weight, and so
    /// never a row whose weight is zero.
    pub fn sample(&self, rng: &mut rand::rngs::StdRng) -> (index: usize)
        ensures
            index < distribution_weights(*self).len(),
            distribution_weights(*self)[index as int] > 0,
    {
        sample_index(rng, self)
    }
}

/// A distribution over the positions of a list of signed weights, as `rand`
/// builds it: position `i` is drawn with a chance proportional to the
/// `i`-th weight.
///
/// Trusted: the value holds the `WeightedIndex` of `rand` over `i64` and is
/// opaque to the proofs; `signed_distribution_weights` names the weights it
/// was built from.
#[verifier::external_body]
pub struct SignedWeightedIndex {
    inner: rand::distributions::WeightedIndex<i64>,
}

/// The sum of a list of signed weights.
pub open spec fn signed_total_weight(weights: Seq<i64>) -> int
    decreases weights.len(),
{
    if weights.len() == 0 {
        0
    } else {
        signed_total_weight(weights.drop_last()) + weights.last()
    }
}

/// Whether no weight of the list is negative.
pub open spec fn none_negative(weights: Seq<i64>) -> bool {
    forall|i: int| 0 <= i < weights.len() ==> #[trigger] weights[i] >= 0
}

/// The weights a distribution over signed weights was built from, in order.
pub uninterp spec fn signed_distribution_weights(distribution: SignedWeightedIndex) -> Seq<i64>;

/// Builds the weighted index distribution of `rand` over signed weights.
///
/// Trusted: `WeightedIndex::new` walks the weights once, keeping a running
/// sum in an `i64`; it rejects an empty list with `NoItem` and a zero sum
/// with `AllWeightsZero`, and otherwise remembers the weights it was given.
/// It rejects a negative weight, and its running sum must not overflow; the
/// precondition rules out both.
#[verifier::external_body]
pub(crate) fn signed_weighted_index(weights: &Vec<i64>) -> (made: Result<
    SignedWeightedIndex,
    WeightedError,
>)
    requires
        none_negative(weights@),
        signed_total_weight(weights@) <= i64::MAX,
    ensures
        weights@.len() == 0 ==> made is Err && made->Err_0 == WeightedError::NoItem,
        weights@.len() > 0 && signed_total_weight(weights@) == 0 ==> made is Err && made->Err_0
            == WeightedError::AllWeightsZero,
        weights@.len() > 0 && signed_total_weight(weights@) > 0 ==> made is Ok
            && signed_distribution_weights(made->Ok_0) == weights@,
{
    match rand::distributions::WeightedIndex::new(weights) {
        Ok(inner) => Ok(SignedWeightedIndex { inner }),
        Err(rand::distributions::WeightedError::NoItem) => Err(WeightedError::NoItem),
        Err(rand::distributions::WeightedError::InvalidWeight) => Err(WeightedError::InvalidWeight),
        Err(rand::distributions::WeightedError::AllWeightsZero) => Err(
            WeightedError::AllWeightsZero,
        ),
        Err(rand::distributions::WeightedError::TooMany) => Err(WeightedError::TooMany),
    }
}

/// Draws an index from a distribution over signed weights.
///
/// Trusted: `WeightedIndex::sample` returns a position of the weight list,
/// each with a chance proportional to its weight, so a position whose weight
/// is zero is never returned.
#[verifier::external_body]
pub(crate) fn sample_signed_index(
    rng: &mut rand::rngs::StdRng,
    distribution: &SignedWeightedIndex,
) -> (index: usize)
    ensures
        index < signed_distribution_weights(*distribution).len(),
        signed_distribution_weights(*distribution)[index as int] > 0,
{
    distribution.inner.sample(rng)
}

impl SignedWeightedIndex {
    /// Draws a position: each with a chance proportional to its weight, and
    /// so never a position whose weight is zero.
    pub fn sample(&self, rng: &mut rand::rngs::StdRng) -> (index: usize)
        ensures
            index < signed_distribution_weights(*self).len(),
            signed_distribution_weights(*self)[index as int] > 0,
    {
        sample_signed_index(rng, self)
    }
}

/// Splits a fresh generator off `parent`, seeded from its output.
///
/// Trusted: `SeedableRng::from_rng` fills a seed from `parent`; a `StdRng`
/// parent never fails to deliver those bytes. Nothing is known of the child.
#[verifier::external_body]
pub(crate) fn fork(parent: &mut rand::rngs::StdRng) -> (child: rand::rngs::StdRng) {
    rand::rngs::StdRng::from_rng(parent).unwrap()
}

/// Picks one item of a list, each equally likely.
///
/// Trusted: `SliceRandom::choose` returns `None` on an empty slice and
/// otherwise a reference to one of its elements.
#[verifier::external_body]
pub(crate) fn pick<'a, T>(rng: &mut rand::rngs::StdRng, items: &'a [T]) -> (chosen: Option<&'a T>)
    ensures
        items@.len() == 0 <==> chosen is None,
        chosen matches Some(item) ==> items@.contains(*item),
{
    items.choose(rng)
}

/// Picks an integer of the half-open interval from `low` up to `high`.
///
/// Trusted: `IteratorRandom::choose` on a range returns `None` when the range
/// is empty and one of its members otherwise.
#[verifier::external_body]
pub(crate) fn pick_in_range(rng: &mut rand::rngs::StdRng, low: u64, high: u64) -> (chosen: Option<
    u64,
>)
    ensures
        low >= high <==> chosen is None,
        chosen matches Some(value) ==> low <= value < high,
{
    (low..high).choose(rng)
}

/// Runs one Bernoulli trial that succeeds `numerator` times in `denominator`.
///
/// Trusted: `Bernoulli::from_ratio` refuses a zero denominator and a
/// numerator above the denominator; `Bernoulli::sample` on a distribution
/// built from equal numbers always yields `true`, and on one built from a
/// zero numerator always `false`.
#[verifier::external_body]
pub(crate) fn bernoulli(rng: &mut rand::rngs::StdRng, numerator: u32, denominator: u32) -> (drawn:
    Option<bool>)
    ensures
        drawn is Some <==> (numerator <= denominator && denominator != 0),
        drawn matches Some(success) ==> (numerator == denominator ==> success) && (numerator == 0
            ==> !success),
{
    match rand::distributions::Bernoulli::from_ratio(numerator, denominator) {
        Ok(trial) => Some(trial.sample(rng)),
        Err(_) => None,
    }
}

/// Draws an integer from `low` up to `high`, both included, each equally
/// likely.
///
/// Trusted: `Rng::gen_range` over an inclusive range returns a member of the
/// range; the range must not be empty.
#[verifier::external_body]
pub(crate) fn roll(rng: &mut rand::rngs::StdRng, low: i8, high: i8) -> (face: i8)
    requires
        low <= high,
    ensures
        low <= face <= high,
{
    rng.gen_range(low..=high)
}

} // verus!
