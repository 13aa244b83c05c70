//! The random source that every generator draws from. It is seeded
//! explicitly, so a run can be repeated, and it is handed to each generator
//! rather than reached as a global.
//!
//! What a draw returns is chance: the contracts here state only what holds of
//! every outcome. What a generator then does with a draw is stated exactly by
//! the functions that take the drawn values as arguments.
use rand::distributions::Distribution;
use rand::Rng;
use rand::SeedableRng;
use vstd::prelude::*;

use crate::error::ConfigError;

verus! {

/// `rand::rngs::StdRng`, carried as an opaque value: nothing is known of what
/// it holds.
#[verifier::external_type_specification]
#[verifier::external_body]
pub struct ExStdRng(rand::rngs::StdRng);

/// Calls `rand::SeedableRng::seed_from_u64` for `StdRng`. Nothing is claimed
/// of the generator that comes back.
#[verifier::external_body]
fn seeded_generator(seed: u64) -> rand::rngs::StdRng {
    rand::rngs::StdRng::seed_from_u64(seed)
}

/// Calls `rand::Rng::gen_range` with the inclusive range `low..=high`.
/// `gen_range` panics on an empty range, which `low <= high` rules out; the
/// value it returns lies in the range.
#[verifier::external_body]
fn draw_u64(generator: &mut rand::rngs::StdRng, low: u64, high: u64) -> (drawn: u64)
    requires
        low <= high,
    ensures
        low <= drawn <= high,
{
    generator.gen_range(low..=high)
}

/// Calls `rand::Rng::gen_range` with the inclusive range `low..=high` of
/// 128-bit values; the same claims as for `draw_u64`.
#[verifier::external_body]
fn draw_u128(generator: &mut rand::rngs::StdRng, low: u128, high: u128) -> (drawn: u128)
    requires
        low <= high,
    ensures
        low <= drawn <= high,
{
    generator.gen_range(low..=high)
}

/// Calls `rand::seq::index::sample` and turns its `IndexVec` into a `Vec`.
/// `sample` panics when `amount > length`, and for a `length` above
/// `FULL_SAMPLE_LIMIT` it samples by rejection, which asserts that `amount`
/// is below `length`. On every other input it returns exactly `amount`
/// distinct indices below `length`, in no stated order.
#[verifier::external_body]
fn draw_distinct(
    generator: &mut rand::rngs::StdRng,
    length: usize,
    amount: usize,
) -> (drawn: Vec<usize>)
    requires
        amount <= length,
        length <= FULL_SAMPLE_LIMIT || amount < length,
    ensures
        is_distinct_selection(drawn@, length as int, amount as int),
{
    rand::seq::index::sample(generator, length, amount).into_vec()
}

/// Builds `rand::distributions::Slice` over `items` and samples it once.
/// `Slice::new` fails on an empty slice only; the sample is a reference to
/// one of the items.
#[verifier::external_body]
fn draw_item<'a, T>(generator: &mut rand::rngs::StdRng, items: &'a [T]) -> (drawn: &'a T)
    requires
        items@.len() > 0,
    ensures
        items@.contains(*drawn),
{
    rand::distributions::Slice::new(items).unwrap().sample(generator)
}

/// `selection` names `amount` different positions of a collection of
/// `length` items.
pub open spec fn is_distinct_selection(selection: Seq<usize>, length: int, amount: int) -> bool {
    &&& selection.len() == amount
    &&& forall|k: int| 0 <= k < selection.len() ==> (#[trigger] selection[k]) < length
    &&& forall|k: int, l: int|
        0 <= k < l < selection.len() ==> (#[trigger] selection[k]) != (#[trigger] selection[l])
}

/// The largest collection of which the sampler draws every position: of a
/// larger one it draws fewer than all.
pub const FULL_SAMPLE_LIMIT: usize = 0xffff_ffff;

/// `selection` names the positions from zero on, each at its own place.
pub open spec fn is_in_order(selection: Seq<usize>) -> bool {
    forall|k: int| 0 <= k < selection.len() ==> (#[trigger] selection[k]) == k
}

/// All positions of a collection of `length` items, in their order.
fn every_position(length: usize) -> (positions: Vec<usize>)
    ensures
        positions@.len() == length,
        is_in_order(positions@),
{
    let mut positions: Vec<usize> = Vec::new();
    let mut next: usize = 0;
    while next < length
        invariant
            next <= length,
            positions@.len() == next,
            is_in_order(positions@),
        decreases length - next,
    {
        positions.push(next);
        next = next + 1;
    }
    positions
}

/// A seedable source of uniform draws.
pub struct RandomSource {
    generator: rand::rngs::StdRng,
}

impl RandomSource {
    /// A source whose draws are determined by `seed`.
    pub fn from_seed(seed: u64) -> (source: Self) {
        RandomSource { generator: seeded_generator(seed) }
    }

    /// A uniform draw from `low..=high`.
    pub fn uniform_inclusive(&mut self, low: u64, high: u64) -> (drawn: Result<u64, ConfigError>)
        ensures
            low > high <==> drawn is Err,
            drawn is Err ==> drawn == Err::<u64, ConfigError>(ConfigError::InvalidRange),
            drawn is Err ==> *final(self) == *old(self),
            drawn is Ok ==> low <= drawn->Ok_0 <= high,
    {
        if low > high {
            Err(ConfigError::InvalidRange)
        } else {
            Ok(draw_u64(&mut self.generator, low, high))
        }
    }

    /// A uniform draw from `low..high`, which excludes `high`.
    pub fn uniform_below(&mut self, low: u64, high: u64) -> (drawn: Result<u64, ConfigError>)
        ensures
            low >= high <==> drawn is Err,
            drawn is Err ==> drawn == Err::<u64, ConfigError>(ConfigError::InvalidRange),
            drawn is Err ==> *final(self) == *old(self),
            drawn is Ok ==> low <= drawn->Ok_0 < high,
    {
        if low >= high {
            Err(ConfigError::InvalidRange)
        } else {
            Ok(draw_u64(&mut self.generator, low, high - 1))
        }
    }

    /// A uniform draw from `low..=high` of 128-bit values.
    pub fn uniform_inclusive_wide(
        &mut self,
        low: u128,
        high: u128,
    ) -> (drawn: Result<u128, ConfigError>)
        ensures
            low > high <==> drawn is Err,
            drawn is Err ==> drawn == Err::<u128, ConfigError>(ConfigError::InvalidRange),
            drawn is Err ==> *final(self) == *old(self),
            drawn is Ok ==> low <= drawn->Ok_0 <= high,
    {
        if low > high {
            Err(ConfigError::InvalidRange)
        } else {
            Ok(draw_u128(&mut self.generator, low, high))
        }
    }

    /// One of `items`, each equally likely.
    pub fn pick<'a, T>(&mut self, items: &'a [T]) -> (picked: Result<&'a T, ConfigError>)
        ensures
            items@.len() == 0 <==> picked is Err,
            picked is Err ==> picked == Err::<&T, ConfigError>(ConfigError::EmptyPool),
            picked is Err ==> *final(self) == *old(self),
            picked is Ok ==> items@.contains(*picked->Ok_0),
    {
        if items.len() == 0 {
            Err(ConfigError::EmptyPool)
        } else {
            Ok(draw_item(&mut self.generator, items))
        }
    }

    /// `amount` different positions below `length`, every such selection
    /// equally likely. Where all positions of a collection of more than
    /// `FULL_SAMPLE_LIMIT` items are asked for, nothing is drawn: they are
    /// returned in their order.
    pub fn sample_distinct(
        &mut self,
        length: usize,
        amount: usize,
    ) -> (selection: Result<Vec<usize>, ConfigError>)
        ensures
            amount > length <==> selection is Err,
            selection is Err ==> selection == Err::<Vec<usize>, ConfigError>(
                ConfigError::InvalidRange,
            ),
            selection is Err ==> *final(self) == *old(self),
            selection is Ok ==> is_distinct_selection(
                selection->Ok_0@,
                length as int,
                amount as int,
            ),
            amount == length && length > FULL_SAMPLE_LIMIT ==> selection is Ok && is_in_order(
                selection->Ok_0@,
            ) && *final(self) == *old(self),
    {
        if amount > length {
            Err(ConfigError::InvalidRange)
        } else if amount == length && length > FULL_SAMPLE_LIMIT {
            Ok(every_position(length))
        } else {
            Ok(draw_distinct(&mut self.generator, length, amount))
        }
    }
}

} // verus!
