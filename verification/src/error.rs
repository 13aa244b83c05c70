//! The ways in which a generator can refuse its configuration.
use vstd::prelude::*;

verus! {

/// Why a generator refused to run. A generator that refuses has changed
/// nothing.
#[derive(Clone, Copy, Debug, PartialEq, Eq, Structural)]
pub enum ConfigError {
    /// A collection to pick from holds nothing.
    EmptyPool,
    /// A numeric range is inverted or holds no admissible value.
    InvalidRange,
    /// A share exceeds one hundred percent.
    InvalidPercentage,
    /// A time window ends no later than it starts, or its report interval is
    /// not positive.
    InvalidWindow,
    /// An instant lies outside the supported span of years.
    TimestampOutOfRange,
    /// The list of species eligible for new herds is empty.
    NoEligibleSpecies,
    /// An eligible species index names no species of the store.
    UnknownSpecies,
    /// A species that is to be stocked has no positive lifespan or no
    /// positive area requirement, so no capacity can be derived for it.
    UnsuitableSpecies,
}

} // verus!
