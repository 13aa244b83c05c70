//! Shares of a whole, held in basis points.
use vstd::prelude::*;

use crate::error::ConfigError;

verus! {

/// One hundred percent, in basis points.
pub const ONE_HUNDRED_PERCENT: u32 = 10_000;

/// The share `share_bp` of `quantity`, rounded down.
pub open spec fn spec_floor_share(quantity: int, share_bp: int) -> int {
    quantity * share_bp / 10_000
}

/// The share `share_bp` of `quantity`, rounded to the nearest whole, a half
/// upwards.
pub open spec fn spec_rounded_share(quantity: int, share_bp: int) -> int {
    (quantity * share_bp + 5_000) / 10_000
}

/// The share `share_bp` of `quantity`, rounded down.
pub fn floor_share(quantity: u32, share_bp: u32) -> (part: u64)
    ensures
        part == spec_floor_share(quantity as int, share_bp as int),
        share_bp <= ONE_HUNDRED_PERCENT ==> part <= quantity,
{
    assert(0 <= quantity * share_bp <= 0xffff_ffff * 0xffff_ffff) by (nonlinear_arith)
        requires
            0 <= quantity <= 0xffff_ffff,
            0 <= share_bp <= 0xffff_ffff,
    ;
    assert(share_bp <= 10_000 ==> quantity * share_bp <= quantity * 10_000) by (nonlinear_arith)
        requires
            0 <= quantity,
    ;
    (quantity as u64) * (share_bp as u64) / 10_000
}

/// The share `share_bp` of `quantity`, rounded to the nearest whole. Refuses
/// a share above one hundred percent.
pub fn rounded_share(quantity: usize, share_bp: u32) -> (part: Result<usize, ConfigError>)
    ensures
        share_bp > ONE_HUNDRED_PERCENT <==> part is Err,
        part is Err ==> part == Err::<usize, ConfigError>(ConfigError::InvalidPercentage),
        part is Ok ==> part->Ok_0 == spec_rounded_share(quantity as int, share_bp as int)
            && part->Ok_0 <= quantity,
{
    if share_bp > ONE_HUNDRED_PERCENT {
        return Err(ConfigError::InvalidPercentage);
    }
    assert(0 <= quantity * share_bp <= quantity * 10_000) by (nonlinear_arith)
        requires
            0 <= quantity,
            0 <= share_bp <= 10_000,
    ;
    let scaled: u128 = (quantity as u128) * (share_bp as u128) + 5_000;
    Ok((scaled / 10_000) as usize)
}

} // verus!
