use vstd::prelude::*;

verus! {

/// Why an operation was refused. A refused operation changes nothing.
#[derive(Clone, Copy, Debug, PartialEq, Eq, Structural)]
pub enum LaunchpadError {
    /// The curve-type tag names no pricing rule.
    InvalidCurveType,
    /// A denominator of the pricing formula is zero, a logarithm is taken of
    /// zero, a sale would return more tokens than are in circulation, or a
    /// lock would end beyond the largest time there is.
    InvalidArgument,
    /// The trade asks for more than the reserve holds.
    InsufficientReserve,
    /// The price moved past the bound the caller set.
    SlippageExceeded,
    /// The curve is complete and closed to trading.
    CurveComplete,
    /// The lock period has not ended.
    TokensStillLocked,
    /// The amount is below the minimum.
    AmountTooLow,
    /// The duration is outside the permitted range.
    InvalidDuration,
    /// The start time is not in the future.
    InvalidStartTime,
    /// The end time is not after the start time.
    InvalidEndTime,
    /// The deposit does not match the scheduled amount.
    InvalidVestingAmount,
    /// The observed market capitalisation is below the target.
    MarketCapNotReached,
    /// The record holds no locked tokens.
    NotLocked,
    /// The record already holds locked tokens.
    AlreadyLocked,
    /// The schedule has not been unlocked.
    NotUnlocked,
    /// The schedule was unlocked before.
    AlreadyUnlocked,
    /// The caller is not the account the record names.
    Unauthorized,
    /// Nothing is claimable at this time.
    NothingToClaim,
}

} // verus!
