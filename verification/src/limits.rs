use vstd::prelude::*;

verus! {

/// Shortest lock or vesting period, in seconds: one day.
pub const MINIMUM_VESTING_PERIOD: i64 = 86_400;

/// Longest lock or vesting period, in seconds: one year.
pub const MAXIMUM_VESTING_PERIOD: i64 = 31_536_000;

/// Smallest amount that can be locked or vested (six decimals).
pub const MINIMUM_AMOUNT: u64 = 1_000_000;

/// Whether a period, in seconds, is within the permitted range.
pub open spec fn period_allowed(seconds: int) -> bool {
    MINIMUM_VESTING_PERIOD <= seconds <= MAXIMUM_VESTING_PERIOD
}

} // verus!
