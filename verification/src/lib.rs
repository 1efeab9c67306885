//! Token-launch economics: bonding-curve pricing, reserve bookkeeping,
//! time-locked vaults and market-cap-gated vesting schedules.
//!
//! Every operation is a synchronous function over in-memory records. The
//! caller supplies the current time and carries out the asset transfers that
//! an operation calls for; a record is changed only when the operation
//! succeeds, so a failed call leaves it exactly as it was.

pub mod account;
pub mod amm;
pub mod curve;
pub mod enhanced_bonding_curve;
pub mod error;
pub mod limits;
pub mod math;
pub mod vault;
pub mod vesting;
