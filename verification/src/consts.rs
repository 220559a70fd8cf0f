use vstd::prelude::*;

verus! {

/// Seconds in the ninety days after which every lock is released in full.
pub const THREE_MONTHS_SECONDS: i64 = 7776000;

/// Number of tiers in the milestone table.
pub const MAX_MILESTONES: usize = 8;

/// Upper bound on the number of registered participants.
pub const MAX_USERS: usize = 1000;

/// Largest balance a non-exempt recipient may hold after a release.
pub const MAX_HOLD_AMOUNT: u64 = 50000000;

/// Upper bound on the number of wallets exempt from the holding cap.
pub const MAX_EXEMPTED_WALLETS: usize = 20;

/// Bytes taken by one stored tier: a `u64` threshold and a `u8` percent.
pub const MILESTONE_SIZE: usize = 9;

/// Market caps at or above this value are rejected as implausible.
pub const MARKET_CAP_CEILING: u64 = 10000000;

/// Tax rate in thousandths of the released amount.
pub const TAX_PER_MILLE: u64 = 15;

} // verus!
