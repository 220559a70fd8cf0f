use vstd::prelude::*;
use crate::identity::Identity;

verus! {

/// Notice that a participant record was created.
#[derive(Clone, Copy, Debug, PartialEq, Eq)]
pub struct UserRegistered {
    pub wallet: Identity,
    pub locked_tokens: u64,
    pub ata: Identity,
}

/// Notice that the admin overwrote the recorded market cap.
#[derive(Clone, Copy, Debug, PartialEq, Eq)]
pub struct MarketCapUpdated {
    pub authority: Identity,
    pub market_cap: u64,
}

/// Notice of one release: what the participant receives after tax and how
/// the tax is divided between the two sinks.
#[derive(Clone, Copy, Debug, PartialEq, Eq)]
pub struct MilestoneProcessed {
    pub wallet: Identity,
    pub unlocked_tokens: u64,
    pub milestone_index: u8,
    pub tax: u64,
    pub burn_tax: u64,
    pub marketing_tax: u64,
}

} // verus!
