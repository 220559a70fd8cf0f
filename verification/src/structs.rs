use vstd::prelude::*;
use crate::consts::{MAX_EXEMPTED_WALLETS, MAX_MILESTONES, MAX_USERS};
use crate::identity::Identity;

verus! {

/// One tier: a market-cap threshold and the cumulative percent of the
/// original lock that is released once the threshold is reached.
#[derive(Clone, Copy, Debug, PartialEq, Eq)]
pub struct Milestone {
    pub market_cap: u64,
    pub unlock_percent: u8,
}

/// A wallet and the amount it locks at registration.
#[derive(Clone, Copy, Debug, PartialEq, Eq)]
pub struct UserEntry {
    pub wallet: Identity,
    pub locked_tokens: u64,
}

/// The vesting record of one participant.
#[derive(Clone, Copy, Debug, PartialEq, Eq)]
pub struct MilestoneUnlockAccount {
    /// The participant's wallet.
    pub wallet: Identity,
    /// The account that receives released tokens.
    pub ata: Identity,
    /// Tokens still locked.
    pub total_locked_tokens: u64,
    /// Tokens released so far.
    pub unlocked_tokens: u64,
    /// The tier index at the time of the last release.
    pub last_unlocked_milestone: u8,
}

impl MilestoneUnlockAccount {
    /// The amount ever locked for this wallet.
    pub open spec fn original_lock(self) -> int {
        self.total_locked_tokens + self.unlocked_tokens
    }

    /// `self` is a later state of `before` in which tokens have only moved
    /// from locked to released.
    pub open spec fn released_from(self, before: MilestoneUnlockAccount) -> bool {
        &&& self.wallet == before.wallet
        &&& self.ata == before.ata
        &&& self.original_lock() == before.original_lock()
        &&& self.unlocked_tokens >= before.unlocked_tokens
        &&& self.total_locked_tokens <= before.total_locked_tokens
    }
}

/// What the ledger reads of an account that the host hands in.
#[derive(Clone, Debug, PartialEq, Eq)]
pub struct AccountSnapshot {
    /// The account's address.
    pub key: Identity,
    /// The program that owns the account.
    pub owner: Identity,
    /// The account's balance of the native coin.
    pub lamports: u64,
    /// Whether the call may write to the account.
    pub is_writable: bool,
    /// Whether the account signed the call.
    pub is_signer: bool,
    /// The account's stored bytes.
    pub data: Vec<u8>,
}

/// Program-wide configuration and progression state.
#[derive(Clone, Debug, PartialEq, Eq)]
pub struct GlobalState {
    /// Identity allowed to perform privileged changes.
    pub authority: Identity,
    /// The tracked token.
    pub token_mint: Identity,
    /// Sink that receives the burnt half of the tax.
    pub burn_wallet: Identity,
    /// Sink that receives the marketing half of the tax.
    pub marketing_wallet: Identity,
    /// Treasury that holds all locked tokens until release.
    pub project_wallet: Identity,
    /// The tier table.
    pub milestones: [Milestone; 8],
    /// The market cap last reported.
    pub current_market_cap: u64,
    /// Number of tiers passed so far, from 0 to 8.
    pub current_milestone: u8,
    /// Number of registered participants.
    pub user_count: u64,
    /// Time from which every lock is released in full.
    pub three_month_unlock_date: i64,
    /// Wallets exempt from the holding cap.
    pub exempted_wallets: Vec<Identity>,
    /// Set once full unlock has been reached; never cleared.
    pub unlock_complete: bool,
    /// Owner identity that marks a source as the trading venue.
    pub raydium_program_id: Identity,
    /// The venue's pool, or the zero identity while unset.
    pub liquidity_pool: Identity,
}

/// Thresholds and percents both rise strictly along the table, and the last
/// tier releases everything.
pub open spec fn table_ordered(table: Seq<Milestone>) -> bool {
    &&& table.len() == MAX_MILESTONES
    &&& forall|i: int, j: int|
        0 <= i < j < table.len() ==> table[i].market_cap < table[j].market_cap
    &&& forall|i: int, j: int|
        0 <= i < j < table.len() ==> table[i].unlock_percent < table[j].unlock_percent
    &&& table[MAX_MILESTONES - 1].unlock_percent == 100
}

impl GlobalState {
    /// The invariant of the ledger.
    pub open spec fn well_formed(self) -> bool {
        &&& table_ordered(self.milestones@)
        &&& self.current_milestone <= MAX_MILESTONES
        &&& self.user_count <= MAX_USERS
        &&& self.exempted_wallets@.len() <= MAX_EXEMPTED_WALLETS
        &&& self.exempted_wallets@.no_duplicates()
    }

    /// Whether `wallet` is exempt from the holding cap.
    pub open spec fn exempts(self, wallet: Identity) -> bool {
        self.exempted_wallets@.contains(wallet)
    }

    /// `self` is a later state of `before`: the tier index has not gone
    /// back, the full-unlock flag has not been cleared, and the table is
    /// the same.
    pub open spec fn progressed_from(self, before: GlobalState) -> bool {
        &&& self.current_milestone >= before.current_milestone
        &&& (before.unlock_complete ==> self.unlock_complete)
        &&& self.milestones == before.milestones
    }
}

/// Checks that thresholds and percents rise strictly along `table` and
/// that its last tier releases everything.
pub fn table_is_ordered(table: &[Milestone; 8]) -> (r: bool)
    ensures
        r == table_ordered(table@),
{
    if table[MAX_MILESTONES - 1].unlock_percent != 100 {
        return false;
    }
    let mut k: usize = 1;
    while k < MAX_MILESTONES
        invariant
            1 <= k <= MAX_MILESTONES,
            table@.len() == MAX_MILESTONES,
            forall|i: int, j: int|
                0 <= i < j < k ==> table@[i].market_cap < table@[j].market_cap,
            forall|i: int, j: int|
                0 <= i < j < k ==> table@[i].unlock_percent < table@[j].unlock_percent,
        decreases MAX_MILESTONES - k,
    {
        if table[k - 1].market_cap >= table[k].market_cap || table[k - 1].unlock_percent
            >= table[k].unlock_percent {
            return false;
        }
        proof {
            assert forall|i: int, j: int| 0 <= i < j < k + 1 implies table@[i].market_cap
                < table@[j].market_cap by {
                if j == k && i < k - 1 {
                    assert(table@[i].market_cap < table@[k - 1].market_cap);
                }
            }
            assert forall|i: int, j: int| 0 <= i < j < k + 1 implies table@[i].unlock_percent
                < table@[j].unlock_percent by {
                if j == k && i < k - 1 {
                    assert(table@[i].unlock_percent < table@[k - 1].unlock_percent);
                }
            }
        }
        k += 1;
    }
    true
}

/// Checks that no identity stands twice in `list`.
pub fn all_distinct(list: &Vec<Identity>) -> (r: bool)
    ensures
        r == list@.no_duplicates(),
{
    let mut k: usize = 0;
    while k < list.len()
        invariant
            k <= list@.len(),
            forall|i: int, j: int| 0 <= i < j < k ==> list@[i] != list@[j],
        decreases list@.len() - k,
    {
        let mut i: usize = 0;
        while i < k
            invariant
                i <= k < list@.len(),
                forall|a: int| 0 <= a < i ==> list@[a] != list@[k as int],
            decreases k - i,
        {
            if list[i].same(&list[k]) {
                return false;
            }
            i += 1;
        }
        k += 1;
    }
    true
}

impl GlobalState {
    /// Checks the invariant of the ledger, for a ledger that comes from
    /// storage.
    pub fn is_well_formed(&self) -> (r: bool)
        ensures
            r == self.well_formed(),
    {
        table_is_ordered(&self.milestones) && self.current_milestone as usize <= MAX_MILESTONES
            && self.user_count <= MAX_USERS as u64 && self.exempted_wallets.len()
            <= MAX_EXEMPTED_WALLETS && all_distinct(&self.exempted_wallets)
    }
}

/// The fixed tier table as a sequence.
pub open spec fn default_milestones_spec() -> Seq<Milestone> {
    seq![
        (Milestone { market_cap: 45000, unlock_percent: 10 }),
        (Milestone { market_cap: 105500, unlock_percent: 20 }),
        (Milestone { market_cap: 225000, unlock_percent: 30 }),
        (Milestone { market_cap: 395000, unlock_percent: 40 }),
        (Milestone { market_cap: 650000, unlock_percent: 50 }),
        (Milestone { market_cap: 997000, unlock_percent: 60 }),
        (Milestone { market_cap: 1574000, unlock_percent: 70 }),
        (Milestone { market_cap: 2500000, unlock_percent: 100 }),
    ]
}

/// The fixed tier table.
pub fn default_milestones() -> (table: [Milestone; 8])
    ensures
        table_ordered(table@),
        table@ == default_milestones_spec(),
{
    let table = [
        Milestone { market_cap: 45000, unlock_percent: 10 },
        Milestone { market_cap: 105500, unlock_percent: 20 },
        Milestone { market_cap: 225000, unlock_percent: 30 },
        Milestone { market_cap: 395000, unlock_percent: 40 },
        Milestone { market_cap: 650000, unlock_percent: 50 },
        Milestone { market_cap: 997000, unlock_percent: 60 },
        Milestone { market_cap: 1574000, unlock_percent: 70 },
        Milestone { market_cap: 2500000, unlock_percent: 100 },
    ];
    assert(table@ =~= default_milestones_spec());
    table
}

} // verus!
