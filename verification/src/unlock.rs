use vstd::prelude::*;
use crate::consts::{MAX_HOLD_AMOUNT, TAX_PER_MILLE};
use crate::errors::ErrorCode;
use crate::identity::{contains_identity, Identity};
use crate::structs::{GlobalState, Milestone, MilestoneUnlockAccount};

verus! {

/// One release, divided between the participant and the two sinks.
#[derive(Clone, Copy, Debug, PartialEq, Eq, Structural)]
pub struct Release {
    /// Tokens that leave the lock.
    pub delta: u64,
    /// The tax taken from `delta`.
    pub tax: u64,
    /// What the participant receives: `delta` less the tax.
    pub user_amount: u64,
    /// The half of the tax that is burnt, rounded down.
    pub burn_amount: u64,
    /// The rest of the tax, which goes to marketing.
    pub marketing_amount: u64,
}

/// What a settlement did.
#[derive(Clone, Copy, Debug, PartialEq, Eq, Structural)]
pub enum Settlement {
    /// Nothing was due; no record changed and no transfer is requested.
    NothingDue,
    /// The three transfers of the release are to be made.
    Released(Release),
}

/// The division of `delta` into tax and payout, or the overflow of the
/// 64-bit product from which the tax is taken.
pub open spec fn split_spec(delta: u64) -> Result<Release, ErrorCode> {
    if delta * TAX_PER_MILLE > u64::MAX {
        Err(ErrorCode::ArithmeticOverflow)
    } else {
        let tax = delta * TAX_PER_MILLE / 1000;
        Ok(
            Release {
                delta,
                tax: tax as u64,
                user_amount: (delta - tax) as u64,
                burn_amount: (tax / 2) as u64,
                marketing_amount: (tax - tax / 2) as u64,
            },
        )
    }
}

/// Whether the holding cap limits a release to `wallet`.
pub open spec fn clamp_applies(global: GlobalState, wallet: Identity) -> bool {
    !global.unlock_complete && !global.exempts(wallet)
}

/// How much a recipient holding `balance` may still receive under the cap.
pub open spec fn room_under_cap(balance: u64) -> int {
    if balance >= MAX_HOLD_AMOUNT {
        0
    } else {
        MAX_HOLD_AMOUNT - balance
    }
}

/// The cumulative amount the participant is entitled to: the tier's percent
/// of the original lock, or all of it once full unlock is reached.
pub open spec fn entitled_spec(
    global: GlobalState,
    participant: MilestoneUnlockAccount,
    tier: Milestone,
) -> int {
    if global.unlock_complete {
        participant.original_lock()
    } else {
        participant.original_lock() * tier.unlock_percent / 100
    }
}

/// What is entitled and not yet released.
pub open spec fn due_spec(
    global: GlobalState,
    participant: MilestoneUnlockAccount,
    tier: Milestone,
) -> int {
    entitled_spec(global, participant, tier) - participant.unlocked_tokens
}

/// The release that a settlement computes, or the error that stops it.
pub open spec fn quote_spec(
    global: GlobalState,
    participant: MilestoneUnlockAccount,
    tier: Milestone,
    balance: Option<u64>,
) -> Result<Release, ErrorCode> {
    let lock = participant.original_lock();
    let due = due_spec(global, participant, tier);
    if lock > u64::MAX {
        Err(ErrorCode::ArithmeticOverflow)
    } else if !global.unlock_complete && lock * tier.unlock_percent > u64::MAX {
        Err(ErrorCode::ArithmeticOverflow)
    } else if due < 0 {
        Err(ErrorCode::ArithmeticOverflow)
    } else if clamp_applies(global, participant.wallet) && balance is None {
        Err(ErrorCode::RecipientBalanceUnavailable)
    } else {
        let delta = if clamp_applies(global, participant.wallet) && room_under_cap(
            balance.unwrap(),
        ) < due {
            room_under_cap(balance.unwrap())
        } else {
            due
        };
        if delta > participant.total_locked_tokens {
            Err(ErrorCode::ArithmeticOverflow)
        } else {
            split_spec(delta as u64)
        }
    }
}

/// The participant's record after `release` has been paid out while the
/// ledger stood at tier index `tier_index`.
pub open spec fn after_release(
    participant: MilestoneUnlockAccount,
    release: Release,
    tier_index: u8,
) -> MilestoneUnlockAccount {
    MilestoneUnlockAccount {
        wallet: participant.wallet,
        ata: participant.ata,
        total_locked_tokens: (participant.total_locked_tokens - release.delta) as u64,
        unlocked_tokens: (participant.unlocked_tokens + release.delta) as u64,
        last_unlocked_milestone: tier_index,
    }
}

/// Divides `delta` into the 1.5% tax and the payout, and the tax into the
/// burnt half and the marketing remainder. The three amounts handed out
/// add up to `delta` exactly.
pub fn split_tax(delta: u64) -> (r: Result<Release, ErrorCode>)
    ensures
        r == split_spec(delta),
        r matches Ok(release) ==> {
            &&& release.delta == delta
            &&& release.burn_amount + release.marketing_amount == release.tax
            &&& release.burn_amount + release.marketing_amount + release.user_amount == delta
        },
{
    let scaled: u64 = match delta.checked_mul(TAX_PER_MILLE) {
        Some(v) => v,
        None => {
            return Err(ErrorCode::ArithmeticOverflow);
        },
    };
    let tax: u64 = scaled / 1000;
    let burn_amount: u64 = tax / 2;
    Ok(
        Release {
            delta,
            tax,
            user_amount: delta - tax,
            burn_amount,
            marketing_amount: tax - burn_amount,
        },
    )
}

/// Computes what a settlement of `participant` at `active_tier` would
/// release, without changing anything.
///
/// The percent is applied to the original lock, and only what exceeds the
/// amount already released is due. Unless full unlock is reached or the
/// wallet is exempt, the release is cut to the room the recipient has left
/// under the holding cap, so a recipient within the cap stays within it.
pub fn quote_release(
    global: &GlobalState,
    participant: &MilestoneUnlockAccount,
    active_tier: Milestone,
    recipient_current_balance: Option<u64>,
) -> (r: Result<Release, ErrorCode>)
    ensures
        r == quote_spec(*global, *participant, active_tier, recipient_current_balance),
        r matches Ok(release) ==> {
            &&& release.delta <= participant.total_locked_tokens
            &&& release.delta <= due_spec(*global, *participant, active_tier)
            &&& release.burn_amount + release.marketing_amount + release.user_amount
                == release.delta
            &&& clamp_applies(*global, participant.wallet) ==> release.delta <= room_under_cap(
                recipient_current_balance.unwrap(),
            )
        },
{
    let lock: u64 = match participant.total_locked_tokens.checked_add(
        participant.unlocked_tokens,
    ) {
        Some(v) => v,
        None => {
            return Err(ErrorCode::ArithmeticOverflow);
        },
    };
    let entitled: u64 = if global.unlock_complete {
        lock
    } else {
        match lock.checked_mul(active_tier.unlock_percent as u64) {
            Some(v) => v / 100,
            None => {
                return Err(ErrorCode::ArithmeticOverflow);
            },
        }
    };
    let due: u64 = match entitled.checked_sub(participant.unlocked_tokens) {
        Some(v) => v,
        None => {
            return Err(ErrorCode::ArithmeticOverflow);
        },
    };
    let mut delta: u64 = due;
    if !global.unlock_complete && !contains_identity(
        &global.exempted_wallets,
        &participant.wallet,
    ) {
        let balance: u64 = match recipient_current_balance {
            Some(b) => b,
            None => {
                return Err(ErrorCode::RecipientBalanceUnavailable);
            },
        };
        let room: u64 = if balance >= MAX_HOLD_AMOUNT {
            0
        } else {
            MAX_HOLD_AMOUNT - balance
        };
        if room < due {
            delta = room;
        }
    }
    if delta > participant.total_locked_tokens {
        return Err(ErrorCode::ArithmeticOverflow);
    }
    split_tax(delta)
}

/// Books a release whose transfers the host has attempted.
///
/// A release of nothing changes nothing. If the transfers failed the record
/// stays as it was and `TokenTransferFailed` is returned. Otherwise `delta`
/// moves from locked to released and the record notes the ledger's current
/// tier index.
pub fn record_release(
    global: &GlobalState,
    participant: &mut MilestoneUnlockAccount,
    release: Release,
    transfers_succeeded: bool,
) -> (r: Result<Settlement, ErrorCode>)
    ensures
        release.delta == 0 ==> r == Ok::<Settlement, ErrorCode>(Settlement::NothingDue),
        release.delta != 0 && !transfers_succeeded ==> r == Err::<Settlement, ErrorCode>(
            ErrorCode::TokenTransferFailed,
        ),
        release.delta != 0 && transfers_succeeded && (release.delta
            > old(participant).total_locked_tokens || old(participant).unlocked_tokens
            + release.delta > u64::MAX) ==> r == Err::<Settlement, ErrorCode>(
            ErrorCode::ArithmeticOverflow,
        ),
        release.delta != 0 && transfers_succeeded && release.delta
            <= old(participant).total_locked_tokens && old(participant).unlocked_tokens
            + release.delta <= u64::MAX ==> r == Ok::<Settlement, ErrorCode>(
            Settlement::Released(release),
        ),
        r matches Ok(Settlement::Released(_)) ==> *final(participant) == after_release(
            *old(participant),
            release,
            global.current_milestone,
        ),
        !(r matches Ok(Settlement::Released(_))) ==> *final(participant) == *old(participant),
        final(participant).released_from(*old(participant)),
{
    if release.delta == 0 {
        return Ok(Settlement::NothingDue);
    }
    if !transfers_succeeded {
        return Err(ErrorCode::TokenTransferFailed);
    }
    let locked: u64 = match participant.total_locked_tokens.checked_sub(release.delta) {
        Some(v) => v,
        None => {
            return Err(ErrorCode::ArithmeticOverflow);
        },
    };
    let unlocked: u64 = match participant.unlocked_tokens.checked_add(release.delta) {
        Some(v) => v,
        None => {
            return Err(ErrorCode::ArithmeticOverflow);
        },
    };
    participant.total_locked_tokens = locked;
    participant.unlocked_tokens = unlocked;
    participant.last_unlocked_milestone = global.current_milestone;
    Ok(Settlement::Released(release))
}

/// What `settle` returns and leaves in the participant's record.
pub open spec fn settle_spec(
    global: GlobalState,
    participant: MilestoneUnlockAccount,
    tier: Milestone,
    balance: Option<u64>,
) -> (Result<Settlement, ErrorCode>, MilestoneUnlockAccount) {
    match quote_spec(global, participant, tier, balance) {
        Err(e) => (Err(e), participant),
        Ok(release) => if release.delta == 0 {
            (Ok(Settlement::NothingDue), participant)
        } else {
            (
                Ok(Settlement::Released(release)),
                after_release(participant, release, global.current_milestone),
            )
        },
    }
}

/// Settles one participant at `active_tier`: computes the release, moves it
/// from locked to released in the record and returns the three transfer
/// amounts for the host to execute together with this change.
///
/// On an error, and when nothing is due, the record is left as it was. The
/// sum of locked and released tokens never changes, the released amount
/// never goes down, and where the holding cap applies the release is no
/// more than the room the recipient has left under it.
pub fn settle(
    global: &GlobalState,
    participant: &mut MilestoneUnlockAccount,
    active_tier: Milestone,
    recipient_current_balance: Option<u64>,
) -> (r: Result<Settlement, ErrorCode>)
    ensures
        (r, *final(participant)) == settle_spec(
            *global,
            *old(participant),
            active_tier,
            recipient_current_balance,
        ),
        final(participant).released_from(*old(participant)),
        final(participant).original_lock() == old(participant).original_lock(),
        final(participant).unlocked_tokens >= old(participant).unlocked_tokens,
        r matches Ok(Settlement::Released(release)) ==> {
            &&& release.delta > 0
            &&& release.burn_amount + release.marketing_amount + release.user_amount
                == release.delta
            &&& final(participant).unlocked_tokens == old(participant).unlocked_tokens
                + release.delta
            &&& final(participant).last_unlocked_milestone == global.current_milestone
            &&& clamp_applies(*global, old(participant).wallet) ==> {
                &&& release.delta <= room_under_cap(recipient_current_balance.unwrap())
                &&& recipient_current_balance.unwrap() + release.delta <= MAX_HOLD_AMOUNT
                &&& recipient_current_balance.unwrap() + release.user_amount
                    <= MAX_HOLD_AMOUNT
            }
        },
        old(participant).last_unlocked_milestone <= global.current_milestone ==> final(participant)
            .last_unlocked_milestone <= global.current_milestone,
{
    let release = match quote_release(
        global,
        participant,
        active_tier,
        recipient_current_balance,
    ) {
        Ok(v) => v,
        Err(e) => {
            return Err(e);
        },
    };
    record_release(global, participant, release, true)
}

/// Settling again at the same tier, with no change in between, releases
/// nothing: provided the first release was all that was due, or the
/// recipient now has no room left under the holding cap.
pub proof fn lemma_settle_again_releases_nothing(
    global: GlobalState,
    participant: MilestoneUnlockAccount,
    tier: Milestone,
    first_balance: Option<u64>,
    second_balance: Option<u64>,
)
    requires
        quote_spec(global, participant, tier, first_balance) is Ok,
        clamp_applies(global, participant.wallet) ==> second_balance is Some && (quote_spec(
            global,
            participant,
            tier,
            first_balance,
        ).unwrap().delta == due_spec(global, participant, tier) || room_under_cap(
            second_balance.unwrap(),
        ) == 0),
    ensures
        settle_spec(
            global,
            settle_spec(global, participant, tier, first_balance).1,
            tier,
            second_balance,
        ).0 == Ok::<Settlement, ErrorCode>(Settlement::NothingDue),
        settle_spec(
            global,
            settle_spec(global, participant, tier, first_balance).1,
            tier,
            second_balance,
        ).1 == settle_spec(global, participant, tier, first_balance).1,
{
}

/// Any number of settlements leaves the sum of locked and released tokens
/// as it was, and never lowers the released amount: the relation that each
/// settlement establishes carries over a chain of them.
pub proof fn lemma_released_from_is_transitive(
    first: MilestoneUnlockAccount,
    second: MilestoneUnlockAccount,
    third: MilestoneUnlockAccount,
)
    requires
        second.released_from(first),
        third.released_from(second),
    ensures
        third.released_from(first),
        third.original_lock() == first.original_lock(),
        third.unlocked_tokens >= first.unlocked_tokens,
{
}

} // verus!
