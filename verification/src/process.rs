use vstd::prelude::*;
use crate::book::{distinct_wallets, find_account, has_wallet, slot_of, UserBook};
use crate::errors::ErrorCode;
use crate::events::MilestoneProcessed;
use crate::identity::Identity;
use crate::consts::{MARKET_CAP_CEILING, MAX_HOLD_AMOUNT, MAX_MILESTONES};
use crate::milestones::{advance, advance_result, advanced, cap_is_plausible, Progress};
use crate::structs::{GlobalState, Milestone, MilestoneUnlockAccount};
use crate::token::{unpack_amount, unpacked_amount};
use crate::unlock::{clamp_applies, settle, settle_spec, Release, Settlement};

verus! {

/// One participant of a batch: the wallet to settle, and the stored bytes
/// of its settlement account as the batch begins, from which the
/// recipient's balance is read.
#[derive(Clone, Debug, PartialEq, Eq)]
pub struct UnlockRequest {
    pub wallet: Identity,
    pub ata_data: Vec<u8>,
}

/// The transfers that one release asks of the host: `event.unlocked_tokens`
/// to `destination`, `event.burn_tax` to the burn sink and
/// `event.marketing_tax` to the marketing sink, all from the treasury.
#[derive(Clone, Copy, Debug, PartialEq, Eq)]
pub struct Payout {
    pub destination: Identity,
    pub event: MilestoneProcessed,
}

/// What a report with a batch brought about.
#[derive(Clone, Debug, PartialEq, Eq)]
pub struct ProcessOutcome {
    pub progress: Progress,
    pub payouts: Vec<Payout>,
}

/// The tier at which a batch is settled: the tier just entered, or the
/// last one where full unlock is active without a new tier.
pub open spec fn active_tier(global: GlobalState, progress: Progress) -> Milestone {
    match progress {
        Progress::Entered { tier_index, tier } => tier,
        Progress::FullUnlock => global.milestones[MAX_MILESTONES - 1],
    }
}

/// The payout of `release` to the holder of `account` at `tier_index`.
pub open spec fn payout_of(account: MilestoneUnlockAccount, release: Release, tier_index: u8)
    -> Payout {
    Payout {
        destination: account.ata,
        event: MilestoneProcessed {
            wallet: account.wallet,
            unlocked_tokens: release.user_amount,
            milestone_index: tier_index,
            tax: release.tax,
            burn_tax: release.burn_amount,
            marketing_tax: release.marketing_amount,
        },
    }
}

/// What the payouts in `payouts` hand to `destination`, taken together.
pub open spec fn paid_to(payouts: Seq<Payout>, destination: Identity) -> int
    decreases payouts.len(),
{
    if payouts.len() == 0 {
        0
    } else {
        paid_to(payouts.drop_last(), destination) + if payouts.last().destination
            == destination {
            payouts.last().event.unlocked_tokens as int
        } else {
            0
        }
    }
}

/// The balance that a recipient holds in the middle of a batch: what its
/// account held when the batch began, and what the batch has paid to it
/// since, up to the largest amount there is.
pub open spec fn running_balance(stored: Option<u64>, paid: int) -> Option<u64> {
    match stored {
        None => None,
        Some(held) => if held + paid > u64::MAX {
            Some(u64::MAX)
        } else {
            Some((held + paid) as u64)
        },
    }
}

/// Settling one request against `accounts`, after `paid` has been paid out
/// in the same batch: the records afterwards and the payout, if anything
/// was due. A wallet without a record is an error.
pub open spec fn settle_one(
    global: GlobalState,
    accounts: Seq<MilestoneUnlockAccount>,
    tier: Milestone,
    request: UnlockRequest,
    paid: Seq<Payout>,
) -> Result<(Seq<MilestoneUnlockAccount>, Option<Payout>), ErrorCode> {
    if !has_wallet(accounts, request.wallet) {
        Err(ErrorCode::UserNotFound)
    } else {
        let at = slot_of(accounts, request.wallet);
        let settled = settle_spec(
            global,
            accounts[at],
            tier,
            running_balance(
                unpacked_amount(request.ata_data@),
                paid_to(paid, accounts[at].ata),
            ),
        );
        match settled.0 {
            Err(e) => Err(e),
            Ok(Settlement::NothingDue) => Ok((accounts, None)),
            Ok(Settlement::Released(release)) => Ok(
                (
                    accounts.update(at, settled.1),
                    Some(payout_of(accounts[at], release, global.current_milestone)),
                ),
            ),
        }
    }
}

/// Settling the first `upto` requests of `batch` one after the other: the
/// records afterwards and the payouts in order, or the first error. Each
/// request sees what the earlier ones have paid to its recipient.
pub open spec fn settle_batch(
    global: GlobalState,
    accounts: Seq<MilestoneUnlockAccount>,
    tier: Milestone,
    batch: Seq<UnlockRequest>,
    upto: int,
) -> Result<(Seq<MilestoneUnlockAccount>, Seq<Payout>), ErrorCode>
    decreases upto,
{
    if upto <= 0 {
        Ok((accounts, Seq::empty()))
    } else {
        match settle_batch(global, accounts, tier, batch, upto - 1) {
            Err(e) => Err(e),
            Ok(sofar) => match settle_one(global, sofar.0, tier, batch[upto - 1], sofar.1) {
                Err(e) => Err(e),
                Ok(next) => match next.1 {
                    None => Ok((next.0, sofar.1)),
                    Some(payout) => Ok((next.0, sofar.1.push(payout))),
                },
            },
        }
    }
}

/// Within a batch, a recipient under the holding cap stays under it: if
/// what its account held and what the batch has paid to it so far are
/// within the cap, they still are after the next payout to it.
pub proof fn lemma_batch_keeps_within_cap(
    global: GlobalState,
    accounts: Seq<MilestoneUnlockAccount>,
    tier: Milestone,
    request: UnlockRequest,
    paid: Seq<Payout>,
)
    requires
        settle_one(global, accounts, tier, request, paid) is Ok,
        settle_one(global, accounts, tier, request, paid).unwrap().1 is Some,
        clamp_applies(global, request.wallet),
        unpacked_amount(request.ata_data@) is Some,
        unpacked_amount(request.ata_data@).unwrap() + paid_to(
            paid,
            accounts[slot_of(accounts, request.wallet)].ata,
        ) <= MAX_HOLD_AMOUNT,
    ensures
        ({
            let payout = settle_one(global, accounts, tier, request, paid).unwrap().1.unwrap();
            unpacked_amount(request.ata_data@).unwrap() + paid_to(
                paid.push(payout),
                payout.destination,
            ) <= MAX_HOLD_AMOUNT
        }),
{
    let payout = settle_one(global, accounts, tier, request, paid).unwrap().1.unwrap();
    assert(paid.push(payout).drop_last() =~= paid);
}

/// Adds up what `payouts` hand to `destination`, stopping at the largest
/// amount there is.
fn sum_paid_to(payouts: &Vec<Payout>, destination: &Identity) -> (r: u64)
    ensures
        r == if paid_to(payouts@, *destination) > u64::MAX {
            u64::MAX as int
        } else {
            paid_to(payouts@, *destination)
        },
        paid_to(payouts@, *destination) >= 0,
{
    let mut total: u64 = 0;
    let mut i: usize = 0;
    while i < payouts.len()
        invariant
            i <= payouts@.len(),
            paid_to(payouts@.subrange(0, i as int), *destination) >= 0,
            total == if paid_to(payouts@.subrange(0, i as int), *destination) > u64::MAX {
                u64::MAX as int
            } else {
                paid_to(payouts@.subrange(0, i as int), *destination)
            },
        decreases payouts@.len() - i,
    {
        assert(payouts@.subrange(0, i + 1).drop_last() =~= payouts@.subrange(0, i as int));
        if payouts[i].destination.same(destination) {
            total = total.saturating_add(payouts[i].event.unlocked_tokens);
        }
        i += 1;
    }
    assert(payouts@.subrange(0, payouts@.len() as int) =~= payouts@);
    total
}

/// An error among the first requests is the error of the whole batch.
pub proof fn lemma_settle_batch_error_stays(
    global: GlobalState,
    accounts: Seq<MilestoneUnlockAccount>,
    tier: Milestone,
    batch: Seq<UnlockRequest>,
    upto: int,
    all: int,
)
    requires
        0 <= upto <= all,
        settle_batch(global, accounts, tier, batch, upto) is Err,
    ensures
        settle_batch(global, accounts, tier, batch, all) == settle_batch(
            global,
            accounts,
            tier,
            batch,
            upto,
        ),
    decreases all - upto,
{
    if upto < all {
        lemma_settle_batch_error_stays(global, accounts, tier, batch, upto, all - 1);
    }
}

fn copy_accounts(accounts: &Vec<MilestoneUnlockAccount>) -> (r: Vec<MilestoneUnlockAccount>)
    ensures
        r@ == accounts@,
{
    let mut r: Vec<MilestoneUnlockAccount> = Vec::new();
    let mut i: usize = 0;
    while i < accounts.len()
        invariant
            i <= accounts@.len(),
            r@ == accounts@.subrange(0, i as int),
        decreases accounts@.len() - i,
    {
        r.push(accounts[i]);
        assert(r@ =~= accounts@.subrange(0, i + 1));
        i += 1;
    }
    assert(r@ =~= accounts@);
    r
}

/// Settles the requests of `batch` one after the other at `tier`, on a
/// copy of `accounts`, and returns the records afterwards with the payouts
/// in order. The first error ends the run.
#[verifier::loop_isolation(false)]
pub fn settle_requests(
    global: &GlobalState,
    accounts: &Vec<MilestoneUnlockAccount>,
    tier: Milestone,
    batch: &Vec<UnlockRequest>,
) -> (r: Result<(Vec<MilestoneUnlockAccount>, Vec<Payout>), ErrorCode>)
    requires
        distinct_wallets(accounts@),
    ensures
        match settle_batch(*global, accounts@, tier, batch@, batch@.len() as int) {
            Err(e) => r == Err::<(Vec<MilestoneUnlockAccount>, Vec<Payout>), ErrorCode>(e),
            Ok(done) => r matches Ok(out) && out.0@ == done.0 && out.1@ == done.1,
        },
        r matches Ok(out) ==> {
            &&& out.0@.len() == accounts@.len()
            &&& distinct_wallets(out.0@)
            &&& forall|k: int|
                0 <= k < accounts@.len() ==> (#[trigger] out.0@[k]).released_from(accounts@[k])
        },
{
    let mut work = copy_accounts(accounts);
    let mut payouts: Vec<Payout> = Vec::new();
    let mut i: usize = 0;
    while i < batch.len()
        invariant
            i <= batch@.len(),
            work@.len() == accounts@.len(),
            forall|k: int|
                0 <= k < accounts@.len() ==> (#[trigger] work@[k]).released_from(accounts@[k]),
            distinct_wallets(work@),
            settle_batch(*global, accounts@, tier, batch@, i as int) == Ok::<
                (Seq<MilestoneUnlockAccount>, Seq<Payout>),
                ErrorCode,
            >((work@, payouts@)),
        decreases batch@.len() - i,
    {
        let ghost sofar = work@;
        let at: usize = match find_account(&work, &batch[i].wallet) {
            Some(at) => at,
            None => {
                proof {
                    lemma_settle_batch_error_stays(
                        *global,
                        accounts@,
                        tier,
                        batch@,
                        i + 1,
                        batch@.len() as int,
                    );
                }
                return Err(ErrorCode::UserNotFound);
            },
        };
        let before = work[at];
        let mut account = before;
        let paid: u64 = sum_paid_to(&payouts, &before.ata);
        let balance: Option<u64> = match unpack_amount(&batch[i].ata_data) {
            Some(held) => Some(held.saturating_add(paid)),
            None => None,
        };
        match settle(global, &mut account, tier, balance) {
            Err(e) => {
                proof {
                    lemma_settle_batch_error_stays(
                        *global,
                        accounts@,
                        tier,
                        batch@,
                        i + 1,
                        batch@.len() as int,
                    );
                }
                return Err(e);
            },
            Ok(Settlement::NothingDue) => {},
            Ok(Settlement::Released(release)) => {
                payouts.push(
                    Payout {
                        destination: before.ata,
                        event: MilestoneProcessed {
                            wallet: before.wallet,
                            unlocked_tokens: release.user_amount,
                            milestone_index: global.current_milestone,
                            tax: release.tax,
                            burn_tax: release.burn_amount,
                            marketing_tax: release.marketing_amount,
                        },
                    },
                );
                work.set(at, account);
                proof {
                    assert(work@ == sofar.update(at as int, account));
                    assert forall|k: int| 0 <= k < accounts@.len() implies (
                    #[trigger] work@[k]).released_from(accounts@[k]) by {
                        assert(sofar[k].released_from(accounts@[k]));
                    }
                    assert forall|a: int, b: int| 0 <= a < b < work@.len() implies work@[a].wallet
                        != work@[b].wallet by {
                        assert(sofar[a].wallet != sofar[b].wallet);
                    }
                }
            },
        }
        i += 1;
    }
    Ok((work, payouts))
}

/// Reports a market cap and settles a batch of participants at the tier
/// that the report enters.
///
/// An implausible cap, or an empty batch, is rejected and nothing changes.
/// Otherwise the cap is recorded, the full-unlock flag is set if it is due
/// and every tier that the cap clears is passed. A cap that clears no
/// further tier fails, unless full unlock is active, with the cap and the
/// flag recorded all the same. The requests are then settled one after the
/// other; the first that fails undoes the whole call, the report included.
pub fn process_milestones(
    global: &mut GlobalState,
    book: &mut UserBook,
    market_cap: u64,
    now: i64,
    batch: &Vec<UnlockRequest>,
) -> (r: Result<ProcessOutcome, ErrorCode>)
    requires
        old(global).well_formed(),
        old(book).well_formed(),
    ensures
        final(global).well_formed(),
        final(book).well_formed(),
        final(global).progressed_from(*old(global)),
        final(book).accounts@.len() == old(book).accounts@.len(),
        forall|k: int|
            0 <= k < old(book).accounts@.len() ==> (#[trigger] final(book).accounts@[k])
                .released_from(old(book).accounts@[k]),
        !cap_is_plausible(market_cap) ==> r == Err::<ProcessOutcome, ErrorCode>(
            ErrorCode::InvalidMarketCapValue,
        ) && *final(global) == *old(global) && *final(book) == *old(book),
        cap_is_plausible(market_cap) && batch@.len() == 0 ==> r == Err::<
            ProcessOutcome,
            ErrorCode,
        >(ErrorCode::AccountNotEnough) && *final(global) == *old(global) && *final(book)
            == *old(book),
        cap_is_plausible(market_cap) && batch@.len() > 0 ==> match advance_result(
            *old(global),
            market_cap,
            now,
        ) {
            Err(e) => r == Err::<ProcessOutcome, ErrorCode>(e) && *final(global) == advanced(
                *old(global),
                market_cap,
                now,
            ) && *final(book) == *old(book),
            Ok(progress) => match settle_batch(
                advanced(*old(global), market_cap, now),
                old(book).accounts@,
                active_tier(*old(global), progress),
                batch@,
                batch@.len() as int,
            ) {
                Err(e) => {
                    &&& r == Err::<ProcessOutcome, ErrorCode>(e)
                    &&& *final(global) == *old(global)
                    &&& *final(book) == *old(book)
                },
                Ok(done) => {
                    &&& r matches Ok(out) && out.progress == progress && out.payouts@ == done.1
                    &&& *final(global) == advanced(*old(global), market_cap, now)
                    &&& final(book).accounts@ == done.0
                },
            },
        },
{
    if batch.len() == 0 && market_cap > 0 && market_cap < MARKET_CAP_CEILING {
        return Err(ErrorCode::AccountNotEnough);
    }
    let saved_cap: u64 = global.current_market_cap;
    let saved_flag: bool = global.unlock_complete;
    let saved_index: u8 = global.current_milestone;
    let progress = match advance(global, market_cap, now) {
        Ok(p) => p,
        Err(e) => {
            return Err(e);
        },
    };
    let tier = match progress {
        Progress::Entered { tier_index, tier } => tier,
        Progress::FullUnlock => global.milestones[MAX_MILESTONES - 1],
    };
    match settle_requests(global, &book.accounts, tier, batch) {
        Err(e) => {
            global.current_market_cap = saved_cap;
            global.unlock_complete = saved_flag;
            global.current_milestone = saved_index;
            Err(e)
        },
        Ok(done) => {
            book.accounts = done.0;
            Ok(ProcessOutcome { progress, payouts: done.1 })
        },
    }
}

} // verus!
