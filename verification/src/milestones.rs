use vstd::prelude::*;
use crate::consts::{MARKET_CAP_CEILING, MAX_MILESTONES};
use crate::errors::ErrorCode;
use crate::structs::{GlobalState, Milestone};

verus! {

/// What a report of the market cap brought about.
#[derive(Clone, Copy, Debug, PartialEq, Eq)]
pub enum Progress {
    /// One or more tiers were passed; `tier` is the last of them and
    /// `tier_index` its place in the table.
    Entered { tier_index: u8, tier: Milestone },
    /// No tier was passed, but full unlock is active: settle in full.
    FullUnlock,
}

/// A reported cap is accepted when it is positive and below the ceiling.
pub open spec fn cap_is_plausible(cap: u64) -> bool {
    0 < cap < MARKET_CAP_CEILING
}

/// The tier index reached from `from` by passing, in order, every tier
/// whose threshold `cap` meets.
pub open spec fn tiers_cleared(table: Seq<Milestone>, from: int, cap: u64) -> int
    decreases table.len() - from,
{
    if 0 <= from < table.len() && cap >= table[from].market_cap {
        tiers_cleared(table, from + 1, cap)
    } else {
        from
    }
}

/// Whether full unlock holds after `cap` is reported at time `now`: it
/// held before, or the cap meets the last threshold, or the deadline has
/// come.
pub open spec fn full_unlock_after(global: GlobalState, cap: u64, now: i64) -> bool {
    global.unlock_complete || cap >= global.milestones[MAX_MILESTONES - 1].market_cap || now
        >= global.three_month_unlock_date
}

/// The ledger after an accepted report, whatever the report's result: the
/// cap and the flag are recorded, and the tier index stands where the scan
/// ended.
pub open spec fn advanced(global: GlobalState, cap: u64, now: i64) -> GlobalState {
    GlobalState {
        current_market_cap: cap,
        unlock_complete: full_unlock_after(global, cap, now),
        current_milestone: tiers_cleared(
            global.milestones@,
            global.current_milestone as int,
            cap,
        ) as u8,
        ..global
    }
}

/// The result of an accepted report.
pub open spec fn advance_result(global: GlobalState, cap: u64, now: i64) -> Result<
    Progress,
    ErrorCode,
> {
    let reached = tiers_cleared(global.milestones@, global.current_milestone as int, cap);
    if reached > global.current_milestone {
        Ok(
            Progress::Entered {
                tier_index: (reached - 1) as u8,
                tier: global.milestones[reached - 1],
            },
        )
    } else if full_unlock_after(global, cap, now) {
        Ok(Progress::FullUnlock)
    } else if global.current_milestone >= MAX_MILESTONES {
        Err(ErrorCode::MilestoneCompleted)
    } else {
        Err(ErrorCode::MilestoneNotReached)
    }
}

/// Records a reported market cap and passes every tier that it clears.
///
/// A cap of zero, or one at or above the ceiling, is rejected and nothing
/// changes. Otherwise the cap is recorded and the full-unlock flag is set
/// if it is due, also when the report then fails: a cap that clears no
/// further tier keeps the recorded cap fresh, and fails with
/// `MilestoneNotReached` (or `MilestoneCompleted` when no tier is left)
/// unless full unlock is active. The tier index never goes back and the
/// flag is never cleared.
pub fn advance(global: &mut GlobalState, reported_cap: u64, now: i64) -> (r: Result<
    Progress,
    ErrorCode,
>)
    requires
        old(global).well_formed(),
    ensures
        final(global).well_formed(),
        final(global).progressed_from(*old(global)),
        !cap_is_plausible(reported_cap) ==> r == Err::<Progress, ErrorCode>(
            ErrorCode::InvalidMarketCapValue,
        ) && *final(global) == *old(global),
        cap_is_plausible(reported_cap) ==> r == advance_result(*old(global), reported_cap, now)
            && *final(global) == advanced(*old(global), reported_cap, now),
        r is Err ==> final(global).current_milestone == old(global).current_milestone,
{
    if reported_cap == 0 || reported_cap >= MARKET_CAP_CEILING {
        return Err(ErrorCode::InvalidMarketCapValue);
    }
    global.current_market_cap = reported_cap;
    if now >= global.three_month_unlock_date || reported_cap >= global.milestones[MAX_MILESTONES
        - 1].market_cap {
        global.unlock_complete = true;
    }
    let start: u8 = global.current_milestone;
    let mut reached: u8 = start;
    while (reached as usize) < MAX_MILESTONES && reported_cap >= global.milestones[reached
        as usize].market_cap
        invariant
            start <= reached <= MAX_MILESTONES,
            global.milestones@.len() == MAX_MILESTONES,
            tiers_cleared(global.milestones@, start as int, reported_cap) == tiers_cleared(
                global.milestones@,
                reached as int,
                reported_cap,
            ),
        decreases MAX_MILESTONES - reached,
    {
        reached = reached + 1;
    }
    if reached > start {
        global.current_milestone = reached;
        let tier = global.milestones[(reached - 1) as usize];
        Ok(Progress::Entered { tier_index: reached - 1, tier })
    } else if global.unlock_complete {
        Ok(Progress::FullUnlock)
    } else if start as usize >= MAX_MILESTONES {
        Err(ErrorCode::MilestoneCompleted)
    } else {
        Err(ErrorCode::MilestoneNotReached)
    }
}

/// A chain of reports never lowers the tier index and never clears the
/// full-unlock flag: the relation that each report establishes carries over
/// a chain of them.
pub proof fn lemma_progressed_from_is_transitive(
    first: GlobalState,
    second: GlobalState,
    third: GlobalState,
)
    requires
        second.progressed_from(first),
        third.progressed_from(second),
    ensures
        third.progressed_from(first),
        third.current_milestone >= first.current_milestone,
        first.unlock_complete ==> third.unlock_complete,
{
}

} // verus!
