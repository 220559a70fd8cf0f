use vstd::prelude::*;
use crate::consts::{MAX_EXEMPTED_WALLETS, THREE_MONTHS_SECONDS};
use crate::errors::ErrorCode;
use crate::events::MarketCapUpdated;
use crate::exempt::{exempt_wallet, unexempt_wallet};
use crate::identity::{lemma_zero_is_unique, Identity};
use crate::structs::{default_milestones, default_milestones_spec, AccountSnapshot, GlobalState};
use crate::token::system_program_id;

verus! {

/// A sink or treasury is eligible when it exists and is a plain wallet:
/// it holds some native coin and the system program owns it.
pub open spec fn wallet_is_eligible(wallet: AccountSnapshot) -> bool {
    wallet.lamports > 0 && wallet.owner.is_zero()
}

/// Why the ledger cannot be created, if it cannot. The three wallets are
/// first checked for eligibility, then for being writable, each time in
/// the order burn, marketing, treasury; last comes the deadline, which
/// must fit.
pub open spec fn initialize_error(
    burn_wallet: AccountSnapshot,
    marketing_wallet: AccountSnapshot,
    project_wallet: AccountSnapshot,
    now: i64,
) -> Option<ErrorCode> {
    if !wallet_is_eligible(burn_wallet) {
        Some(ErrorCode::InvalidBurnWallet)
    } else if !wallet_is_eligible(marketing_wallet) {
        Some(ErrorCode::InvalidMarketingWallet)
    } else if !wallet_is_eligible(project_wallet) {
        Some(ErrorCode::InvalidProjectWallet)
    } else if !burn_wallet.is_writable {
        Some(ErrorCode::InvalidBurnWallet)
    } else if !marketing_wallet.is_writable {
        Some(ErrorCode::InvalidMarketingWallet)
    } else if !project_wallet.is_writable {
        Some(ErrorCode::InvalidProjectWallet)
    } else if now + THREE_MONTHS_SECONDS > i64::MAX {
        Some(ErrorCode::ArithmeticOverflow)
    } else {
        None
    }
}

fn is_plain_wallet(wallet: &AccountSnapshot) -> (r: bool)
    ensures
        r == wallet_is_eligible(*wallet),
{
    let system = system_program_id();
    let owned = wallet.owner.same(&system);
    proof {
        if wallet.owner.is_zero() {
            lemma_zero_is_unique(wallet.owner, system);
        }
    }
    wallet.lamports > 0 && owned
}

/// Creates the ledger at time `now`.
///
/// The ledger starts before the first tier, without participants or exempt
/// wallets, with the fixed tier table, no pool, and the full-unlock
/// deadline ninety days after `now`.
pub fn initialize_program(
    authority: Identity,
    token_mint: Identity,
    burn_wallet: &AccountSnapshot,
    marketing_wallet: &AccountSnapshot,
    project_wallet: &AccountSnapshot,
    raydium_program_id: Identity,
    now: i64,
) -> (r: Result<GlobalState, ErrorCode>)
    ensures
        match initialize_error(*burn_wallet, *marketing_wallet, *project_wallet, now) {
            Some(e) => r == Err::<GlobalState, ErrorCode>(e),
            None => r is Ok,
        },
        r matches Ok(global) ==> {
            &&& global.well_formed()
            &&& global.authority == authority
            &&& global.token_mint == token_mint
            &&& global.burn_wallet == burn_wallet.key
            &&& global.marketing_wallet == marketing_wallet.key
            &&& global.project_wallet == project_wallet.key
            &&& global.milestones@ == default_milestones_spec()
            &&& global.current_market_cap == 0
            &&& global.current_milestone == 0
            &&& global.user_count == 0
            &&& global.three_month_unlock_date == now + THREE_MONTHS_SECONDS
            &&& global.exempted_wallets@.len() == 0
            &&& !global.unlock_complete
            &&& global.raydium_program_id == raydium_program_id
            &&& global.liquidity_pool.is_zero()
        },
{
    if !is_plain_wallet(burn_wallet) {
        return Err(ErrorCode::InvalidBurnWallet);
    }
    if !is_plain_wallet(marketing_wallet) {
        return Err(ErrorCode::InvalidMarketingWallet);
    }
    if !is_plain_wallet(project_wallet) {
        return Err(ErrorCode::InvalidProjectWallet);
    }
    if !burn_wallet.is_writable {
        return Err(ErrorCode::InvalidBurnWallet);
    }
    if !marketing_wallet.is_writable {
        return Err(ErrorCode::InvalidMarketingWallet);
    }
    if !project_wallet.is_writable {
        return Err(ErrorCode::InvalidProjectWallet);
    }
    let deadline: i64 = match now.checked_add(THREE_MONTHS_SECONDS) {
        Some(v) => v,
        None => {
            return Err(ErrorCode::ArithmeticOverflow);
        },
    };
    Ok(
        GlobalState {
            authority,
            token_mint,
            burn_wallet: burn_wallet.key,
            marketing_wallet: marketing_wallet.key,
            project_wallet: project_wallet.key,
            milestones: default_milestones(),
            current_market_cap: 0,
            current_milestone: 0,
            user_count: 0,
            three_month_unlock_date: deadline,
            exempted_wallets: Vec::new(),
            unlock_complete: false,
            raydium_program_id,
            liquidity_pool: Identity::zero(),
        },
    )
}

/// Adds `wallet` to the exemption registry on the admin's behalf.
///
/// A caller other than the admin authority gets `Unauthorized`; a full
/// registry gives `MaxExemptedWallets`. Either way nothing changes. A
/// wallet already exempt stays so, and the call succeeds.
pub fn add_exempt_wallet(global: &mut GlobalState, caller: Identity, wallet: Identity) -> (r:
    Result<(), ErrorCode>)
    requires
        old(global).well_formed(),
    ensures
        final(global).well_formed(),
        final(global).progressed_from(*old(global)),
        caller != old(global).authority ==> r == Err::<(), ErrorCode>(ErrorCode::Unauthorized),
        caller == old(global).authority && old(global).exempted_wallets@.len()
            >= MAX_EXEMPTED_WALLETS ==> r == Err::<(), ErrorCode>(
            ErrorCode::MaxExemptedWallets,
        ),
        caller == old(global).authority && old(global).exempted_wallets@.len()
            < MAX_EXEMPTED_WALLETS ==> r == Ok::<(), ErrorCode>(()),
        r is Err ==> *final(global) == *old(global),
        r is Ok ==> final(global).exempts(wallet),
        r is Ok && old(global).exempts(wallet) ==> *final(global) == *old(global),
        r is Ok && !old(global).exempts(wallet) ==> final(global).exempted_wallets@
            == old(global).exempted_wallets@.push(wallet),
        forall|other: Identity|
            other != wallet ==> final(global).exempts(other) == old(global).exempts(other),
        *final(global) == (GlobalState {
            exempted_wallets: final(global).exempted_wallets,
            ..*old(global)
        }),
{
    if !caller.same(&global.authority) {
        return Err(ErrorCode::Unauthorized);
    }
    exempt_wallet(global, wallet)
}

/// Takes `wallet` out of the exemption registry on the admin's behalf.
///
/// A caller other than the admin authority gets `Unauthorized` and nothing
/// changes. Otherwise the result says whether the wallet was exempt; an
/// absent wallet changes nothing.
pub fn remove_exempt_wallet(global: &mut GlobalState, caller: Identity, wallet: Identity) -> (r:
    Result<bool, ErrorCode>)
    requires
        old(global).well_formed(),
    ensures
        final(global).well_formed(),
        final(global).progressed_from(*old(global)),
        caller != old(global).authority ==> r == Err::<bool, ErrorCode>(
            ErrorCode::Unauthorized,
        ) && *final(global) == *old(global),
        caller == old(global).authority ==> r == Ok::<bool, ErrorCode>(
            old(global).exempts(wallet),
        ) && !final(global).exempts(wallet),
        r == Ok::<bool, ErrorCode>(false) ==> *final(global) == *old(global),
        r == Ok::<bool, ErrorCode>(true) ==> final(global).exempted_wallets@
            == old(global).exempted_wallets@.remove(
            old(global).exempted_wallets@.index_of(wallet),
        ),
        forall|other: Identity|
            other != wallet ==> final(global).exempts(other) == old(global).exempts(other),
        *final(global) == (GlobalState {
            exempted_wallets: final(global).exempted_wallets,
            ..*old(global)
        }),
{
    if !caller.same(&global.authority) {
        return Err(ErrorCode::Unauthorized);
    }
    Ok(unexempt_wallet(global, wallet))
}

/// Overwrites the recorded market cap on the admin's behalf. No tier is
/// passed and nothing else changes; a caller other than the admin
/// authority gets `Unauthorized` and nothing changes at all.
pub fn update_market_cap(global: &mut GlobalState, caller: Identity, market_cap: u64) -> (r:
    Result<MarketCapUpdated, ErrorCode>)
    ensures
        caller != old(global).authority ==> r == Err::<MarketCapUpdated, ErrorCode>(
            ErrorCode::Unauthorized,
        ) && *final(global) == *old(global),
        caller == old(global).authority ==> r == Ok::<MarketCapUpdated, ErrorCode>(
            (MarketCapUpdated { authority: caller, market_cap }),
        ) && *final(global) == (GlobalState { current_market_cap: market_cap, ..*old(global) }),
        final(global).progressed_from(*old(global)),
        old(global).well_formed() ==> final(global).well_formed(),
{
    if !caller.same(&global.authority) {
        return Err(ErrorCode::Unauthorized);
    }
    global.current_market_cap = market_cap;
    Ok(MarketCapUpdated { authority: caller, market_cap })
}

/// Overwrites the venue's program identity on the admin's behalf; a caller
/// other than the admin authority gets `Unauthorized` and nothing changes.
pub fn update_raydium_program_id(
    global: &mut GlobalState,
    caller: Identity,
    new_raydium_program_id: Identity,
) -> (r: Result<(), ErrorCode>)
    ensures
        caller != old(global).authority ==> r == Err::<(), ErrorCode>(ErrorCode::Unauthorized)
            && *final(global) == *old(global),
        caller == old(global).authority ==> r == Ok::<(), ErrorCode>(()) && *final(global) == (
        GlobalState { raydium_program_id: new_raydium_program_id, ..*old(global) }),
        final(global).progressed_from(*old(global)),
        old(global).well_formed() ==> final(global).well_formed(),
{
    if !caller.same(&global.authority) {
        return Err(ErrorCode::Unauthorized);
    }
    global.raydium_program_id = new_raydium_program_id;
    Ok(())
}

/// Overwrites the venue's pool on the admin's behalf; a caller other than
/// the admin authority gets `Unauthorized` and nothing changes.
pub fn update_liquidity_pool_address(
    global: &mut GlobalState,
    caller: Identity,
    new_liquidity_pool: Identity,
) -> (r: Result<(), ErrorCode>)
    ensures
        caller != old(global).authority ==> r == Err::<(), ErrorCode>(ErrorCode::Unauthorized)
            && *final(global) == *old(global),
        caller == old(global).authority ==> r == Ok::<(), ErrorCode>(()) && *final(global) == (
        GlobalState { liquidity_pool: new_liquidity_pool, ..*old(global) }),
        final(global).progressed_from(*old(global)),
        old(global).well_formed() ==> final(global).well_formed(),
{
    if !caller.same(&global.authority) {
        return Err(ErrorCode::Unauthorized);
    }
    global.liquidity_pool = new_liquidity_pool;
    Ok(())
}

} // verus!
