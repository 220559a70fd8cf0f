use vstd::prelude::*;
use crate::book::{credit_spec, register_user_internal, Credit, UserBook};
use crate::errors::ErrorCode;
use crate::identity::Identity;
use crate::structs::{AccountSnapshot, GlobalState};
use crate::token::{balance_spec, get_token_balance, MINT_LEN, TOKEN_ACCOUNT_LEN};

verus! {

/// Decimal places of the tracked token, as a checked transfer states them.
pub const TOKEN_DECIMALS: u8 = 9;

/// Classifies the source of a movement.
pub struct RaydiumTransactionHelper;

impl RaydiumTransactionHelper {
    /// A movement is venue-sourced exactly when the owner of its source is
    /// the configured venue program.
    pub fn is_raydium_transaction(source_account: &AccountSnapshot, raydium_program_id: Identity)
        -> (r: bool)
        ensures
            r == (source_account.owner == raydium_program_id),
    {
        source_account.owner.same(&raydium_program_id)
    }
}

/// What the router decided about a movement.
#[derive(Clone, Copy, Debug, PartialEq, Eq)]
pub enum Routing {
    /// An ordinary movement: it proceeds as it was named.
    PassThrough,
    /// A purchase at the venue: the whole amount goes from `source` to
    /// `treasury` instead, by a checked transfer of `mint` with `decimals`
    /// places, and the buyer has been credited with it as a new lock.
    Redirected {
        source: Identity,
        mint: Identity,
        treasury: Identity,
        amount: u64,
        decimals: u8,
        credit: Credit,
    },
}

/// The place of the first account whose stored data has `len` bytes.
#[verifier::opaque]
pub open spec fn first_with_len(accounts: Seq<AccountSnapshot>, len: usize) -> Option<int> {
    if exists|i: int| 0 <= i < accounts.len() && accounts[i].data@.len() == len {
        Some(
            choose|i: int|
                0 <= i < accounts.len() && accounts[i].data@.len() == len && forall|j: int|
                    0 <= j < i ==> accounts[j].data@.len() != len,
        )
    } else {
        None
    }
}

/// The place of the first account that `owner` owns.
#[verifier::opaque]
pub open spec fn first_owned_by(accounts: Seq<AccountSnapshot>, owner: Identity) -> Option<int> {
    if exists|i: int| 0 <= i < accounts.len() && accounts[i].owner == owner {
        Some(
            choose|i: int|
                0 <= i < accounts.len() && accounts[i].owner == owner && forall|j: int|
                    0 <= j < i ==> accounts[j].owner != owner,
        )
    } else {
        None
    }
}

/// The place of the first account at address `key`.
#[verifier::opaque]
pub open spec fn first_with_key(accounts: Seq<AccountSnapshot>, key: Identity) -> Option<int> {
    if exists|i: int| 0 <= i < accounts.len() && accounts[i].key == key {
        Some(
            choose|i: int|
                0 <= i < accounts.len() && accounts[i].key == key && forall|j: int|
                    0 <= j < i ==> accounts[j].key != key,
        )
    } else {
        None
    }
}

/// Finds the first account whose stored data has `len` bytes.
#[verifier::loop_isolation(false)]
pub fn find_by_len(accounts: &Vec<AccountSnapshot>, len: usize) -> (r: Option<usize>)
    ensures
        r is Some == first_with_len(accounts@, len) is Some,
        r matches Some(at) ==> at < accounts@.len() && first_with_len(accounts@, len) == Some(
            at as int,
        ) && accounts@[at as int].data@.len() == len,
{
    proof {
        reveal(first_with_len);
    }
    let mut i: usize = 0;
    while i < accounts.len()
        invariant
            i <= accounts@.len(),
            forall|j: int| 0 <= j < i ==> accounts@[j].data@.len() != len,
        decreases accounts@.len() - i,
    {
        if accounts[i].data.len() == len {
            return Some(i);
        }
        i += 1;
    }
    None
}

/// Finds the first account that `owner` owns.
#[verifier::loop_isolation(false)]
pub fn find_by_owner(accounts: &Vec<AccountSnapshot>, owner: &Identity) -> (r: Option<usize>)
    ensures
        r is Some == first_owned_by(accounts@, *owner) is Some,
        r matches Some(at) ==> at < accounts@.len() && first_owned_by(accounts@, *owner)
            == Some(at as int) && accounts@[at as int].owner == *owner,
{
    proof {
        reveal(first_owned_by);
    }
    let mut i: usize = 0;
    while i < accounts.len()
        invariant
            i <= accounts@.len(),
            forall|j: int| 0 <= j < i ==> accounts@[j].owner != *owner,
        decreases accounts@.len() - i,
    {
        if accounts[i].owner.same(owner) {
            return Some(i);
        }
        i += 1;
    }
    None
}

/// Finds the first account at address `key`.
#[verifier::loop_isolation(false)]
pub fn find_by_key(accounts: &Vec<AccountSnapshot>, key: &Identity) -> (r: Option<usize>)
    ensures
        r is Some == first_with_key(accounts@, *key) is Some,
        r matches Some(at) ==> at < accounts@.len() && first_with_key(accounts@, *key) == Some(
            at as int,
        ) && accounts@[at as int].key == *key,
{
    proof {
        reveal(first_with_key);
    }
    let mut i: usize = 0;
    while i < accounts.len()
        invariant
            i <= accounts@.len(),
            forall|j: int| 0 <= j < i ==> accounts@[j].key != *key,
        decreases accounts@.len() - i,
    {
        if accounts[i].key.same(key) {
            return Some(i);
        }
        i += 1;
    }
    None
}

/// Why a movement is rejected, if it is: the call lacks a token account to
/// be the source, a mint, an account of this program, or the treasury; or
/// the source cannot be read; or it holds less than is to move.
pub open spec fn route_error(
    program_id: Identity,
    accounts: Seq<AccountSnapshot>,
    amount: u64,
    global: GlobalState,
) -> Option<ErrorCode> {
    if first_with_len(accounts, TOKEN_ACCOUNT_LEN) is None || first_with_len(accounts, MINT_LEN)
        is None || first_owned_by(accounts, program_id) is None || first_with_key(
        accounts,
        global.project_wallet,
    ) is None {
        Some(ErrorCode::AccountNotFound)
    } else {
        match balance_spec(accounts[first_with_len(accounts, TOKEN_ACCOUNT_LEN).unwrap()].data@) {
            Err(e) => Some(e),
            Ok(balance) => if balance < amount {
                Some(ErrorCode::TokenTransferFailed)
            } else {
                None
            },
        }
    }
}

/// Routes one movement of `amount` of the tracked token.
///
/// The source is the first token account among `accounts`, the mint the
/// first mint. A movement whose accounts cannot all be resolved is
/// rejected with `AccountNotFound`, and one that the source cannot cover
/// with `TokenTransferFailed`. A movement whose source the venue program
/// owns is redirected whole to the treasury, and the amount is credited to
/// the source's address as a new lock, in a record that is created if
/// there is none. Any other movement passes through. A rejected or passed
/// movement changes nothing, and so does a redirection whose credit fails.
pub fn on_transfer(
    program_id: Identity,
    accounts: &Vec<AccountSnapshot>,
    amount: u64,
    global: &mut GlobalState,
    book: &mut UserBook,
) -> (r: Result<Routing, ErrorCode>)
    requires
        old(global).well_formed(),
        old(book).well_formed(),
    ensures
        final(global).well_formed(),
        final(book).well_formed(),
        final(global).progressed_from(*old(global)),
        r is Err || r == Ok::<Routing, ErrorCode>(Routing::PassThrough) ==> *final(global)
            == *old(global) && *final(book) == *old(book),
        match route_error(program_id, accounts@, amount, *old(global)) {
            Some(e) => r == Err::<Routing, ErrorCode>(e),
            None => {
                let source = accounts@[first_with_len(accounts@, TOKEN_ACCOUNT_LEN).unwrap()];
                let mint = accounts@[first_with_len(accounts@, MINT_LEN).unwrap()];
                if source.owner != old(global).raydium_program_id {
                    r == Ok::<Routing, ErrorCode>(Routing::PassThrough)
                } else {
                    match credit_spec(
                        old(global).user_count,
                        old(global).token_mint,
                        old(book).accounts@,
                        source.key,
                        amount,
                    ) {
                        Err(e) => r == Err::<Routing, ErrorCode>(e),
                        Ok(done) => {
                            &&& r == Ok::<Routing, ErrorCode>(
                                Routing::Redirected {
                                    source: source.key,
                                    mint: mint.key,
                                    treasury: old(global).project_wallet,
                                    amount,
                                    decimals: TOKEN_DECIMALS,
                                    credit: done.2,
                                },
                            )
                            &&& *final(global) == (GlobalState {
                                user_count: done.0,
                                ..*old(global)
                            })
                            &&& final(book).accounts@ == done.1
                        },
                    }
                }
            },
        },
{
    let source_at: usize = match find_by_len(accounts, TOKEN_ACCOUNT_LEN) {
        Some(at) => at,
        None => {
            return Err(ErrorCode::AccountNotFound);
        },
    };
    let mint_at: usize = match find_by_len(accounts, MINT_LEN) {
        Some(at) => at,
        None => {
            return Err(ErrorCode::AccountNotFound);
        },
    };
    if find_by_owner(accounts, &program_id).is_none() {
        return Err(ErrorCode::AccountNotFound);
    }
    let treasury_at: usize = match find_by_key(accounts, &global.project_wallet) {
        Some(at) => at,
        None => {
            return Err(ErrorCode::AccountNotFound);
        },
    };
    let source = &accounts[source_at];
    let source_balance: u64 = match get_token_balance(&source.data) {
        Ok(v) => v,
        Err(e) => {
            return Err(e);
        },
    };
    if source_balance < amount {
        return Err(ErrorCode::TokenTransferFailed);
    }
    if !RaydiumTransactionHelper::is_raydium_transaction(source, global.raydium_program_id) {
        return Ok(Routing::PassThrough);
    }
    let credit = match register_user_internal(global, book, source.key, amount) {
        Ok(c) => c,
        Err(e) => {
            return Err(e);
        },
    };
    Ok(
        Routing::Redirected {
            source: source.key,
            mint: accounts[mint_at].key,
            treasury: accounts[treasury_at].key,
            amount,
            decimals: TOKEN_DECIMALS,
            credit,
        },
    )
}

} // verus!
