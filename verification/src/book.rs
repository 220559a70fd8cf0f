use vstd::prelude::*;
use crate::consts::{MAX_HOLD_AMOUNT, MAX_USERS};
use crate::errors::ErrorCode;
use crate::events::UserRegistered;
use crate::identity::{contains_identity, Identity};
use crate::structs::{GlobalState, MilestoneUnlockAccount, UserEntry};
use crate::token::{ata_of, settlement_account};

verus! {

/// The vesting records, at most one per wallet.
#[derive(Clone, Debug, PartialEq, Eq)]
pub struct UserBook {
    pub accounts: Vec<MilestoneUnlockAccount>,
}

/// One record created by a registration, and whether the participant's
/// settlement account has yet to be created by the host.
#[derive(Clone, Copy, Debug, PartialEq, Eq)]
pub struct Registration {
    pub event: UserRegistered,
    pub create_token_account: bool,
}

/// What crediting a purchase did to the book.
#[derive(Clone, Copy, Debug, PartialEq, Eq, Structural)]
pub enum Credit {
    /// The wallet had a record; its locked amount grew.
    Updated,
    /// A record was created for the wallet.
    Created,
}

/// No wallet has two of the records.
pub open spec fn distinct_wallets(accounts: Seq<MilestoneUnlockAccount>) -> bool {
    forall|i: int, j: int|
        0 <= i < j < accounts.len() ==> accounts[i].wallet != accounts[j].wallet
}

/// Whether one of the records belongs to `wallet`.
pub open spec fn has_wallet(accounts: Seq<MilestoneUnlockAccount>, wallet: Identity) -> bool {
    exists|i: int| 0 <= i < accounts.len() && accounts[i].wallet == wallet
}

/// The place of the record of `wallet` among `accounts`.
pub open spec fn slot_of(accounts: Seq<MilestoneUnlockAccount>, wallet: Identity) -> int {
    choose|i: int| 0 <= i < accounts.len() && accounts[i].wallet == wallet
}

/// Finds the record of `wallet` among `accounts`.
pub fn find_account(accounts: &Vec<MilestoneUnlockAccount>, wallet: &Identity) -> (r: Option<
    usize,
>)
    ensures
        r is Some == has_wallet(accounts@, *wallet),
        r matches Some(at) ==> at < accounts@.len() && accounts@[at as int].wallet == *wallet,
        r matches Some(at) ==> distinct_wallets(accounts@) ==> at == slot_of(
            accounts@,
            *wallet,
        ),
{
    let mut i: usize = 0;
    while i < accounts.len()
        invariant
            i <= accounts@.len(),
            forall|j: int| 0 <= j < i ==> accounts@[j].wallet != *wallet,
        decreases accounts@.len() - i,
    {
        if accounts[i].wallet.same(wallet) {
            return Some(i);
        }
        i += 1;
    }
    None
}

impl UserBook {
    /// No wallet has two records.
    pub open spec fn well_formed(self) -> bool {
        distinct_wallets(self.accounts@)
    }

    /// Whether `wallet` has a record.
    pub open spec fn has(self, wallet: Identity) -> bool {
        has_wallet(self.accounts@, wallet)
    }

    /// A book without records.
    pub fn new() -> (book: UserBook)
        ensures
            book.accounts@.len() == 0,
            book.well_formed(),
    {
        UserBook { accounts: Vec::new() }
    }

    /// Checks that no wallet has two records, for a book that comes from
    /// storage.
    pub fn is_well_formed(&self) -> (r: bool)
        ensures
            r == self.well_formed(),
    {
        let mut k: usize = 0;
        while k < self.accounts.len()
            invariant
                k <= self.accounts@.len(),
                forall|i: int, j: int|
                    0 <= i < j < k ==> self.accounts@[i].wallet != self.accounts@[j].wallet,
            decreases self.accounts@.len() - k,
        {
            let mut i: usize = 0;
            while i < k
                invariant
                    i <= k < self.accounts@.len(),
                    forall|a: int|
                        0 <= a < i ==> self.accounts@[a].wallet != self.accounts@[k as int].wallet,
                decreases k - i,
            {
                if self.accounts[i].wallet.same(&self.accounts[k].wallet) {
                    return false;
                }
                i += 1;
            }
            k += 1;
        }
        true
    }

    /// The place of the record of `wallet`, if it has one.
    pub fn find(&self, wallet: &Identity) -> (r: Option<usize>)
        ensures
            r is Some == self.has(*wallet),
            r matches Some(at) ==> at < self.accounts@.len() && self.accounts@[at as int].wallet
                == *wallet,
            r matches Some(at) ==> self.well_formed() ==> at == slot_of(self.accounts@, *wallet),
    {
        find_account(&self.accounts, wallet)
    }
}

/// The record that registration creates for `entry`, with `ata` as its
/// settlement account: everything locked, nothing released.
pub open spec fn fresh_account(wallet: Identity, locked: u64, ata: Identity)
    -> MilestoneUnlockAccount {
    MilestoneUnlockAccount {
        wallet,
        ata,
        total_locked_tokens: locked,
        unlocked_tokens: 0,
        last_unlocked_milestone: 0,
    }
}

/// `made` and `account` are what registration creates for `entry` under
/// the token `mint`, given the accounts that the caller listed.
pub open spec fn registered_as(
    entry: UserEntry,
    mint: Identity,
    remaining: Seq<Identity>,
    made: Registration,
    account: MilestoneUnlockAccount,
) -> bool {
    &&& made.event.wallet == entry.wallet
    &&& made.event.locked_tokens == entry.locked_tokens
    &&& Some(made.event.ata) == ata_of(entry.wallet, mint)
    &&& made.create_token_account == !remaining.contains(made.event.ata)
    &&& account == fresh_account(entry.wallet, entry.locked_tokens, made.event.ata)
}

/// Why entry `i` of a batch cannot be registered, if it cannot: its wallet
/// is among the accounts that the caller listed, has a record, or stands
/// earlier in the batch; or its amount is zero or above the holding cap;
/// or no settlement account can be derived for it.
pub open spec fn entry_error(
    book: UserBook,
    mint: Identity,
    remaining: Seq<Identity>,
    entries: Seq<UserEntry>,
    i: int,
) -> Option<ErrorCode> {
    let wallet = entries[i].wallet;
    if remaining.contains(wallet) || book.has(wallet) || (exists|j: int|
        0 <= j < i && entries[j].wallet == wallet) {
        Some(ErrorCode::UserAlreadyRegistered)
    } else if entries[i].locked_tokens == 0 || entries[i].locked_tokens > MAX_HOLD_AMOUNT {
        Some(ErrorCode::ArithmeticOverflow)
    } else if ata_of(wallet, mint) is None {
        Some(ErrorCode::TokenAccountCreationFailed)
    } else {
        None
    }
}

/// The error of the first entry from `from` on that cannot be registered.
pub open spec fn first_entry_error(
    book: UserBook,
    mint: Identity,
    remaining: Seq<Identity>,
    entries: Seq<UserEntry>,
    from: int,
) -> Option<ErrorCode>
    decreases entries.len() - from,
{
    if from < 0 || from >= entries.len() {
        None
    } else if entry_error(book, mint, remaining, entries, from) is Some {
        entry_error(book, mint, remaining, entries, from)
    } else {
        first_entry_error(book, mint, remaining, entries, from + 1)
    }
}

/// Why a batch cannot be registered, if it cannot.
pub open spec fn registration_error(
    global: GlobalState,
    book: UserBook,
    remaining: Seq<Identity>,
    entries: Seq<UserEntry>,
) -> Option<ErrorCode> {
    if global.user_count + entries.len() > MAX_USERS {
        Some(ErrorCode::MaxUsersReached)
    } else {
        first_entry_error(book, global.token_mint, remaining, entries, 0)
    }
}

fn wallet_among(entries: &Vec<UserEntry>, upto: usize, wallet: &Identity) -> (r: bool)
    requires
        upto <= entries@.len(),
    ensures
        r == (exists|j: int| 0 <= j < upto && entries@[j].wallet == *wallet),
{
    let mut j: usize = 0;
    while j < upto
        invariant
            j <= upto <= entries@.len(),
            forall|k: int| 0 <= k < j ==> entries@[k].wallet != *wallet,
        decreases upto - j,
    {
        if entries[j].wallet.same(wallet) {
            return true;
        }
        j += 1;
    }
    false
}

/// Registers a batch of wallets with the amounts they lock.
///
/// The batch is taken whole or not at all: if it would exceed the
/// participant limit, or any entry cannot be registered, the error of the
/// first such entry is returned and neither the ledger nor the book
/// changes. Otherwise one record per entry is appended in order, each with
/// the settlement account derived for its wallet, and the participant count
/// grows by the size of the batch.
#[verifier::loop_isolation(false)]
pub fn register_users(
    global: &mut GlobalState,
    book: &mut UserBook,
    entries: &Vec<UserEntry>,
    remaining_accounts: &Vec<Identity>,
) -> (r: Result<Vec<Registration>, ErrorCode>)
    requires
        old(global).well_formed(),
        old(book).well_formed(),
    ensures
        final(global).well_formed(),
        final(book).well_formed(),
        final(global).progressed_from(*old(global)),
        match registration_error(*old(global), *old(book), remaining_accounts@, entries@) {
            Some(e) => {
                &&& r == Err::<Vec<Registration>, ErrorCode>(e)
                &&& *final(global) == *old(global)
                &&& *final(book) == *old(book)
            },
            None => r is Ok,
        },
        r matches Ok(made) ==> {
            &&& *final(global) == (GlobalState {
                user_count: (old(global).user_count + entries@.len()) as u64,
                ..*old(global)
            })
            &&& made@.len() == entries@.len()
            &&& final(book).accounts@.len() == old(book).accounts@.len() + entries@.len()
            &&& forall|i: int|
                0 <= i < old(book).accounts@.len() ==> final(book).accounts@[i]
                    == old(book).accounts@[i]
            &&& forall|i: int|
                0 <= i < entries@.len() ==> registered_as(
                    entries@[i],
                    old(global).token_mint,
                    remaining_accounts@,
                    #[trigger] made@[i],
                    final(book).accounts@[old(book).accounts@.len() + i],
                )
        },
{
    let count: usize = entries.len();
    if global.user_count > MAX_USERS as u64 || count > MAX_USERS - global.user_count as usize {
        return Err(ErrorCode::MaxUsersReached);
    }
    let mut atas: Vec<Identity> = Vec::new();
    let mut i: usize = 0;
    while i < count
        invariant
            i <= count == entries@.len(),
            *global == *old(global),
            *book == *old(book),
            atas@.len() == i,
            forall|k: int|
                0 <= k < i ==> Some(#[trigger] atas@[k]) == ata_of(
                    entries@[k].wallet,
                    global.token_mint,
                ),
            forall|k: int|
                0 <= k < i ==> entry_error(
                    *book,
                    global.token_mint,
                    remaining_accounts@,
                    entries@,
                    k,
                ) is None,
            first_entry_error(*book, global.token_mint, remaining_accounts@, entries@, 0)
                == first_entry_error(
                *book,
                global.token_mint,
                remaining_accounts@,
                entries@,
                i as int,
            ),
        decreases count - i,
    {
        let entry = entries[i];
        if contains_identity(remaining_accounts, &entry.wallet) || book.find(
            &entry.wallet,
        ).is_some() || wallet_among(entries, i, &entry.wallet) {
            return Err(ErrorCode::UserAlreadyRegistered);
        }
        if entry.locked_tokens == 0 || entry.locked_tokens > MAX_HOLD_AMOUNT {
            return Err(ErrorCode::ArithmeticOverflow);
        }
        match settlement_account(&entry.wallet, &global.token_mint) {
            Some(ata) => {
                atas.push(ata);
            },
            None => {
                return Err(ErrorCode::TokenAccountCreationFailed);
            },
        }
        i += 1;
    }
    let ghost before = *book;
    assert(first_entry_error(
        before,
        global.token_mint,
        remaining_accounts@,
        entries@,
        count as int,
    ) is None);
    let mut made: Vec<Registration> = Vec::new();
    let mut n: usize = 0;
    while n < count
        invariant
            n <= count == entries@.len(),
            before.well_formed(),
            atas@.len() == count,
            forall|k: int|
                0 <= k < count ==> entry_error(
                    before,
                    global.token_mint,
                    remaining_accounts@,
                    entries@,
                    k,
                ) is None,
            made@.len() == n,
            book.accounts@.len() == before.accounts@.len() + n,
            forall|k: int|
                0 <= k < before.accounts@.len() ==> book.accounts@[k] == before.accounts@[k],
            forall|k: int|
                0 <= k < n ==> registered_as(
                    entries@[k],
                    global.token_mint,
                    remaining_accounts@,
                    #[trigger] made@[k],
                    book.accounts@[before.accounts@.len() + k],
                ),
            *global == *old(global),
        decreases count - n,
    {
        let entry = entries[n];
        let ata = atas[n];
        let create_token_account = !contains_identity(remaining_accounts, &ata);
        book.accounts.push(
            MilestoneUnlockAccount {
                wallet: entry.wallet,
                ata,
                total_locked_tokens: entry.locked_tokens,
                unlocked_tokens: 0,
                last_unlocked_milestone: 0,
            },
        );
        made.push(
            Registration {
                event: UserRegistered {
                    wallet: entry.wallet,
                    locked_tokens: entry.locked_tokens,
                    ata,
                },
                create_token_account,
            },
        );
        n += 1;
    }
    proof {
        assert forall|a: int, b: int|
            0 <= a < b < book.accounts@.len() implies book.accounts@[a].wallet
                != book.accounts@[b].wallet by {
            let base = before.accounts@.len() as int;
            if b >= base {
                let kb = b - base;
                assert(registered_as(
                    entries@[kb],
                    global.token_mint,
                    remaining_accounts@,
                    made@[kb],
                    book.accounts@[base + kb],
                ));
                assert(entry_error(
                    before,
                    global.token_mint,
                    remaining_accounts@,
                    entries@,
                    kb,
                ) is None);
                if a >= base {
                    let ka = a - base;
                    assert(registered_as(
                        entries@[ka],
                        global.token_mint,
                        remaining_accounts@,
                        made@[ka],
                        book.accounts@[base + ka],
                    ));
                    assert(entries@[ka].wallet != entries@[kb].wallet);
                } else {
                    assert(before.accounts@[a].wallet == book.accounts@[a].wallet);
                    assert(!before.has(entries@[kb].wallet));
                }
            } else {
                assert(before.accounts@[a].wallet == book.accounts@[a].wallet);
                assert(before.accounts@[b].wallet == book.accounts@[b].wallet);
            }
        }
    }
    global.user_count = global.user_count + count as u64;
    Ok(made)
}

/// What crediting `amount` to `wallet` as a new lock does: the participant
/// count and the records afterwards, and whether a record was created.
pub open spec fn credit_spec(
    user_count: u64,
    mint: Identity,
    accounts: Seq<MilestoneUnlockAccount>,
    wallet: Identity,
    amount: u64,
) -> Result<(u64, Seq<MilestoneUnlockAccount>, Credit), ErrorCode> {
    if has_wallet(accounts, wallet) {
        let at = slot_of(accounts, wallet);
        if accounts[at].total_locked_tokens + amount > u64::MAX {
            Err(ErrorCode::ArithmeticOverflow)
        } else {
            Ok(
                (
                    user_count,
                    accounts.update(
                        at,
                        (MilestoneUnlockAccount {
                            total_locked_tokens: (accounts[at].total_locked_tokens + amount) as u64,
                            ..accounts[at]
                        }),
                    ),
                    Credit::Updated,
                ),
            )
        }
    } else if user_count >= MAX_USERS {
        Err(ErrorCode::MaxUsersReached)
    } else {
        match ata_of(wallet, mint) {
            None => Err(ErrorCode::TokenAccountCreationFailed),
            Some(ata) => Ok(
                (
                    (user_count + 1) as u64,
                    accounts.push(fresh_account(wallet, amount, ata)),
                    Credit::Created,
                ),
            ),
        }
    }
}

/// Credits a purchase of `locked_amount` to `user_wallet` as a new lock.
///
/// A wallet with a record has the amount added to what it has locked; an
/// amount that does not fit fails with `ArithmeticOverflow`. A wallet
/// without one gets a record with everything locked and nothing released,
/// and the participant count grows by one; at the participant limit this
/// fails with `MaxUsersReached`, and where no settlement account can be
/// derived with `TokenAccountCreationFailed`. A failure changes nothing.
pub fn register_user_internal(
    global: &mut GlobalState,
    book: &mut UserBook,
    user_wallet: Identity,
    locked_amount: u64,
) -> (r: Result<Credit, ErrorCode>)
    requires
        old(global).well_formed(),
        old(book).well_formed(),
    ensures
        final(global).well_formed(),
        final(book).well_formed(),
        final(global).progressed_from(*old(global)),
        r is Err ==> *final(global) == *old(global) && *final(book) == *old(book),
        match credit_spec(
            old(global).user_count,
            old(global).token_mint,
            old(book).accounts@,
            user_wallet,
            locked_amount,
        ) {
            Err(e) => r == Err::<Credit, ErrorCode>(e),
            Ok(done) => {
                &&& r == Ok::<Credit, ErrorCode>(done.2)
                &&& *final(global) == (GlobalState { user_count: done.0, ..*old(global) })
                &&& final(book).accounts@ == done.1
            },
        },
{
    match book.find(&user_wallet) {
        Some(at) => {
            let account = book.accounts[at];
            let locked: u64 = match account.total_locked_tokens.checked_add(locked_amount) {
                Some(v) => v,
                None => {
                    return Err(ErrorCode::ArithmeticOverflow);
                },
            };
            book.accounts.set(
                at,
                MilestoneUnlockAccount {
                    wallet: account.wallet,
                    ata: account.ata,
                    total_locked_tokens: locked,
                    unlocked_tokens: account.unlocked_tokens,
                    last_unlocked_milestone: account.last_unlocked_milestone,
                },
            );
            Ok(Credit::Updated)
        },
        None => {
            if global.user_count >= MAX_USERS as u64 {
                return Err(ErrorCode::MaxUsersReached);
            }
            let ata = match settlement_account(&user_wallet, &global.token_mint) {
                Some(v) => v,
                None => {
                    return Err(ErrorCode::TokenAccountCreationFailed);
                },
            };
            book.accounts.push(
                MilestoneUnlockAccount {
                    wallet: user_wallet,
                    ata,
                    total_locked_tokens: locked_amount,
                    unlocked_tokens: 0,
                    last_unlocked_milestone: 0,
                },
            );
            global.user_count = global.user_count + 1;
            Ok(Credit::Created)
        },
    }
}

} // verus!
