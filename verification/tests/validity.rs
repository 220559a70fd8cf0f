use hotwing_contract::book::{find_account, UserBook};
use hotwing_contract::exempt::{exempt_wallet, unexempt_wallet};
use hotwing_contract::identity::{contains_identity, position_of, Identity};
use hotwing_contract::process::{settle_requests, UnlockRequest};
use hotwing_contract::router::{find_by_key, find_by_len, find_by_owner};
use hotwing_contract::structs::{
    all_distinct, default_milestones, table_is_ordered, AccountSnapshot, GlobalState, Milestone,
    MilestoneUnlockAccount,
};

fn id(n: u8) -> Identity {
    Identity { bytes: [n; 32] }
}

fn ledger() -> GlobalState {
    GlobalState {
        authority: id(1),
        token_mint: id(2),
        burn_wallet: id(3),
        marketing_wallet: id(4),
        project_wallet: id(5),
        milestones: default_milestones(),
        current_market_cap: 0,
        current_milestone: 0,
        user_count: 0,
        three_month_unlock_date: 1_000_000,
        exempted_wallets: Vec::new(),
        unlock_complete: false,
        raydium_program_id: id(6),
        liquidity_pool: id(0),
    }
}

fn record(wallet: Identity, locked: u64) -> MilestoneUnlockAccount {
    MilestoneUnlockAccount {
        wallet,
        ata: wallet,
        total_locked_tokens: locked,
        unlocked_tokens: 0,
        last_unlocked_milestone: 0,
    }
}

#[test]
fn identities_compare_byte_by_byte() {
    let a = id(7);
    let mut b = id(7);
    assert!(a.same(&b));
    b.bytes[31] = 8;
    assert!(!a.same(&b));
    assert!(Identity::zero().is_unset());
    assert!(!b.is_unset());
    assert_eq!(Identity::zero(), id(0));
    let list = vec![id(1), id(2), id(3), id(2)];
    assert_eq!(position_of(&list, &id(2)), Some(1));
    assert_eq!(position_of(&list, &id(4)), None);
    assert!(contains_identity(&list, &id(3)));
    assert!(!contains_identity(&list, &b));
    assert!(!all_distinct(&list));
    assert!(all_distinct(&vec![id(1), id(2), id(3)]));
    assert!(all_distinct(&Vec::new()));
}

#[test]
fn ledger_invariant_is_checked_field_by_field() {
    assert!(ledger().is_well_formed());
    assert!(table_is_ordered(&default_milestones()));

    let mut g = ledger();
    g.current_milestone = 8;
    assert!(g.is_well_formed());
    g.current_milestone = 9;
    assert!(!g.is_well_formed());

    let mut g = ledger();
    g.user_count = 1000;
    assert!(g.is_well_formed());
    g.user_count = 1001;
    assert!(!g.is_well_formed());

    let mut g = ledger();
    g.exempted_wallets = vec![id(1), id(1)];
    assert!(!g.is_well_formed());
    g.exempted_wallets = (0..21u8).map(id).collect();
    assert!(!g.is_well_formed());
    g.exempted_wallets = (0..20u8).map(id).collect();
    assert!(g.is_well_formed());

    let mut g = ledger();
    g.milestones[7] = Milestone { market_cap: 2_500_000, unlock_percent: 99 };
    assert!(!g.is_well_formed());
    let mut g = ledger();
    g.milestones[3] = Milestone { market_cap: 225_000, unlock_percent: 40 };
    assert!(!g.is_well_formed());
    let mut g = ledger();
    g.milestones[3] = Milestone { market_cap: 395_000, unlock_percent: 30 };
    assert!(!g.is_well_formed());
}

#[test]
fn book_keeps_one_record_per_wallet() {
    let mut book = UserBook::new();
    assert!(book.is_well_formed());
    book.accounts.push(record(id(1), 5));
    book.accounts.push(record(id(2), 6));
    assert!(book.is_well_formed());
    assert_eq!(book.find(&id(2)), Some(1));
    assert_eq!(find_account(&book.accounts, &id(1)), Some(0));
    assert_eq!(find_account(&book.accounts, &id(3)), None);
    book.accounts.push(record(id(1), 7));
    assert!(!book.is_well_formed());
}

#[test]
fn registry_keeps_order_and_has_no_duplicates() {
    let mut g = ledger();
    assert_eq!(exempt_wallet(&mut g, id(9)), Ok(()));
    assert_eq!(exempt_wallet(&mut g, id(8)), Ok(()));
    assert_eq!(exempt_wallet(&mut g, id(9)), Ok(()));
    assert_eq!(g.exempted_wallets, vec![id(9), id(8)]);
    assert!(!unexempt_wallet(&mut g, id(7)));
    assert!(unexempt_wallet(&mut g, id(9)));
    assert_eq!(g.exempted_wallets, vec![id(8)]);
    assert!(g.is_well_formed());
}

fn account(key: Identity, owner: Identity, len: usize) -> AccountSnapshot {
    AccountSnapshot {
        key,
        owner,
        lamports: 1,
        is_writable: false,
        is_signer: false,
        data: vec![0u8; len],
    }
}

#[test]
fn scans_return_the_first_match() {
    let accounts = vec![
        account(id(1), id(10), 82),
        account(id(2), id(11), 165),
        account(id(3), id(10), 165),
        account(id(2), id(12), 0),
    ];
    assert_eq!(find_by_len(&accounts, 165), Some(1));
    assert_eq!(find_by_len(&accounts, 82), Some(0));
    assert_eq!(find_by_len(&accounts, 1), None);
    assert_eq!(find_by_owner(&accounts, &id(10)), Some(0));
    assert_eq!(find_by_owner(&accounts, &id(12)), Some(3));
    assert_eq!(find_by_owner(&accounts, &id(13)), None);
    assert_eq!(find_by_key(&accounts, &id(2)), Some(1));
    assert_eq!(find_by_key(&accounts, &id(4)), None);
    assert_eq!(find_by_len(&Vec::new(), 0), None);
}

#[test]
fn requests_are_settled_on_a_copy() {
    let mut g = ledger();
    g.unlock_complete = true;
    g.current_milestone = 8;
    let accounts = vec![record(id(1), 1_000), record(id(2), 0)];
    let batch = vec![
        UnlockRequest { wallet: id(2), ata_data: Vec::new() },
        UnlockRequest { wallet: id(1), ata_data: Vec::new() },
    ];
    let tier = Milestone { market_cap: 2_500_000, unlock_percent: 100 };
    let (after, payouts) = settle_requests(&g, &accounts, tier, &batch).unwrap();
    assert_eq!(accounts[0].total_locked_tokens, 1_000);
    assert_eq!(after[0].total_locked_tokens, 0);
    assert_eq!(after[0].unlocked_tokens, 1_000);
    assert_eq!(after[0].last_unlocked_milestone, 8);
    assert_eq!(after[1], accounts[1]);
    assert_eq!(payouts.len(), 1);
    assert_eq!(payouts[0].destination, id(1));
    assert_eq!(payouts[0].event.unlocked_tokens, 985);
    assert_eq!(payouts[0].event.tax, 15);
    assert_eq!(payouts[0].event.burn_tax, 7);
    assert_eq!(payouts[0].event.marketing_tax, 8);
    let (same, none) = settle_requests(&g, &accounts, tier, &Vec::new()).unwrap();
    assert_eq!(same, accounts);
    assert!(none.is_empty());
}
