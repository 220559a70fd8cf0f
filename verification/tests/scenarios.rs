use hotwing_contract::book::{register_users, Credit, UserBook};
use hotwing_contract::consts::MAX_HOLD_AMOUNT;
use hotwing_contract::errors::ErrorCode;
use hotwing_contract::identity::Identity;
use hotwing_contract::milestones::Progress;
use hotwing_contract::process::{process_milestones, UnlockRequest};
use hotwing_contract::program::{add_exempt_wallet, initialize_program};
use hotwing_contract::router::{on_transfer, Routing};
use hotwing_contract::structs::{AccountSnapshot, GlobalState, Milestone, UserEntry};
use solana_program::program_option::COption;
use solana_program::program_pack::Pack;
use solana_program::pubkey::Pubkey;

fn id(n: u8) -> Identity {
    Identity { bytes: [n; 32] }
}

fn wallet(key: Identity) -> AccountSnapshot {
    AccountSnapshot {
        key,
        owner: Identity { bytes: [0; 32] },
        lamports: 1_000_000_000,
        is_writable: true,
        is_signer: false,
        data: Vec::new(),
    }
}

fn ledger() -> GlobalState {
    initialize_program(id(1), id(2), &wallet(id(3)), &wallet(id(4)), &wallet(id(5)), id(6), 1_000)
        .unwrap()
}

fn token_account(owner: Identity, amount: u64) -> Vec<u8> {
    let account = spl_token::state::Account {
        mint: Pubkey::new_from_array([2; 32]),
        owner: Pubkey::new_from_array(owner.bytes),
        amount,
        delegate: COption::None,
        state: spl_token::state::AccountState::Initialized,
        is_native: COption::None,
        delegated_amount: 0,
        close_authority: COption::None,
    };
    let mut bytes = vec![0u8; 165];
    spl_token::state::Account::pack(account, &mut bytes).unwrap();
    bytes
}

fn registered(global: &mut GlobalState, who: Identity, locked: u64) -> UserBook {
    let mut book = UserBook::new();
    let entries = vec![UserEntry { wallet: who, locked_tokens: locked }];
    register_users(global, &mut book, &entries, &Vec::new()).unwrap();
    book
}

#[test]
fn first_tier_releases_ten_percent_less_tax() {
    let mut global = ledger();
    let mut book = registered(&mut global, id(9), 1_000_000);
    let batch = vec![UnlockRequest { wallet: id(9), ata_data: token_account(id(9), 0) }];
    let out = process_milestones(&mut global, &mut book, 45_000, 2_000, &batch).unwrap();
    assert_eq!(
        out.progress,
        Progress::Entered { tier_index: 0, tier: Milestone { market_cap: 45_000, unlock_percent: 10 } }
    );
    assert_eq!(out.payouts.len(), 1);
    let event = out.payouts[0].event;
    assert_eq!(event.tax, 1_500);
    assert_eq!(event.burn_tax, 750);
    assert_eq!(event.marketing_tax, 750);
    assert_eq!(event.unlocked_tokens, 98_500);
    assert_eq!(event.wallet, id(9));
    assert_eq!(event.milestone_index, 1);
    assert_eq!(out.payouts[0].destination, book.accounts[0].ata);
    assert_eq!(book.accounts[0].unlocked_tokens, 100_000);
    assert_eq!(book.accounts[0].total_locked_tokens, 900_000);
    assert_eq!(book.accounts[0].last_unlocked_milestone, 1);
    assert_eq!(global.current_milestone, 1);
    assert_eq!(global.current_market_cap, 45_000);
    assert!(!global.unlock_complete);
}

#[test]
fn second_tier_releases_only_the_difference() {
    let mut global = ledger();
    let mut book = registered(&mut global, id(9), 1_000_000);
    let batch = vec![UnlockRequest { wallet: id(9), ata_data: token_account(id(9), 0) }];
    process_milestones(&mut global, &mut book, 45_000, 2_000, &batch).unwrap();
    let batch = vec![UnlockRequest { wallet: id(9), ata_data: token_account(id(9), 98_500) }];
    let out = process_milestones(&mut global, &mut book, 105_500, 3_000, &batch).unwrap();
    assert_eq!(
        out.progress,
        Progress::Entered {
            tier_index: 1,
            tier: Milestone { market_cap: 105_500, unlock_percent: 20 }
        }
    );
    let event = out.payouts[0].event;
    assert_eq!(event.tax, 1_500);
    assert_eq!(event.burn_tax, 750);
    assert_eq!(event.marketing_tax, 750);
    assert_eq!(event.unlocked_tokens, 98_500);
    assert_eq!(book.accounts[0].unlocked_tokens, 200_000);
    assert_eq!(book.accounts[0].total_locked_tokens, 800_000);
    assert_eq!(global.current_milestone, 2);
}

#[test]
fn holder_near_the_cap_is_clamped_unless_exempt() {
    let mut global = ledger();
    let mut book = registered(&mut global, id(9), 1_000_000);
    let near = token_account(id(9), MAX_HOLD_AMOUNT - 50);
    let batch = vec![UnlockRequest { wallet: id(9), ata_data: near.clone() }];
    let out = process_milestones(&mut global, &mut book, 45_000, 2_000, &batch).unwrap();
    assert_eq!(out.payouts.len(), 1);
    assert_eq!(out.payouts[0].event.unlocked_tokens, 50);
    assert_eq!(out.payouts[0].event.tax, 0);
    assert_eq!(book.accounts[0].unlocked_tokens, 50);
    assert_eq!(book.accounts[0].total_locked_tokens, 999_950);

    let mut global = ledger();
    add_exempt_wallet(&mut global, id(1), id(9)).unwrap();
    let mut book = registered(&mut global, id(9), 1_000_000);
    let batch = vec![UnlockRequest { wallet: id(9), ata_data: near }];
    let out = process_milestones(&mut global, &mut book, 45_000, 2_000, &batch).unwrap();
    assert_eq!(out.payouts[0].event.unlocked_tokens, 98_500);
    assert_eq!(out.payouts[0].event.tax, 1_500);
    assert_eq!(book.accounts[0].unlocked_tokens, 100_000);
    assert_eq!(book.accounts[0].total_locked_tokens, 900_000);
}

#[test]
fn cap_below_first_tier_is_recorded_but_fails() {
    let mut global = ledger();
    let mut book = registered(&mut global, id(9), 1_000_000);
    let before = book.clone();
    let batch = vec![UnlockRequest { wallet: id(9), ata_data: token_account(id(9), 0) }];
    let r = process_milestones(&mut global, &mut book, 40_000, 2_000, &batch);
    assert_eq!(r, Err(ErrorCode::MilestoneNotReached));
    assert_eq!(global.current_market_cap, 40_000);
    assert_eq!(global.current_milestone, 0);
    assert!(!global.unlock_complete);
    assert_eq!(book, before);
}

#[test]
fn venue_purchase_is_redirected_and_registered() {
    let mut global = ledger();
    let mut book = UserBook::new();
    let program = id(40);
    let source = AccountSnapshot {
        key: id(20),
        owner: id(6),
        lamports: 1,
        is_writable: true,
        is_signer: false,
        data: token_account(id(21), 7_000),
    };
    let mint = AccountSnapshot {
        key: id(2),
        owner: id(30),
        lamports: 1,
        is_writable: false,
        is_signer: false,
        data: vec![0u8; 82],
    };
    let state = AccountSnapshot {
        key: id(41),
        owner: program,
        lamports: 1,
        is_writable: true,
        is_signer: false,
        data: vec![0u8; 10],
    };
    let accounts = vec![source, mint, state, wallet(id(5))];
    let r = on_transfer(program, &accounts, 5_000, &mut global, &mut book).unwrap();
    assert_eq!(
        r,
        Routing::Redirected {
            source: id(20),
            mint: id(2),
            treasury: id(5),
            amount: 5_000,
            decimals: 9,
            credit: Credit::Created,
        }
    );
    assert_eq!(global.user_count, 1);
    assert_eq!(book.accounts.len(), 1);
    assert_eq!(book.accounts[0].wallet, id(20));
    assert_eq!(book.accounts[0].total_locked_tokens, 5_000);
    assert_eq!(book.accounts[0].unlocked_tokens, 0);
    assert_eq!(book.accounts[0].last_unlocked_milestone, 0);

    let r = on_transfer(program, &accounts, 1_000, &mut global, &mut book).unwrap();
    assert_eq!(
        r,
        Routing::Redirected {
            source: id(20),
            mint: id(2),
            treasury: id(5),
            amount: 1_000,
            decimals: 9,
            credit: Credit::Updated,
        }
    );
    assert_eq!(global.user_count, 1);
    assert_eq!(book.accounts[0].total_locked_tokens, 6_000);
}

#[test]
fn ordinary_movement_passes_through() {
    let mut global = ledger();
    let mut book = UserBook::new();
    let program = id(40);
    let source = AccountSnapshot {
        key: id(20),
        owner: id(77),
        lamports: 1,
        is_writable: true,
        is_signer: false,
        data: token_account(id(21), 7_000),
    };
    let mint = AccountSnapshot {
        key: id(2),
        owner: id(30),
        lamports: 1,
        is_writable: false,
        is_signer: false,
        data: vec![0u8; 82],
    };
    let state = AccountSnapshot {
        key: id(41),
        owner: program,
        lamports: 1,
        is_writable: true,
        is_signer: false,
        data: Vec::new(),
    };
    let accounts = vec![source, mint, state, wallet(id(5))];
    let before = global.clone();
    let r = on_transfer(program, &accounts, 5_000, &mut global, &mut book);
    assert_eq!(r, Ok(Routing::PassThrough));
    assert_eq!(global, before);
    assert_eq!(book.accounts.len(), 0);
}

#[test]
fn registering_a_listed_wallet_fails_and_registers_nothing() {
    let mut global = ledger();
    let mut book = UserBook::new();
    let entries = vec![
        UserEntry { wallet: id(9), locked_tokens: 10 },
        UserEntry { wallet: id(10), locked_tokens: 20 },
    ];
    let listed = vec![id(50), id(10)];
    let before = global.clone();
    let r = register_users(&mut global, &mut book, &entries, &listed);
    assert_eq!(r, Err(ErrorCode::UserAlreadyRegistered));
    assert_eq!(global, before);
    assert_eq!(book.accounts.len(), 0);
}

#[test]
fn repeated_request_sees_what_the_batch_already_paid() {
    let mut global = ledger();
    let mut book = registered(&mut global, id(9), 1_000_000);
    let near = token_account(id(9), MAX_HOLD_AMOUNT - 10_000);
    let batch = vec![
        UnlockRequest { wallet: id(9), ata_data: near.clone() },
        UnlockRequest { wallet: id(9), ata_data: near.clone() },
        UnlockRequest { wallet: id(9), ata_data: near },
    ];
    let out = process_milestones(&mut global, &mut book, 45_000, 2_000, &batch).unwrap();
    assert_eq!(out.payouts.len(), 3);
    assert_eq!(out.payouts[0].event.unlocked_tokens, 9_850);
    assert_eq!(out.payouts[0].event.tax, 150);
    assert_eq!(out.payouts[1].event.unlocked_tokens, 148);
    assert_eq!(out.payouts[1].event.tax, 2);
    assert_eq!(out.payouts[2].event.unlocked_tokens, 2);
    assert_eq!(out.payouts[2].event.tax, 0);
    let received: u64 = out.payouts.iter().map(|p| p.event.unlocked_tokens).sum();
    assert_eq!(MAX_HOLD_AMOUNT - 10_000 + received, MAX_HOLD_AMOUNT);
    assert_eq!(book.accounts[0].unlocked_tokens, 10_152);
    assert_eq!(book.accounts[0].total_locked_tokens, 989_848);
}

#[test]
fn full_unlock_settles_everything_for_latecomers() {
    let mut global = ledger();
    let mut book = UserBook::new();
    let entries = vec![
        UserEntry { wallet: id(9), locked_tokens: 1_000_000 },
        UserEntry { wallet: id(10), locked_tokens: 2_000 },
    ];
    register_users(&mut global, &mut book, &entries, &Vec::new()).unwrap();
    let batch = vec![UnlockRequest { wallet: id(9), ata_data: Vec::new() }];
    let out = process_milestones(&mut global, &mut book, 2_500_000, 2_000, &batch).unwrap();
    assert_eq!(
        out.progress,
        Progress::Entered {
            tier_index: 7,
            tier: Milestone { market_cap: 2_500_000, unlock_percent: 100 }
        }
    );
    assert!(global.unlock_complete);
    assert_eq!(global.current_milestone, 8);
    assert_eq!(out.payouts[0].event.unlocked_tokens, 985_000);
    assert_eq!(out.payouts[0].event.milestone_index, 8);
    assert_eq!(book.accounts[0].total_locked_tokens, 0);

    let batch = vec![
        UnlockRequest { wallet: id(10), ata_data: Vec::new() },
        UnlockRequest { wallet: id(9), ata_data: Vec::new() },
    ];
    let out = process_milestones(&mut global, &mut book, 50_000, 3_000, &batch).unwrap();
    assert_eq!(out.progress, Progress::FullUnlock);
    assert_eq!(out.payouts.len(), 1);
    assert_eq!(out.payouts[0].event.wallet, id(10));
    assert_eq!(out.payouts[0].event.unlocked_tokens, 1_970);
    assert_eq!(out.payouts[0].event.burn_tax, 15);
    assert_eq!(out.payouts[0].event.marketing_tax, 15);
    assert_eq!(book.accounts[1].total_locked_tokens, 0);
    assert_eq!(book.accounts[1].unlocked_tokens, 2_000);
    assert_eq!(global.current_market_cap, 50_000);
}
