use hotwing_contract::identity::Identity;
use hotwing_contract::program::initialize_program;
use hotwing_contract::structs::{AccountSnapshot, Milestone};

fn funded(key: Identity) -> AccountSnapshot {
    AccountSnapshot {
        key,
        owner: Identity { bytes: solana_program::system_program::ID.to_bytes() },
        lamports: 1_000_000_000,
        is_writable: true,
        is_signer: false,
        data: Vec::new(),
    }
}

#[test]
fn test_initialize_program() {
    let authority = Identity { bytes: [11; 32] };
    let burn_wallet = Identity { bytes: [12; 32] };
    let marketing_wallet = Identity { bytes: [13; 32] };
    let project_wallet = Identity { bytes: [14; 32] };
    let token_mint = Identity { bytes: [15; 32] };
    let raydium_program_id = Identity { bytes: [0; 32] };

    let global_state_data = initialize_program(
        authority,
        token_mint,
        &funded(burn_wallet),
        &funded(marketing_wallet),
        &funded(project_wallet),
        raydium_program_id,
        10_000_000,
    )
    .unwrap();

    assert_eq!(global_state_data.authority, authority);
    assert_eq!(global_state_data.token_mint, token_mint);
    assert_eq!(global_state_data.burn_wallet, burn_wallet);
    assert_eq!(global_state_data.marketing_wallet, marketing_wallet);
    assert_eq!(global_state_data.project_wallet, project_wallet);
    assert_eq!(global_state_data.raydium_program_id, raydium_program_id);
    println!("Test passed: initialize_program successfully set up the global state!");
}

#[test]
fn initial_ledger_has_the_fixed_table_and_deadline() {
    let global = initialize_program(
        Identity { bytes: [1; 32] },
        Identity { bytes: [2; 32] },
        &funded(Identity { bytes: [3; 32] }),
        &funded(Identity { bytes: [4; 32] }),
        &funded(Identity { bytes: [5; 32] }),
        Identity { bytes: [6; 32] },
        1_000,
    )
    .unwrap();
    let expected = [
        (45_000u64, 10u8),
        (105_500, 20),
        (225_000, 30),
        (395_000, 40),
        (650_000, 50),
        (997_000, 60),
        (1_574_000, 70),
        (2_500_000, 100),
    ];
    for (i, (cap, percent)) in expected.iter().enumerate() {
        assert_eq!(
            global.milestones[i],
            Milestone { market_cap: *cap, unlock_percent: *percent }
        );
    }
    assert_eq!(global.current_market_cap, 0);
    assert_eq!(global.current_milestone, 0);
    assert_eq!(global.user_count, 0);
    assert_eq!(global.three_month_unlock_date, 1_000 + 7_776_000);
    assert!(global.exempted_wallets.is_empty());
    assert!(!global.unlock_complete);
    assert_eq!(global.liquidity_pool, Identity { bytes: [0; 32] });
}
