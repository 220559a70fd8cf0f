//! Milestone-gated vesting ledger for a fungible token: participants lock
//! tokens, and portions are released as a reported market capitalisation
//! crosses a fixed ladder of thresholds. Purchases made at the trading
//! venue are redirected to the treasury and credited as new locks; releases
//! are taxed, and capped for holders that are not exempt.

pub mod book;
pub mod consts;
pub mod errors;
pub mod events;
pub mod exempt;
pub mod identity;
pub mod instructions;
pub mod milestones;
pub mod process;
pub mod program;
pub mod router;
pub mod structs;
pub mod token;
pub mod unlock;

pub use crate::book::{register_user_internal, register_users, UserBook};
pub use crate::errors::ErrorCode;
pub use crate::events::{MarketCapUpdated, MilestoneProcessed, UserRegistered};
pub use crate::identity::Identity;
pub use crate::instructions::{
    auto_sell_in_liquidity_pool, raydium_swap_instruction, register_transfer_hook,
};
pub use crate::process::process_milestones;
pub use crate::program::{
    add_exempt_wallet, initialize_program, remove_exempt_wallet, update_liquidity_pool_address,
    update_market_cap, update_raydium_program_id,
};
pub use crate::router::{on_transfer, RaydiumTransactionHelper};
pub use crate::structs::{
    AccountSnapshot, GlobalState, Milestone, MilestoneUnlockAccount, UserEntry,
};
