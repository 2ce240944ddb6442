//! Accounting and settlement core of an order-book exchange: fee tiers,
//! market and user ledgers, order bookkeeping and event reconciliation.
pub mod address;
pub mod cancel_order;
pub mod close_account;
pub mod close_market;
pub mod conservation;
pub mod consume_events;
pub mod crank;
pub mod create_market;
pub mod error;
pub mod initialize_account;
pub mod instruction;
pub mod metadata;
pub mod new_order;
pub mod pda;
pub mod settle;
pub mod state;
pub mod storage;
pub mod swap;
pub mod sweep_fees;
pub mod token_account;
pub mod update_royalties;
pub mod user_account;
pub mod utils;
pub mod wire;
