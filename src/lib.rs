//! A proof-gated burn ledger: burn accounts are created with a balance, and a
//! burn lowers that balance only when its zero-knowledge proof was judged valid
//! and the balance covers the amount.

pub mod wallet;
pub mod store;
pub mod entropy;
pub mod engine;
pub mod laws;

pub use wallet::{AccountId, BurnWallet, ErrorCode, ProofCheck, BurnEvent, CreateBurnWallet, BurnFunds};
pub use store::BurnStore;
pub use engine::{create_burn_wallet, burn_funds, apply_burn, burn_step, burn_outcome, MAX_ID_ATTEMPTS, creation_attempt, fresh_draw, burn_queue, serial_balance, serial_outcome};
pub use entropy::assemble_id;
