//! The six operations of a market. Each one either refuses, and then leaves
//! every record as it was, or succeeds as a whole.

pub mod cancel_market;
pub mod claim_bet;
pub mod finalize_market;
pub mod initialize_market;
pub mod initialize_pools;
pub mod place_bet;

pub use cancel_market::cancel_market;
pub use claim_bet::{claim_bet, resolve_price, settle, Settlement};
pub use finalize_market::{finalize_market, Reclamation};
pub use initialize_market::initialize_market;
pub use initialize_pools::{initialize_pools, Opening};
pub use place_bet::{place_bet, Placement};
