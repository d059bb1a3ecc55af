//! A pari-mutuel prediction market: two escrow pools, tickets priced when
//! they are placed, and settlement against one oracle observation.
//!
//! The crate holds the rules only. Every operation is a function from the
//! records it touches to their next state, and says which transfers the
//! ledger has to carry out; moving balances is the caller's business.

pub mod constants;
pub mod error;
pub mod instructions;
pub mod laws;
pub mod ledger;
pub mod odds;
pub mod oracle;
pub mod seeds;
pub mod state;

pub use constants::{
    BET_SEED, FEED_ID_LENGTH, HIGHER_POOL_SEED, INITIAL_USDC_POOL_AMOUNT, LOWER_POOL_SEED,
    MARKET_LOCK_PERIOD, MAXIMUM_PRICE_AGE, MINIMUM_MARKET_DURATION, ODDS_FIXED_POINT_MULTIPLIER,
    USDC_MINT,
};
pub use error::{ClaimError, MarketError, OracleError};
pub use instructions::{
    cancel_market, claim_bet, finalize_market, initialize_market, initialize_pools, place_bet,
    resolve_price, settle, Opening, Placement, Reclamation, Settlement,
};
pub use ledger::{Account, Authority, Closure, Record, Transfer};
pub use odds::{compute_odds, compute_payout};
pub use oracle::{adjust_price, decode_feed_id, observe_price, Price, PriceUpdate, VerificationLevel};
pub use state::{Bet, Direction, Identity, Market, MarketInitialization, Pools};
pub use seeds::{bet_seeds, hash_to_bytes, market_seeds, market_seeds_with_digest, pool_seeds};
