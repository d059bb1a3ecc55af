use vstd::prelude::*;

verus! {

/// First seed of the lower pool's address.
pub const LOWER_POOL_SEED: &'static str = "lower_pool";

/// First seed of the higher pool's address.
pub const HIGHER_POOL_SEED: &'static str = "higher_pool";

/// First seed of a ticket's address.
pub const BET_SEED: &'static str = "prediction_bet";

/// Slots a market is meant to stay locked after its betting window; a little
/// more than two days. Declared, and enforced by no operation.
pub const MARKET_LOCK_PERIOD: u64 = 576000;

/// The mint the pools were first meant to be restricted to.
pub const USDC_MINT: &'static str = "4zMMC9srt5Ri5X14GAgXhaHii3GnPAEERYPJgZJDncDU";

/// What the creator puts into each pool when the pools are opened.
pub const INITIAL_USDC_POOL_AMOUNT: u64 = 1000000;

/// Fixed-point scale of the odds: this value stands for 1.0.
pub const ODDS_FIXED_POINT_MULTIPLIER: u64 = 1_000_000;

/// Length in bytes of a feed identifier: "0x" and 64 hexadecimal digits.
pub const FEED_ID_LENGTH: usize = 66;

/// Shortest betting window, in slots; about an hour.
pub const MINIMUM_MARKET_DURATION: u64 = 1200;

/// Oldest observation, in seconds, that a claim accepts from the oracle.
pub const MAXIMUM_PRICE_AGE: u64 = 30;

} // verus!
