use vstd::prelude::*;
use crate::error::MarketError;
use crate::instructions::finalize_market::{reclaim, reclamation_outcome, Reclamation};
use crate::state::{Identity, Market, Pools};

verus! {

/// Cancels the market for its creator: both pools pay their seed back and
/// are closed, and so is the market.
///
/// It decides exactly as `finalize_market` does: `InvalidMarketInitialization`
/// while the pools are not open, else `UnauthorizedUser` for anyone but the
/// creator, else `NonZeroPools` when the two balances do not add up to twice
/// the seed, which is the case as soon as a stake has landed.
pub fn cancel_market(market: &Market, pools: &Pools, market_creator: &Identity) -> (outcome:
    Result<Reclamation, MarketError>)
    ensures
        outcome == reclamation_outcome(*market, *pools, *market_creator),
{
    reclaim(market, pools, market_creator)
}

} // verus!
