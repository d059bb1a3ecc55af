use vstd::prelude::*;
use crate::constants::INITIAL_USDC_POOL_AMOUNT;
use crate::error::MarketError;
use crate::ledger::{Closure, Record, Transfer};
use crate::state::{Direction, Identity, Market, MarketInitialization, Pools};

verus! {

/// The winding up of a market: each pool pays out to the creator, on the
/// market's authority, and then the lower pool, the higher pool and the
/// market record are closed, in this order.
#[derive(Clone, Copy, Debug, PartialEq, Eq)]
pub struct Reclamation {
    pub from_higher: Transfer,
    pub from_lower: Transfer,
    pub closures: [Closure; 3],
}

/// The winding up of a market of `creator`: each pool gives back exactly
/// what it was opened with, and all three records are closed in the
/// creator's favour.
pub open spec fn seed_reclamation(creator: Identity) -> Reclamation {
    Reclamation {
        from_higher: Transfer::withdrawal(Direction::Higher, creator, INITIAL_USDC_POOL_AMOUNT),
        from_lower: Transfer::withdrawal(Direction::Lower, creator, INITIAL_USDC_POOL_AMOUNT),
        closures: [
            Closure { record: Record::Pool(Direction::Lower), destination: creator },
            Closure { record: Record::Pool(Direction::Higher), destination: creator },
            Closure { record: Record::Market, destination: creator },
        ],
    }
}

/// Why `caller` may not wind the market up, if anything stands against it.
/// The pools must be open, the caller must be the creator, and the pools
/// must still hold, together, exactly what they were opened with.
pub open spec fn reclamation_refusal(market: Market, pools: Pools, caller: Identity) -> Option<
    MarketError,
> {
    if market.initialization != MarketInitialization::InitializedPools {
        Some(MarketError::InvalidMarketInitialization)
    } else if caller != market.creator {
        Some(MarketError::UnauthorizedUser)
    } else if pools.total() != 2 * INITIAL_USDC_POOL_AMOUNT {
        Some(MarketError::NonZeroPools)
    } else {
        None
    }
}

/// What winding the market up comes to, for `finalize_market` and
/// `cancel_market` alike.
pub open spec fn reclamation_outcome(market: Market, pools: Pools, caller: Identity) -> Result<
    Reclamation,
    MarketError,
> {
    match reclamation_refusal(market, pools, caller) {
        Some(error) => Err(error),
        None => Ok(seed_reclamation(market.creator)),
    }
}

/// Decides a request to wind the market up.
pub(crate) fn reclaim(market: &Market, pools: &Pools, caller: &Identity) -> (outcome: Result<
    Reclamation,
    MarketError,
>)
    ensures
        outcome == reclamation_outcome(*market, *pools, *caller),
{
    if market.initialization != MarketInitialization::InitializedPools {
        return Err(MarketError::InvalidMarketInitialization);
    }
    if *caller != market.creator {
        return Err(MarketError::UnauthorizedUser);
    }
    let total: u128 = pools.higher as u128 + pools.lower as u128;
    if total != 2 * (INITIAL_USDC_POOL_AMOUNT as u128) {
        return Err(MarketError::NonZeroPools);
    }
    let creator = market.creator;
    let reclamation = Reclamation {
        from_higher: Transfer::out_of_pool(Direction::Higher, &creator, INITIAL_USDC_POOL_AMOUNT),
        from_lower: Transfer::out_of_pool(Direction::Lower, &creator, INITIAL_USDC_POOL_AMOUNT),
        closures: [
            Closure { record: Record::Pool(Direction::Lower), destination: creator },
            Closure { record: Record::Pool(Direction::Higher), destination: creator },
            Closure { record: Record::Market, destination: creator },
        ],
    };
    assert(reclamation.closures =~= seed_reclamation(creator).closures);
    Ok(reclamation)
}

/// Finalizes the market for its creator: both pools pay their seed back and
/// are closed, and so is the market.
///
/// It refuses with `InvalidMarketInitialization` while the pools are not
/// open, else with `UnauthorizedUser` when `market_creator` is not the
/// market's creator, else with `NonZeroPools` when the two balances do not add
/// up to twice the seed. No price is looked at.
pub fn finalize_market(market: &Market, pools: &Pools, market_creator: &Identity) -> (outcome:
    Result<Reclamation, MarketError>)
    ensures
        outcome == reclamation_outcome(*market, *pools, *market_creator),
{
    reclaim(market, pools, market_creator)
}

} // verus!
