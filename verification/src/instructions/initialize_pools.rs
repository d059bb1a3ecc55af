use vstd::prelude::*;
use crate::constants::INITIAL_USDC_POOL_AMOUNT;
use crate::error::MarketError;
use crate::ledger::Transfer;
use crate::state::{Direction, Identity, Market, MarketInitialization, Pools};

verus! {

/// The opening of a market's pools: what the pools hold once it is done,
/// and the two payments that fill them.
#[derive(Clone, Copy, Debug, PartialEq, Eq)]
pub struct Opening {
    pub pools: Pools,
    pub into_higher: Transfer,
    pub into_lower: Transfer,
}

/// Both pools as they are opened: each holds the seed.
pub open spec fn seeded_pools() -> Pools {
    Pools { higher: INITIAL_USDC_POOL_AMOUNT, lower: INITIAL_USDC_POOL_AMOUNT }
}

/// The opening of the pools of a market of `creator`: the creator pays the
/// seed into each pool, and signs for both payments.
pub open spec fn opening_by(creator: Identity) -> Opening {
    Opening {
        pools: seeded_pools(),
        into_higher: Transfer::deposit(creator, Direction::Higher, INITIAL_USDC_POOL_AMOUNT),
        into_lower: Transfer::deposit(creator, Direction::Lower, INITIAL_USDC_POOL_AMOUNT),
    }
}

/// Opens the two pools of a market that has none yet.
///
/// The market's creator pays `INITIAL_USDC_POOL_AMOUNT` into each pool. The
/// market takes down the asset and the salts of the two pool addresses and
/// moves on to `InitializedPools`. No asset is turned away.
///
/// It refuses with `InvalidMarketInitialization`, and changes nothing, when
/// the market is not in `InitializedMarket`: pools are opened once.
pub fn initialize_pools(
    market: &mut Market,
    mint: &Identity,
    higher_pool_bump: u8,
    lower_pool_bump: u8,
) -> (opened: Result<Opening, MarketError>)
    ensures
        old(market).initialization == MarketInitialization::InitializedMarket ==> {
            &&& opened == Ok::<Opening, MarketError>(opening_by(old(market).creator))
            &&& *final(market) == old(market).with_pools(*mint, higher_pool_bump, lower_pool_bump)
        },
        old(market).initialization != MarketInitialization::InitializedMarket ==> {
            &&& opened == Err::<Opening, MarketError>(MarketError::InvalidMarketInitialization)
            &&& *final(market) == *old(market)
        },
        old(market).wf() ==> final(market).wf(),
{
    if market.initialization != MarketInitialization::InitializedMarket {
        return Err(MarketError::InvalidMarketInitialization);
    }
    market.mint = *mint;
    market.lower_pool_bump = lower_pool_bump;
    market.higher_pool_bump = higher_pool_bump;
    market.initialization = MarketInitialization::InitializedPools;
    Ok(
        Opening {
            pools: Pools { higher: INITIAL_USDC_POOL_AMOUNT, lower: INITIAL_USDC_POOL_AMOUNT },
            into_higher: Transfer::into_pool(
                &market.creator,
                Direction::Higher,
                INITIAL_USDC_POOL_AMOUNT,
            ),
            into_lower: Transfer::into_pool(
                &market.creator,
                Direction::Lower,
                INITIAL_USDC_POOL_AMOUNT,
            ),
        },
    )
}

} // verus!
