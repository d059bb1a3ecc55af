use vstd::prelude::*;
use crate::constants::ODDS_FIXED_POINT_MULTIPLIER;
use crate::error::MarketError;
use crate::ledger::Transfer;
use crate::odds::{compute_odds, payout_is_covered};
use crate::state::{Bet, Direction, Identity, Market, MarketInitialization, Pools};

verus! {

/// The ticket that a stake of `amount` on `direction` gets once it has
/// landed and the pools stand at `pools`: its odds are those of that moment.
pub open spec fn ticket_of(
    pools: Pools,
    user: Identity,
    market_key: Identity,
    amount: u64,
    direction: Direction,
    bump: u8,
) -> Bet {
    Bet {
        user,
        market: market_key,
        amount,
        direction,
        claimed: false,
        bump,
        initialized: true,
        odds: pools.odds(direction) as u64,
        is_won: false,
    }
}

/// A stake that was taken: the ticket it got, and the payment that the
/// holder makes for it.
#[derive(Clone, Copy, Debug, PartialEq, Eq)]
pub struct Placement {
    pub bet: Bet,
    pub stake: Transfer,
}

/// Places a stake of `bet_amount` on `bet_direction` for `user`, in the
/// market found at `market_key`.
///
/// The holder pays the stake into the pool of its direction, and signs for
/// it. The ticket's odds are taken from the balances after that: the
/// opposing balance over the backed one, scaled by 1_000_000, or exactly
/// 1_000_000 against an empty pool. The odds are written into the new ticket
/// and nothing ever changes them. The slot is not looked at: a stake is
/// taken after the window too.
///
/// It refuses with `InvalidMarketInitialization`, and leaves the pools alone,
/// unless the market's pools are open. The stake must be one the pools
/// accept (`Pools::accepts_bet` tells).
pub fn place_bet(
    market: &Market,
    market_key: &Identity,
    pools: &mut Pools,
    user: &Identity,
    bet_amount: u64,
    bet_direction: Direction,
    bump: u8,
) -> (placed: Result<Placement, MarketError>)
    requires
        market.initialization == MarketInitialization::InitializedPools ==> old(pools).accepts(
            bet_amount,
            bet_direction,
        ),
    ensures
        placed is Ok <==> market.initialization == MarketInitialization::InitializedPools,
        placed is Err ==> placed == Err::<Placement, MarketError>(
            MarketError::InvalidMarketInitialization,
        ) && *final(pools) == *old(pools),
        placed is Ok ==> {
            &&& *final(pools) == old(pools).credited(bet_direction, bet_amount)
            &&& placed.unwrap().bet == ticket_of(
                *final(pools),
                *user,
                *market_key,
                bet_amount,
                bet_direction,
                bump,
            )
            &&& placed.unwrap().bet.wf()
            &&& placed.unwrap().stake == Transfer::deposit(*user, bet_direction, bet_amount)
        },
        placed is Ok && old(pools).balance(bet_direction.opposite()) == 0
            ==> placed.unwrap().bet.odds == ODDS_FIXED_POINT_MULTIPLIER,
{
    if market.initialization != MarketInitialization::InitializedPools {
        return Err(MarketError::InvalidMarketInitialization);
    }
    let odds = match bet_direction {
        Direction::Higher => {
            pools.higher = pools.higher + bet_amount;
            compute_odds(pools.lower, pools.higher)
        },
        Direction::Lower => {
            pools.lower = pools.lower + bet_amount;
            compute_odds(pools.higher, pools.lower)
        },
    };
    proof {
        payout_is_covered(
            bet_amount,
            pools.balance(bet_direction.opposite()),
            pools.balance(bet_direction),
        );
    }
    Ok(
        Placement {
            bet: Bet {
                user: *user,
                market: *market_key,
                amount: bet_amount,
                direction: bet_direction,
                claimed: false,
                bump,
                initialized: true,
                odds,
                is_won: false,
            },
            stake: Transfer::into_pool(user, bet_direction, bet_amount),
        },
    )
}

} // verus!
