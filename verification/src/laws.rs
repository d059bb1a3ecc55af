//! What holds of the operations taken together.

use vstd::prelude::*;
use crate::constants::INITIAL_USDC_POOL_AMOUNT;
use crate::error::{ClaimError, MarketError};
use crate::instructions::claim_bet::{
    claim_outcome, claim_refusal, resolved_price, wins, Settlement,
};
use crate::instructions::finalize_market::{
    reclamation_outcome, seed_reclamation, Reclamation,
};
use crate::instructions::initialize_pools::seeded_pools;
use crate::instructions::place_bet::ticket_of;
use crate::ledger::{Account, Authority, Transfer};
use crate::oracle::PriceUpdate;
use crate::state::{Bet, Direction, Identity, Market, MarketInitialization, Pools};

verus! {

/// A claim pays a winner its stake at its odds, rounded down, out of the pool
/// it backed, and a loser nothing: for a loser no transfer is asked for.
pub proof fn payout_follows_result(
    market: Market,
    market_key: Identity,
    bet: Bet,
    user: Identity,
    slot: u64,
    unix_timestamp: i64,
    update: PriceUpdate,
)
    requires
        bet.payout_fits(),
        claim_outcome(market, market_key, bet, user, slot, unix_timestamp, update) is Ok,
    ensures
        ({
            let settlement = claim_outcome(
                market,
                market_key,
                bet,
                user,
                slot,
                unix_timestamp,
                update,
            ).unwrap();
            &&& settlement.is_won == wins(bet.direction, settlement.final_price, market.target_price)
            &&& settlement.is_won ==> settlement.payout == Some(
                Transfer {
                    from: Account::Pool(bet.direction),
                    to: Account::Wallet(bet.user),
                    authority: Authority::Market,
                    amount: ((bet.amount * bet.odds) / 1_000_000) as u64,
                },
            ) && settlement.payout.unwrap().amount == (bet.amount * bet.odds) / 1_000_000
            &&& !settlement.is_won ==> settlement.payout is None && settlement.paid_spec() == 0
        }),
{
}

/// A price that meets the target exactly wins for neither direction.
pub proof fn price_on_target_loses(direction: Direction, price: u64)
    ensures
        !wins(direction, price, price),
{
}

/// The final price is written once. A market that has one is settled at it
/// by every claim, whatever the oracle would say and whenever it is asked.
pub proof fn final_price_is_kept(market: Market, update: PriceUpdate, unix_timestamp: i64)
    requires
        market.final_price is Some,
    ensures
        resolved_price(market, update, unix_timestamp) == Ok::<u64, ClaimError>(
            market.final_price.unwrap(),
        ),
        market.settled_at(market.final_price.unwrap()) == market,
{
}

/// Of two claims on one market that both succeed, the second is settled at
/// the price of the first and leaves the market as the first left it. It may
/// be for another ticket, by another holder, at another time, with another
/// price update.
pub proof fn later_claims_share_the_price(
    market: Market,
    market_key: Identity,
    first_bet: Bet,
    first_user: Identity,
    first_slot: u64,
    first_time: i64,
    first_update: PriceUpdate,
    second_bet: Bet,
    second_user: Identity,
    second_slot: u64,
    second_time: i64,
    second_update: PriceUpdate,
)
    requires
        claim_outcome(
            market,
            market_key,
            first_bet,
            first_user,
            first_slot,
            first_time,
            first_update,
        ) is Ok,
    ensures
        ({
            let first = claim_outcome(
                market,
                market_key,
                first_bet,
                first_user,
                first_slot,
                first_time,
                first_update,
            ).unwrap();
            let settled = market.settled_at(first.final_price);
            let second = claim_outcome(
                settled,
                market_key,
                second_bet,
                second_user,
                second_slot,
                second_time,
                second_update,
            );
            &&& second is Err ==> second.unwrap_err() is Market
            &&& second is Ok ==> second.unwrap().final_price == first.final_price
                && settled.settled_at(second.unwrap().final_price) == settled
            &&& second is Ok ==> second.unwrap().is_won == wins(
                second_bet.direction,
                first.final_price,
                market.target_price,
            )
        }),
{
}

/// A ticket is claimed once. After a claim that succeeded, the holder's next
/// claim on the same ticket, at whatever later time, is refused with
/// `BetIsClaimed`.
pub proof fn second_claim_is_refused(
    market: Market,
    market_key: Identity,
    bet: Bet,
    user: Identity,
    slot: u64,
    unix_timestamp: i64,
    update: PriceUpdate,
    later_slot: u64,
    later_time: i64,
    later_update: PriceUpdate,
)
    requires
        claim_outcome(market, market_key, bet, user, slot, unix_timestamp, update) is Ok,
        later_slot >= slot,
    ensures
        ({
            let first = claim_outcome(
                market,
                market_key,
                bet,
                user,
                slot,
                unix_timestamp,
                update,
            ).unwrap();
            claim_outcome(
                market.settled_at(first.final_price),
                market_key,
                bet.claimed_with(first.is_won),
                user,
                later_slot,
                later_time,
                later_update,
            ) == Err::<Settlement, ClaimError>(ClaimError::Market(MarketError::BetIsClaimed))
        }),
{
}

/// No claim succeeds while the betting window is open, up to and with the
/// slot `start_time + market_duration`, whatever the oracle holds. Where the
/// pools are open and the caller holds the ticket of this market, the claim
/// is refused with `MarketDurationNotOver`.
pub proof fn claim_in_window_is_refused(
    market: Market,
    market_key: Identity,
    bet: Bet,
    user: Identity,
    slot: u64,
    unix_timestamp: i64,
    update: PriceUpdate,
)
    requires
        slot <= market.start_time + market.market_duration,
    ensures
        claim_outcome(market, market_key, bet, user, slot, unix_timestamp, update) is Err,
        claim_outcome(market, market_key, bet, user, slot, unix_timestamp, update)
            == Err::<Settlement, ClaimError>(
            ClaimError::Market(claim_refusal(market, market_key, bet, user, slot).unwrap()),
        ),
        market.initialization == MarketInitialization::InitializedPools && market_key == bet.market
            && user == bet.user ==> claim_outcome(
            market,
            market_key,
            bet,
            user,
            slot,
            unix_timestamp,
            update,
        ) == Err::<Settlement, ClaimError>(ClaimError::Market(MarketError::MarketDurationNotOver)),
{
}

/// A ticket keeps the odds it was placed at: a claim empties and marks it,
/// and leaves its odds, its holder, its market and its direction alone.
pub proof fn claim_keeps_the_odds(
    pools: Pools,
    user: Identity,
    market_key: Identity,
    amount: u64,
    direction: Direction,
    bump: u8,
    is_won: bool,
)
    ensures
        ({
            let placed = ticket_of(pools, user, market_key, amount, direction, bump);
            let claimed = placed.claimed_with(is_won);
            &&& claimed.odds == placed.odds
            &&& claimed.user == placed.user
            &&& claimed.market == placed.market
            &&& claimed.direction == placed.direction
        }),
{
}

/// A market only moves forward. Once its pools are open it is no longer in
/// `InitializedMarket`, which is the one stage `initialize_pools` accepts, and
/// settling it leaves the stage alone.
pub proof fn initialization_moves_forward(
    market: Market,
    mint: Identity,
    higher_pool_bump: u8,
    lower_pool_bump: u8,
    price: u64,
)
    ensures
        market.with_pools(mint, higher_pool_bump, lower_pool_bump).initialization
            == MarketInitialization::InitializedPools,
        market.with_pools(mint, higher_pool_bump, lower_pool_bump).initialization
            != MarketInitialization::InitializedMarket,
        market.settled_at(price).initialization == market.initialization,
{
}

/// Pools that were just opened hold, together, twice the seed.
pub proof fn seeded_pools_hold_twice_the_seed()
    ensures
        seeded_pools().total() == 2 * INITIAL_USDC_POOL_AMOUNT,
{
}

/// A stake raises what the pools hold together by its amount, and leaves the
/// opposing pool as it was.
pub proof fn stake_raises_the_total(pools: Pools, amount: u64, direction: Direction)
    requires
        pools.balance(direction) + amount <= u64::MAX,
    ensures
        pools.credited(direction, amount).total() == pools.total() + amount,
        pools.credited(direction, amount).balance(direction.opposite()) == pools.balance(
            direction.opposite(),
        ),
{
}

/// Pools that were just opened can be taken back by the creator.
pub proof fn fresh_pools_can_be_reclaimed(market: Market)
    requires
        market.initialization == MarketInitialization::InitializedPools,
    ensures
        reclamation_outcome(market, seeded_pools(), market.creator) == Ok::<Reclamation, MarketError>(
            seed_reclamation(market.creator),
        ),
{
}

/// Once a stake has landed in freshly opened pools, neither `finalize_market`
/// nor `cancel_market` succeeds: the creator is refused with `NonZeroPools`.
pub proof fn staked_pools_cannot_be_reclaimed(market: Market, amount: u64, direction: Direction)
    requires
        market.initialization == MarketInitialization::InitializedPools,
        amount > 0,
        INITIAL_USDC_POOL_AMOUNT + amount <= u64::MAX,
    ensures
        reclamation_outcome(market, seeded_pools().credited(direction, amount), market.creator)
            == Err::<Reclamation, MarketError>(MarketError::NonZeroPools),
{
}

/// Whoever asks, pools that do not hold exactly twice the seed are never
/// given back.
pub proof fn uneven_total_is_never_reclaimed(market: Market, pools: Pools, caller: Identity)
    requires
        pools.total() != 2 * INITIAL_USDC_POOL_AMOUNT,
    ensures
        reclamation_outcome(market, pools, caller) is Err,
{
}

} // verus!
