use vstd::prelude::*;
use crate::constants::MAXIMUM_PRICE_AGE;
use crate::error::{ClaimError, MarketError};
use crate::ledger::{Closure, Record, Transfer};
use crate::odds::{compute_payout, payout_of};
use crate::oracle::{
    adjust_price, adjusted_price, decode_feed_id, feed_id_of_buffer, observe_price, price_query,
    PriceUpdate,
};
use crate::state::{Bet, Direction, Identity, Market, MarketInitialization};

verus! {

/// How a claim ended, and what it asks of the ledger.
#[derive(Clone, Copy, Debug, PartialEq, Eq)]
pub struct Settlement {
    /// The price the market is settled at, by this claim or an earlier one.
    pub final_price: u64,
    pub is_won: bool,
    /// The payment to a winner, out of the pool the ticket backed, to its
    /// holder, on the market's authority. There is none for a loser.
    pub payout: Option<Transfer>,
    /// The ticket is closed in its holder's favour.
    pub closure: Closure,
}

impl Settlement {
    /// The amount that leaves the pools by this settlement: the payout, or
    /// zero where none is owed.
    pub open spec fn paid_spec(self) -> u64 {
        match self.payout {
            Some(payout) => payout.amount,
            None => 0,
        }
    }

    /// The amount that leaves the pools by this settlement: the payout, or
    /// zero where none is owed.
    pub fn paid(&self) -> (amount: u64)
        ensures
            amount == self.paid_spec(),
    {
        match self.payout {
            Some(payout) => payout.amount,
            None => 0,
        }
    }
}

/// Whether a ticket on `direction` wins at `final_price`: the price must lie
/// strictly on the ticket's side of the target. A price that meets the target
/// makes both directions lose.
pub open spec fn wins(direction: Direction, final_price: u64, target_price: u64) -> bool {
    match direction {
        Direction::Higher => final_price > target_price,
        Direction::Lower => final_price < target_price,
    }
}

/// The rule that stands against a claim, if one does. They are tried in this
/// order: the pools are open; the ticket belongs to this market; the caller
/// holds the ticket; the slot lies after the betting window; the ticket was
/// not claimed before.
pub open spec fn claim_refusal(
    market: Market,
    market_key: Identity,
    bet: Bet,
    user: Identity,
    slot: u64,
) -> Option<MarketError> {
    if market.initialization != MarketInitialization::InitializedPools {
        Some(MarketError::InvalidMarketInitialization)
    } else if market_key != bet.market {
        Some(MarketError::BetMarketMismatch)
    } else if user != bet.user {
        Some(MarketError::UnauthorizedUser)
    } else if slot <= market.deadline() {
        Some(MarketError::MarketDurationNotOver)
    } else if bet.claimed {
        Some(MarketError::BetIsClaimed)
    } else {
        None
    }
}

/// The price a claim settles at. A market that has a final price keeps it,
/// and the oracle is not asked. Otherwise the market's feed is decoded, the
/// price update is asked for a price no older than `MAXIMUM_PRICE_AGE`, and
/// that price is brought to the market's unit.
pub open spec fn resolved_price(market: Market, update: PriceUpdate, unix_timestamp: i64) -> Result<
    u64,
    ClaimError,
> {
    match market.final_price {
        Some(price) => Ok(price),
        None => match feed_id_of_buffer(market.feed_id@) {
            Err(error) => Err(ClaimError::Market(error)),
            Ok(feed) => match price_query(update, unix_timestamp, MAXIMUM_PRICE_AGE, feed) {
                Err(error) => Err(ClaimError::Oracle(error)),
                Ok(price) => match adjusted_price(price.price, price.exponent) {
                    None => Err(ClaimError::Market(MarketError::PriceAdjustmentOverflow)),
                    Some(value) => Ok(value),
                },
            },
        },
    }
}

/// What a ticket comes to at `final_price`: a winner is paid its stake at
/// its odds out of the pool it backed, a loser nothing. Either way the ticket
/// is closed in its holder's favour.
pub open spec fn settlement_of(bet: Bet, final_price: u64, target_price: u64) -> Settlement
    recommends
        bet.payout_fits(),
{
    let closure = Closure { record: Record::Ticket, destination: bet.user };
    if wins(bet.direction, final_price, target_price) {
        Settlement {
            final_price,
            is_won: true,
            payout: Some(
                Transfer::withdrawal(
                    bet.direction,
                    bet.user,
                    payout_of(bet.amount, bet.odds) as u64,
                ),
            ),
            closure,
        }
    } else {
        Settlement { final_price, is_won: false, payout: None, closure }
    }
}

/// What a claim comes to: the first rule that stands against it, else what
/// stands against a price, else the ticket's settlement.
pub open spec fn claim_outcome(
    market: Market,
    market_key: Identity,
    bet: Bet,
    user: Identity,
    slot: u64,
    unix_timestamp: i64,
    update: PriceUpdate,
) -> Result<Settlement, ClaimError> {
    match claim_refusal(market, market_key, bet, user, slot) {
        Some(error) => Err(ClaimError::Market(error)),
        None => match resolved_price(market, update, unix_timestamp) {
            Err(error) => Err(error),
            Ok(final_price) => Ok(settlement_of(bet, final_price, market.target_price)),
        },
    }
}

impl Bet {
    /// This ticket after its claim: emptied, marked, and with its result.
    pub open spec fn claimed_with(self, is_won: bool) -> Bet {
        Bet { amount: 0, claimed: true, initialized: false, is_won, ..self }
    }
}

/// Tells which rule stands against a claim.
fn check_claim(market: &Market, market_key: &Identity, bet: &Bet, user: &Identity, slot: u64) -> (refusal:
    Option<MarketError>)
    ensures
        refusal == claim_refusal(*market, *market_key, *bet, *user, slot),
{
    if market.initialization != MarketInitialization::InitializedPools {
        return Some(MarketError::InvalidMarketInitialization);
    }
    if *market_key != bet.market {
        return Some(MarketError::BetMarketMismatch);
    }
    if *user != bet.user {
        return Some(MarketError::UnauthorizedUser);
    }
    let deadline: u128 = market.start_time as u128 + market.market_duration as u128;
    if slot as u128 <= deadline {
        return Some(MarketError::MarketDurationNotOver);
    }
    if bet.claimed {
        return Some(MarketError::BetIsClaimed);
    }
    None
}

/// Finds the price a claim settles at, asking the oracle only for a market
/// that has no final price yet.
pub fn resolve_price(market: &Market, price_update: &PriceUpdate, unix_timestamp: i64) -> (price:
    Result<u64, ClaimError>)
    ensures
        price == resolved_price(*market, *price_update, unix_timestamp),
{
    if let Some(price) = market.final_price {
        return Ok(price);
    }
    let feed = match decode_feed_id(&market.feed_id) {
        Err(error) => {
            return Err(ClaimError::Market(error));
        },
        Ok(feed) => feed,
    };
    let observed = match observe_price(price_update, unix_timestamp, &feed) {
        Err(error) => {
            return Err(ClaimError::Oracle(error));
        },
        Ok(observed) => observed,
    };
    match adjust_price(observed.price, observed.exponent) {
        Err(error) => Err(ClaimError::Market(error)),
        Ok(value) => Ok(value),
    }
}

/// Settles a ticket at a final price.
pub fn settle(bet: &Bet, final_price: u64, target_price: u64) -> (settlement: Settlement)
    requires
        bet.payout_fits(),
    ensures
        settlement == settlement_of(*bet, final_price, target_price),
{
    let is_won = match bet.direction {
        Direction::Higher => final_price > target_price,
        Direction::Lower => final_price < target_price,
    };
    let closure = Closure { record: Record::Ticket, destination: bet.user };
    if is_won {
        let amount = compute_payout(bet.amount, bet.odds);
        let payout = Transfer::out_of_pool(bet.direction, &bet.user, amount);
        Settlement { final_price, is_won, payout: Some(payout), closure }
    } else {
        Settlement { final_price, is_won, payout: None, closure }
    }
}

/// Claims a ticket for `user` at the slot `slot` and the time
/// `unix_timestamp`, against the market found at `market_key`.
///
/// The rules of `claim_refusal` are tried first. Then the market is settled,
/// if it is not yet: the first claim that gets a price from `price_update`
/// writes it as the market's final price, and every later claim reads that
/// one. The ticket wins if the final price lies strictly on its side of the
/// target; a winner is owed `amount * odds / 1_000_000`, rounded down, out of
/// the pool it backed. The ticket is then emptied, marked as claimed, and
/// closed in its holder's favour.
///
/// A claim that fails changes neither the market nor the ticket.
pub fn claim_bet(
    market: &mut Market,
    market_key: &Identity,
    bet: &mut Bet,
    user: &Identity,
    slot: u64,
    unix_timestamp: i64,
    price_update: &PriceUpdate,
) -> (outcome: Result<Settlement, ClaimError>)
    requires
        old(bet).payout_fits(),
    ensures
        outcome == claim_outcome(
            *old(market),
            *market_key,
            *old(bet),
            *user,
            slot,
            unix_timestamp,
            *price_update,
        ),
        match outcome {
            Ok(settlement) => {
                &&& *final(market) == old(market).settled_at(settlement.final_price)
                &&& *final(bet) == old(bet).claimed_with(settlement.is_won)
            },
            Err(_) => *final(market) == *old(market) && *final(bet) == *old(bet),
        },
        final(bet).odds == old(bet).odds,
        outcome is Ok || old(bet).wf() ==> final(bet).wf(),
        old(market).wf() ==> final(market).wf(),
        old(market).final_price is Some ==> final(market).final_price == old(market).final_price,
{
    if let Some(error) = check_claim(market, market_key, bet, user, slot) {
        return Err(ClaimError::Market(error));
    }
    let final_price = match resolve_price(market, price_update, unix_timestamp) {
        Err(error) => {
            return Err(error);
        },
        Ok(final_price) => final_price,
    };
    let settlement = settle(bet, final_price, market.target_price);
    market.final_price = Some(final_price);
    bet.is_won = settlement.is_won;
    bet.amount = 0;
    bet.claimed = true;
    bet.initialized = false;
    Ok(settlement)
}

} // verus!
