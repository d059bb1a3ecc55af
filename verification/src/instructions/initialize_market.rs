use vstd::prelude::*;
use vstd::utf8::encode_utf8;
use crate::constants::{FEED_ID_LENGTH, MINIMUM_MARKET_DURATION};
use crate::error::MarketError;
use crate::state::{Identity, Market, MarketInitialization};

verus! {

impl Market {
    /// The market is as `initialize_market` leaves it: configured as asked,
    /// started at `slot`, with neither pools nor final price.
    pub open spec fn is_created_with(
        self,
        creator: Identity,
        target_price: u64,
        feed_id: Seq<u8>,
        market_duration: u64,
        slot: u64,
        bump: u8,
    ) -> bool {
        &&& self.creator == creator
        &&& self.target_price == target_price
        &&& self.start_time == slot
        &&& self.market_duration == market_duration
        &&& self.bump == bump
        &&& self.mint.is_unset()
        &&& self.higher_pool_bump == 0
        &&& self.final_price is None
        &&& self.lower_pool_bump == 0
        &&& self.feed_id@ == feed_id
        &&& self.initialization == MarketInitialization::InitializedMarket
    }
}

/// Creates a market for `creator` at the slot `slot`.
///
/// `feed_id` must be 66 bytes long as UTF-8, else `IncorrectFeedIDLength`; then
/// `market_duration` must be at least 1200, else `ShortMarketDuration`. The
/// market that comes back holds the arguments, `feed_id` byte for byte, and
/// is in `InitializedMarket`. Nothing is paid.
pub fn initialize_market(
    creator: &Identity,
    target_price: u64,
    feed_id: String,
    market_duration: u64,
    slot: u64,
    bump: u8,
) -> (created: Result<Market, MarketError>)
    ensures
        encode_utf8(feed_id@).len() != FEED_ID_LENGTH ==> created == Err::<Market, MarketError>(
            MarketError::IncorrectFeedIDLength,
        ),
        encode_utf8(feed_id@).len() == FEED_ID_LENGTH && market_duration < MINIMUM_MARKET_DURATION
            ==> created == Err::<Market, MarketError>(MarketError::ShortMarketDuration),
        encode_utf8(feed_id@).len() == FEED_ID_LENGTH && market_duration >= MINIMUM_MARKET_DURATION
            ==> created is Ok && created.unwrap().is_created_with(
            *creator,
            target_price,
            encode_utf8(feed_id@),
            market_duration,
            slot,
            bump,
        ) && created.unwrap().wf(),
{
    let text = feed_id.as_str().as_bytes();
    if text.len() != FEED_ID_LENGTH {
        return Err(MarketError::IncorrectFeedIDLength);
    }
    if market_duration < MINIMUM_MARKET_DURATION {
        return Err(MarketError::ShortMarketDuration);
    }
    let mut feed_data = [0u8;66];
    let mut i: usize = 0;
    while i < FEED_ID_LENGTH
        invariant
            i <= FEED_ID_LENGTH,
            text@.len() == FEED_ID_LENGTH,
            forall|j: int| 0 <= j < i ==> feed_data[j] == text@[j],
        decreases FEED_ID_LENGTH - i,
    {
        feed_data[i] = text[i];
        i += 1;
    }
    assert(feed_data@ =~= text@);
    Ok(
        Market {
            creator: *creator,
            target_price,
            start_time: slot,
            market_duration,
            bump,
            mint: Identity::unset(),
            higher_pool_bump: 0,
            final_price: None,
            lower_pool_bump: 0,
            feed_id: feed_data,
            initialization: MarketInitialization::InitializedMarket,
        },
    )
}

} // verus!
