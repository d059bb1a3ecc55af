use prediction_market::{
    initialize_market, initialize_pools, Account, Authority, Direction, Identity, MarketError,
    MarketInitialization, Opening, Pools, Transfer, FEED_ID_LENGTH, INITIAL_USDC_POOL_AMOUNT,
    MINIMUM_MARKET_DURATION,
};

const FEED: &str = "0xef0d8b6fda2ceba41da15d4095d1da392a0d2f8ed0c6c7bc0f4cfac8c280b56d";

fn id(n: u8) -> Identity {
    Identity { bytes: [n; 32] }
}

#[test]
fn market_holds_what_it_was_created_with() {
    let market = initialize_market(&id(1), 42_000, FEED.to_string(), 1500, 777, 254).unwrap();
    assert_eq!(market.creator, id(1));
    assert_eq!(market.target_price, 42_000);
    assert_eq!(market.start_time, 777);
    assert_eq!(market.market_duration, 1500);
    assert_eq!(market.bump, 254);
    assert_eq!(market.mint, Identity { bytes: [0; 32] });
    assert_eq!(market.higher_pool_bump, 0);
    assert_eq!(market.lower_pool_bump, 0);
    assert_eq!(market.final_price, None);
    assert_eq!(&market.feed_id[..], FEED.as_bytes());
    assert_eq!(market.initialization, MarketInitialization::InitializedMarket);
}

#[test]
fn feed_of_66_bytes_is_taken() {
    assert_eq!(FEED.len(), FEED_ID_LENGTH);
    assert!(initialize_market(&id(1), 1, FEED.to_string(), 1200, 0, 0).is_ok());
    // Any 66 bytes will do: what they spell is looked at when a claim needs it.
    assert!(initialize_market(&id(1), 1, "z".repeat(66), 1200, 0, 0).is_ok());
}

#[test]
fn feed_of_another_length_is_refused() {
    for length in [0usize, 1, 64, 65, 67, 132] {
        assert_eq!(
            initialize_market(&id(1), 1, "a".repeat(length), 5000, 0, 0),
            Err(MarketError::IncorrectFeedIDLength)
        );
    }
}

#[test]
fn feed_length_is_counted_in_bytes() {
    // 33 characters of two bytes each make 66 bytes.
    let two_byte = "\u{e9}".repeat(33);
    assert_eq!(two_byte.chars().count(), 33);
    assert!(initialize_market(&id(1), 1, two_byte, 1200, 0, 0).is_ok());
    // 66 characters of two bytes each are 132 bytes.
    assert_eq!(
        initialize_market(&id(1), 1, "\u{e9}".repeat(66), 1200, 0, 0),
        Err(MarketError::IncorrectFeedIDLength)
    );
}

#[test]
fn short_duration_is_refused() {
    assert_eq!(MINIMUM_MARKET_DURATION, 1200);
    for duration in [0u64, 1, 600, 1199] {
        assert_eq!(
            initialize_market(&id(1), 1, FEED.to_string(), duration, 0, 0),
            Err(MarketError::ShortMarketDuration)
        );
    }
}

#[test]
fn duration_of_1200_and_more_is_taken() {
    for duration in [1200u64, 1201, 576_000, u64::MAX] {
        let market = initialize_market(&id(1), 1, FEED.to_string(), duration, 0, 0).unwrap();
        assert_eq!(market.market_duration, duration);
    }
}

#[test]
fn feed_length_is_checked_before_duration() {
    assert_eq!(
        initialize_market(&id(1), 1, "short".to_string(), 10, 0, 0),
        Err(MarketError::IncorrectFeedIDLength)
    );
}

#[test]
fn pools_open_with_the_seed_each() {
    let mut market = initialize_market(&id(1), 1, FEED.to_string(), 1200, 10, 3).unwrap();
    let before = market;
    let opening = initialize_pools(&mut market, &id(7), 250, 249).unwrap();
    assert_eq!(INITIAL_USDC_POOL_AMOUNT, 1_000_000);
    assert_eq!(
        opening,
        Opening {
            pools: Pools { higher: 1_000_000, lower: 1_000_000 },
            into_higher: Transfer {
                from: Account::Wallet(id(1)),
                to: Account::Pool(Direction::Higher),
                authority: Authority::Signer(id(1)),
                amount: 1_000_000,
            },
            into_lower: Transfer {
                from: Account::Wallet(id(1)),
                to: Account::Pool(Direction::Lower),
                authority: Authority::Signer(id(1)),
                amount: 1_000_000,
            },
        }
    );
    assert_eq!(market.mint, id(7));
    assert_eq!(market.higher_pool_bump, 250);
    assert_eq!(market.lower_pool_bump, 249);
    assert_eq!(market.initialization, MarketInitialization::InitializedPools);
    // Everything else stays.
    assert_eq!(market.creator, before.creator);
    assert_eq!(market.target_price, before.target_price);
    assert_eq!(market.start_time, before.start_time);
    assert_eq!(market.market_duration, before.market_duration);
    assert_eq!(market.bump, before.bump);
    assert_eq!(market.final_price, None);
    assert_eq!(market.feed_id, before.feed_id);
}

#[test]
fn pools_open_only_once() {
    let mut market = initialize_market(&id(1), 1, FEED.to_string(), 1200, 10, 3).unwrap();
    initialize_pools(&mut market, &id(7), 250, 249).unwrap();
    let opened = market;
    assert_eq!(
        initialize_pools(&mut market, &id(8), 1, 2),
        Err(MarketError::InvalidMarketInitialization)
    );
    assert_eq!(market, opened);
}
