use prediction_market::{
    adjust_price, decode_feed_id, observe_price, MarketError, OracleError, Price, PriceUpdate,
    VerificationLevel, MAXIMUM_PRICE_AGE,
};

const FEED: &str = "0xef0d8b6fda2ceba41da15d4095d1da392a0d2f8ed0c6c7bc0f4cfac8c280b56d";
const FEED_BYTES: [u8; 32] = [
    239, 13, 139, 111, 218, 44, 235, 164, 29, 161, 93, 64, 149, 209, 218, 57, 42, 13, 47, 142, 208,
    198, 199, 188, 15, 76, 250, 200, 194, 128, 181, 109,
];

fn buffer(text: &str) -> [u8; 66] {
    let mut bytes = [0u8; 66];
    bytes.copy_from_slice(text.as_bytes());
    bytes
}

#[test]
fn feed_is_decoded_from_hex() {
    assert_eq!(decode_feed_id(&buffer(FEED)), Ok(FEED_BYTES));
    let zeros = format!("0x{}", "0".repeat(64));
    assert_eq!(decode_feed_id(&buffer(&zeros)), Ok([0u8; 32]));
    let mixed = format!("0X{}", "aF".repeat(32));
    assert_eq!(decode_feed_id(&buffer(&mixed)), Ok([0xaf; 32]));
    let counted = format!("0x{}", "0123456789abcdefABCDEF0123456789".repeat(2));
    assert_eq!(
        decode_feed_id(&buffer(&counted)),
        Ok([
            0x01, 0x23, 0x45, 0x67, 0x89, 0xab, 0xcd, 0xef, 0xab, 0xcd, 0xef, 0x01, 0x23, 0x45,
            0x67, 0x89, 0x01, 0x23, 0x45, 0x67, 0x89, 0xab, 0xcd, 0xef, 0xab, 0xcd, 0xef, 0x01,
            0x23, 0x45, 0x67, 0x89,
        ])
    );
}

#[test]
fn feed_of_bad_bytes_is_refused() {
    let mut bytes = buffer(FEED);
    bytes[65] = 0x80;
    assert_eq!(decode_feed_id(&bytes), Err(MarketError::InvalidUtf8));
    let mut bytes = buffer(FEED);
    bytes[0] = 0xc3;
    assert_eq!(decode_feed_id(&bytes), Err(MarketError::InvalidUtf8));
    let mut bytes = buffer(FEED);
    bytes[30] = b' ';
    assert_eq!(decode_feed_id(&bytes), Err(MarketError::InvalidFeedId));
    // Bytes just outside the three ranges of digits.
    for outsider in [b'/', b':', b'@', b'G', b'`', b'g'] {
        let mut bytes = buffer(FEED);
        bytes[2] = outsider;
        assert_eq!(decode_feed_id(&bytes), Err(MarketError::InvalidFeedId));
    }
    assert_eq!(decode_feed_id(&[0u8; 66]), Err(MarketError::InvalidFeedId));
}

#[test]
fn price_is_read_from_a_verified_fresh_update() {
    assert_eq!(MAXIMUM_PRICE_AGE, 30);
    let update = PriceUpdate {
        verification_level: VerificationLevel::Full,
        feed_id: FEED_BYTES,
        price: -12_345,
        exponent: -8,
        publish_time: 970,
    };
    assert_eq!(
        observe_price(&update, 1_000, &FEED_BYTES),
        Ok(Price { price: -12_345, exponent: -8 })
    );
    assert_eq!(observe_price(&update, 1_001, &FEED_BYTES), Err(OracleError::PriceTooOld));
    assert_eq!(observe_price(&update, 1_000, &[0; 32]), Err(OracleError::MismatchedFeedId));
    let partial =
        PriceUpdate { verification_level: VerificationLevel::Partial { num_signatures: 12 }, ..update };
    assert_eq!(
        observe_price(&partial, 1_000, &FEED_BYTES),
        Err(OracleError::InsufficientVerificationLevel)
    );
}

#[test]
fn negative_exponent_multiplies() {
    assert_eq!(adjust_price(5, -2), Ok(500));
    assert_eq!(adjust_price(12_345, -1), Ok(123_450));
    assert_eq!(adjust_price(0, -19), Ok(0));
    assert_eq!(adjust_price(1, -19), Ok(10_000_000_000_000_000_000));
    assert_eq!(adjust_price(1_844_674_407_370_955_161, -1), Ok(18_446_744_073_709_551_610));
}

#[test]
fn other_exponents_divide() {
    assert_eq!(adjust_price(512, 0), Ok(512));
    assert_eq!(adjust_price(512, 2), Ok(5));
    assert_eq!(adjust_price(99, 2), Ok(0));
    assert_eq!(adjust_price(i64::MAX, 18), Ok(9));
    assert_eq!(adjust_price(i64::MAX, 19), Ok(0));
}

#[test]
fn overflow_in_the_adjustment_is_an_error() {
    assert_eq!(adjust_price(2, -19), Err(MarketError::PriceAdjustmentOverflow));
    assert_eq!(
        adjust_price(1_844_674_407_370_955_162, -1),
        Err(MarketError::PriceAdjustmentOverflow)
    );
    // Ten to the twentieth is more than 64 bits hold, whatever it multiplies or divides.
    assert_eq!(adjust_price(0, -20), Err(MarketError::PriceAdjustmentOverflow));
    assert_eq!(adjust_price(1, 20), Err(MarketError::PriceAdjustmentOverflow));
    assert_eq!(adjust_price(1, i32::MAX), Err(MarketError::PriceAdjustmentOverflow));
    assert_eq!(adjust_price(1, i32::MIN), Err(MarketError::PriceAdjustmentOverflow));
}

#[test]
fn negative_price_is_read_as_unsigned() {
    assert_eq!(adjust_price(-1, 0), Ok(u64::MAX));
    assert_eq!(adjust_price(-1, 1), Ok(1_844_674_407_370_955_161));
    assert_eq!(adjust_price(i64::MIN, 0), Ok(1 << 63));
    assert_eq!(adjust_price(-1, -1), Err(MarketError::PriceAdjustmentOverflow));
}
