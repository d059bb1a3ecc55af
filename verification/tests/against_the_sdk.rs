use anchor_lang::prelude::{Clock, Pubkey};
use prediction_market::{
    decode_feed_id, hash_to_bytes, observe_price, OracleError, Price, PriceUpdate,
    VerificationLevel,
};
use pyth_solana_receiver_sdk::error::GetPriceError;
use pyth_solana_receiver_sdk::price_update::{
    get_feed_id_from_hex, PriceFeedMessage, PriceUpdateV2,
};

const FEED_BYTES: [u8; 32] = [
    239, 13, 139, 111, 218, 44, 235, 164, 29, 161, 93, 64, 149, 209, 218, 57, 42, 13, 47, 142, 208,
    198, 199, 188, 15, 76, 250, 200, 194, 128, 181, 109,
];

/// An account as the receiver program would have posted it, with every field
/// that a price query leaves unread set to something.
fn posted(update: &PriceUpdate) -> PriceUpdateV2 {
    PriceUpdateV2 {
        write_authority: Pubkey::new_from_array([7; 32]),
        verification_level: match update.verification_level {
            VerificationLevel::Partial { num_signatures } => {
                pyth_solana_receiver_sdk::price_update::VerificationLevel::Partial {
                    num_signatures,
                }
            }
            VerificationLevel::Full => {
                pyth_solana_receiver_sdk::price_update::VerificationLevel::Full
            }
        },
        price_message: PriceFeedMessage {
            feed_id: update.feed_id,
            price: update.price,
            conf: 123_456,
            exponent: update.exponent,
            publish_time: update.publish_time,
            prev_publish_time: update.publish_time.saturating_sub(1),
            ema_price: update.price / 2,
            ema_conf: 654_321,
        },
        posted_slot: 987_654_321,
    }
}

fn asked_directly(update: &PriceUpdate, now: i64, feed: &[u8; 32]) -> Result<Price, OracleError> {
    let clock = Clock { slot: 5, unix_timestamp: now, ..Clock::default() };
    match posted(update).get_price_no_older_than(&clock, 30, feed) {
        Ok(found) => Ok(Price { price: found.price, exponent: found.exponent }),
        Err(GetPriceError::PriceTooOld) => Err(OracleError::PriceTooOld),
        Err(GetPriceError::MismatchedFeedId) => Err(OracleError::MismatchedFeedId),
        Err(GetPriceError::InsufficientVerificationLevel) => {
            Err(OracleError::InsufficientVerificationLevel)
        }
        Err(other) => panic!("the query gave {:?}", other),
    }
}

/// The answer as the library's contract words it, computed without the SDK.
fn as_stated(update: &PriceUpdate, now: i64, feed: &[u8; 32]) -> Result<Price, OracleError> {
    if update.verification_level != VerificationLevel::Full {
        Err(OracleError::InsufficientVerificationLevel)
    } else if update.feed_id != *feed {
        Err(OracleError::MismatchedFeedId)
    } else if (update.publish_time as i128) + 30 < now as i128 {
        Err(OracleError::PriceTooOld)
    } else {
        Ok(Price { price: update.price, exponent: update.exponent })
    }
}

/// The feed of a 66-byte text as the library's contract words it, computed
/// without the SDK.
fn feed_as_stated(text: &[u8]) -> Option<[u8; 32]> {
    fn digit(byte: u8) -> Option<u8> {
        match byte {
            b'0'..=b'9' => Some(byte - b'0'),
            b'a'..=b'f' => Some(byte - b'a' + 10),
            b'A'..=b'F' => Some(byte - b'A' + 10),
            _ => None,
        }
    }
    let digits = &text[2..];
    let mut feed = [0u8; 32];
    for i in 0..32 {
        feed[i] = digit(digits[2 * i])? * 16 + digit(digits[2 * i + 1])?;
    }
    Some(feed)
}

#[test]
fn price_query_agrees_with_the_sdk() {
    let levels = [
        VerificationLevel::Full,
        VerificationLevel::Partial { num_signatures: 0 },
        VerificationLevel::Partial { num_signatures: 13 },
        VerificationLevel::Partial { num_signatures: 255 },
    ];
    let mut other_feed = FEED_BYTES;
    other_feed[0] ^= 0x80;
    let times = [i64::MIN, i64::MIN + 30, i64::MIN + 31, -31, -1, 0, 29, 30, 31, 1_700_000_000, i64::MAX - 30, i64::MAX];
    for level in levels {
        for feed in [FEED_BYTES, other_feed] {
            for publish_time in times {
                for now in times {
                    for (price, exponent) in [(0i64, 0i32), (-7, -8), (i64::MAX, i32::MAX), (i64::MIN, i32::MIN)] {
                        let update = PriceUpdate {
                            verification_level: level,
                            feed_id: feed,
                            price,
                            exponent,
                            publish_time,
                        };
                        assert_eq!(
                            observe_price(&update, now, &FEED_BYTES),
                            asked_directly(&update, now, &FEED_BYTES),
                            "{:?} at {}",
                            update,
                            now
                        );
                        assert_eq!(
                            observe_price(&update, now, &FEED_BYTES),
                            as_stated(&update, now, &FEED_BYTES),
                            "{:?} at {}",
                            update,
                            now
                        );
                    }
                }
            }
        }
    }
}

#[test]
fn feed_decoding_agrees_with_the_sdk() {
    let texts = [
        "0xef0d8b6fda2ceba41da15d4095d1da392a0d2f8ed0c6c7bc0f4cfac8c280b56d".to_string(),
        "0XEF0D8B6FDA2CEBA41DA15D4095D1DA392A0D2F8ED0C6C7BC0F4CFAC8C280B56D".to_string(),
        format!("zz{}", "09afAF".repeat(11)).chars().take(66).collect::<String>(),
        format!("0x{}", "0".repeat(64)),
        format!("0x{}", "f".repeat(64)),
        format!("0x{}g", "f".repeat(63)),
        format!("0x{} ", "f".repeat(63)),
        format!("{}0x", "f".repeat(64)),
        " ".repeat(66),
    ];
    for text in texts {
        assert_eq!(text.len(), 66);
        let mut buffer = [0u8; 66];
        buffer.copy_from_slice(text.as_bytes());
        assert_eq!(decode_feed_id(&buffer).ok(), get_feed_id_from_hex(&text).ok(), "{}", text);
        assert_eq!(decode_feed_id(&buffer).ok(), feed_as_stated(&buffer), "{}", text);
    }
}

#[test]
fn hash_agrees_with_the_hasher() {
    let mut data = Vec::new();
    for length in 0..200u32 {
        assert_eq!(hash_to_bytes(&data), solana_sha256_hasher::hash(&data).to_bytes());
        data.push((length * 7 + 3) as u8);
    }
}
