//! The oracle side of a claim: finding the feed a market names, asking a
//! posted price update for its price, and bringing that price to whole units.

use vstd::prelude::*;
use vstd::string::StringSliceAdditionalSpecFns;
use vstd::utf8::{
    is_char_boundary, is_char_boundary_iff_not_is_continuation_byte, valid_utf8,
};
use anchor_lang::prelude::{Clock, Pubkey};
use pyth_solana_receiver_sdk::price_update::{
    get_feed_id_from_hex, PriceFeedMessage, PriceUpdateV2,
};
use crate::constants::MAXIMUM_PRICE_AGE;
use crate::error::{MarketError, OracleError};

verus! {

/// How far the guardians' signatures on a price update were checked.
#[derive(Clone, Copy, Debug, PartialEq, Eq, Structural)]
pub enum VerificationLevel {
    Partial { num_signatures: u8 },
    Full,
}

/// A price update as it was posted on the ledger: what a claim reads of it.
#[derive(Clone, Copy, Debug, PartialEq, Eq)]
pub struct PriceUpdate {
    pub verification_level: VerificationLevel,
    /// The feed the update belongs to.
    pub feed_id: [u8; 32],
    pub price: i64,
    /// The price stands for `price * 10^exponent`.
    pub exponent: i32,
    /// When the price was published, in seconds.
    pub publish_time: i64,
}

/// A price as the oracle hands it out: `price * 10^exponent`.
#[derive(Clone, Copy, Debug, PartialEq, Eq, Structural)]
pub struct Price {
    pub price: i64,
    pub exponent: i32,
}

/// The value of one hexadecimal digit, given as a byte of text.
pub open spec fn hex_digit_value(digit: u8) -> Option<u8> {
    if 0x30 <= digit <= 0x39 {
        Some((digit - 0x30) as u8)
    } else if 0x61 <= digit <= 0x66 {
        Some((digit - 0x61 + 10) as u8)
    } else if 0x41 <= digit <= 0x46 {
        Some((digit - 0x41 + 10) as u8)
    } else {
        None
    }
}

/// The text is an even number of hexadecimal digits, of either case.
pub open spec fn is_hex_text(text: Seq<u8>) -> bool {
    &&& text.len() % 2 == 0
    &&& forall|i: int| 0 <= i < text.len() ==> hex_digit_value(#[trigger] text[i]) is Some
}

/// The bytes that hexadecimal text spells, two digits to a byte, the high
/// digit first.
pub open spec fn hex_decoded(text: Seq<u8>) -> Seq<u8>
    recommends
        is_hex_text(text),
{
    Seq::new(
        text.len() / 2,
        |i: int|
            (hex_digit_value(text[2 * i]).unwrap() * 16 + hex_digit_value(
                text[2 * i + 1],
            ).unwrap()) as u8,
    )
}

/// The feed that a text names. A text of 64 bytes is read as 64 hexadecimal
/// digits; of a text of 66 bytes the first two are passed over, whatever they
/// are, and the rest is read so. Any other text names no feed.
pub open spec fn feed_id_of_text(text: Seq<u8>) -> Option<Seq<u8>> {
    if text.len() == 66 && is_hex_text(text.subrange(2, 66)) {
        Some(hex_decoded(text.subrange(2, 66)))
    } else if text.len() == 64 && is_hex_text(text) {
        Some(hex_decoded(text))
    } else {
        None
    }
}

/// The feed that a market's 66-byte buffer names, or why it names none:
/// `InvalidUtf8` when the bytes are no UTF-8 text, `InvalidFeedId` when the
/// text is not two bytes and then 64 hexadecimal digits.
pub open spec fn feed_id_of_buffer(buffer: Seq<u8>) -> Result<Seq<u8>, MarketError> {
    if !valid_utf8(buffer) {
        Err(MarketError::InvalidUtf8)
    } else {
        match feed_id_of_text(buffer) {
            Some(feed) => Ok(feed),
            None => Err(MarketError::InvalidFeedId),
        }
    }
}

/// What a price update answers when asked, at the time `unix_timestamp`, for
/// the price of `feed_id` no older than `maximum_age` seconds. It refuses an
/// update that is not fully verified, then one of another feed, then one
/// published more than `maximum_age` before `unix_timestamp`.
pub open spec fn price_query(
    update: PriceUpdate,
    unix_timestamp: i64,
    maximum_age: u64,
    feed_id: Seq<u8>,
) -> Result<Price, OracleError> {
    if !(update.verification_level is Full) {
        Err(OracleError::InsufficientVerificationLevel)
    } else if update.feed_id@ != feed_id {
        Err(OracleError::MismatchedFeedId)
    } else if update.publish_time + maximum_age < unix_timestamp {
        Err(OracleError::PriceTooOld)
    } else {
        Ok(Price { price: update.price, exponent: update.exponent })
    }
}

/// Reads bytes as text with `std::str::from_utf8`.
///
/// Believed of it: it yields text exactly when the bytes are well-formed
/// UTF-8, and the text then consists of those very bytes.
#[verifier::external_body]
fn text_of(bytes: &[u8]) -> (text: Option<&str>)
    ensures
        text is Some <==> valid_utf8(bytes@),
        text is Some ==> text.unwrap().spec_bytes() == bytes@,
{
    std::str::from_utf8(bytes).ok()
}

/// Decodes a feed identifier with the receiver SDK's `get_feed_id_from_hex`.
///
/// Believed of it: a text of 64 bytes is decoded as hexadecimal digits of
/// either case, a text of 66 bytes likewise after its first two bytes, and
/// every other text, or one with another byte among the digits, is refused.
/// The SDK cuts a 66-byte text after its second byte, so that place must not
/// lie inside a character.
#[verifier::external_body]
fn feed_id_from_hex(text: &str) -> (feed: Option<[u8; 32]>)
    requires
        text.spec_bytes().len() == 66 ==> is_char_boundary(text.spec_bytes(), 2),
    ensures
        feed is Some <==> feed_id_of_text(text.spec_bytes()) is Some,
        feed is Some ==> feed.unwrap()@ == feed_id_of_text(text.spec_bytes()).unwrap(),
{
    get_feed_id_from_hex(text).ok()
}

/// Asks a price update for its price through the receiver SDK's
/// `PriceUpdateV2::get_price_no_older_than`, with a clock that shows
/// `unix_timestamp`. The account that is asked holds the update's fields;
/// what the query does not read of an account is left at zero.
///
/// Believed of it: it answers as `price_query` says, and a refusal comes back
/// as the number the SDK gives that error in its `GetPriceError`. The SDK
/// turns `maximum_age` into a signed number, so it must fit one.
#[verifier::external_body]
fn price_no_older_than(
    update: &PriceUpdate,
    unix_timestamp: i64,
    maximum_age: u64,
    feed_id: &[u8; 32],
) -> (answer: Result<Price, u32>)
    requires
        maximum_age <= i64::MAX,
    ensures
        match price_query(*update, unix_timestamp, maximum_age, feed_id@) {
            Ok(price) => answer == Ok::<Price, u32>(price),
            Err(refusal) => answer == Err::<Price, u32>(refusal.code()),
        },
{
    let verification_level = match update.verification_level {
        VerificationLevel::Partial { num_signatures } => pyth_solana_receiver_sdk::price_update::VerificationLevel::Partial { num_signatures },
        VerificationLevel::Full => pyth_solana_receiver_sdk::price_update::VerificationLevel::Full,
    };
    let price_message = PriceFeedMessage { feed_id: update.feed_id, price: update.price, conf: 0, exponent: update.exponent, publish_time: update.publish_time, prev_publish_time: 0, ema_price: 0, ema_conf: 0 };
    let account = PriceUpdateV2 { write_authority: Pubkey::default(), verification_level, price_message, posted_slot: 0 };
    let clock = Clock { unix_timestamp, ..Clock::default() };
    match account.get_price_no_older_than(&clock, maximum_age, feed_id) {
        Ok(found) => Ok(Price { price: found.price, exponent: found.exponent }),
        Err(refusal) => Err(refusal as u32),
    }
}

/// Ten to the power `digits`.
pub open spec fn power_of_ten(digits: nat) -> nat
    decreases digits,
{
    if digits == 0 {
        1
    } else {
        10 * power_of_ten((digits - 1) as nat)
    }
}

/// The oracle's signed price read as an unsigned number of 64 bits: itself
/// where it is not negative, and 2^64 more than itself where it is.
pub open spec fn unsigned_price(price: i64) -> int {
    if price >= 0 {
        price as int
    } else {
        price + 0x1_0000_0000_0000_0000
    }
}

/// The number of decimal places an exponent shifts by.
pub open spec fn shift_of(exponent: i32) -> nat {
    if exponent >= 0 {
        exponent as nat
    } else {
        (-exponent) as nat
    }
}

/// The oracle's price in the market's unit. With a negative exponent the
/// price is multiplied by ten to the power of its size, with any other it is
/// divided, rounding down, by ten to its power. Where that power of ten or
/// the product is more than 64 bits hold, there is no price.
pub open spec fn adjusted_price(price: i64, exponent: i32) -> Option<u64> {
    let scale = power_of_ten(shift_of(exponent));
    if scale > u64::MAX {
        None
    } else if exponent < 0 {
        if unsigned_price(price) * scale > u64::MAX {
            None
        } else {
            Some((unsigned_price(price) * scale) as u64)
        }
    } else {
        Some((unsigned_price(price) / (scale as int)) as u64)
    }
}

/// A higher power of ten is a larger number.
pub proof fn power_of_ten_grows(low: nat, high: nat)
    requires
        low <= high,
    ensures
        1 <= power_of_ten(low) <= power_of_ten(high),
    decreases high,
{
    if low < high {
        power_of_ten_grows(low, (high - 1) as nat);
    } else if low > 0 {
        power_of_ten_grows((low - 1) as nat, (high - 1) as nat);
    }
}

/// Computes ten to the power `digits`, if 64 bits hold it.
fn ten_to_the(digits: u32) -> (scale: Option<u64>)
    ensures
        scale is Some <==> power_of_ten(digits as nat) <= u64::MAX,
        scale is Some ==> scale.unwrap() == power_of_ten(digits as nat),
{
    let mut scale: u64 = 1;
    let mut done: u32 = 0;
    while done < digits
        invariant
            done <= digits,
            scale == power_of_ten(done as nat),
        decreases digits - done,
    {
        match scale.checked_mul(10) {
            None => {
                proof {
                    power_of_ten_grows((done + 1) as nat, digits as nat);
                }
                return None;
            },
            Some(next) => {
                scale = next;
            },
        }
        done += 1;
    }
    Some(scale)
}

/// Brings the oracle's price to the market's unit.
pub fn adjust_price(price: i64, exponent: i32) -> (adjusted: Result<u64, MarketError>)
    ensures
        match adjusted_price(price, exponent) {
            Some(value) => adjusted == Ok::<u64, MarketError>(value),
            None => adjusted == Err::<u64, MarketError>(MarketError::PriceAdjustmentOverflow),
        },
{
    let raw: u64 = if price >= 0 {
        price as u64
    } else {
        (price as i128 + 0x1_0000_0000_0000_0000i128) as u64
    };
    let shift: u32 = if exponent >= 0 {
        exponent as u32
    } else {
        (-(exponent as i64)) as u32
    };
    match ten_to_the(shift) {
        None => Err(MarketError::PriceAdjustmentOverflow),
        Some(scale) => {
            proof {
                power_of_ten_grows(0, shift as nat);
            }
            if exponent < 0 {
                match raw.checked_mul(scale) {
                    None => Err(MarketError::PriceAdjustmentOverflow),
                    Some(value) => Ok(value),
                }
            } else {
                Ok(raw / scale)
            }
        },
    }
}

/// Finds the feed that a market's buffer names.
pub fn decode_feed_id(buffer: &[u8; 66]) -> (feed: Result<[u8; 32], MarketError>)
    ensures
        match feed_id_of_buffer(buffer@) {
            Ok(bytes) => feed is Ok && feed.unwrap()@ == bytes,
            Err(error) => feed == Err::<[u8; 32], MarketError>(error),
        },
{
    match text_of(buffer) {
        None => Err(MarketError::InvalidUtf8),
        Some(text) => {
            if !text.is_char_boundary(2) {
                // The third byte continues a character, so it is no digit.
                proof {
                    is_char_boundary_iff_not_is_continuation_byte(buffer@, 2);
                    assert(buffer@.subrange(2, 66)[0] == buffer@[2]);
                }
                return Err(MarketError::InvalidFeedId);
            }
            match feed_id_from_hex(text) {
                None => Err(MarketError::InvalidFeedId),
                Some(feed) => Ok(feed),
            }
        },
    }
}

/// Asks a price update for the price of `feed_id`, no older than
/// `MAXIMUM_PRICE_AGE` seconds at `unix_timestamp`.
pub fn observe_price(update: &PriceUpdate, unix_timestamp: i64, feed_id: &[u8; 32]) -> (answer:
    Result<Price, OracleError>)
    ensures
        answer == price_query(*update, unix_timestamp, MAXIMUM_PRICE_AGE, feed_id@),
{
    match price_no_older_than(update, unix_timestamp, MAXIMUM_PRICE_AGE, feed_id) {
        Ok(price) => Ok(price),
        Err(code) => Err(OracleError::from_code(code)),
    }
}

} // verus!
