//! Where the records live: every record's address is derived from a tuple
//! of seeds, and this module says which.

use vstd::prelude::*;
use vstd::bytes::{lemma_auto_spec_u64_to_from_le_bytes, spec_u64_to_le_bytes, u64_to_le_bytes};
use vstd::slice::slice_to_vec;
use vstd::string::StringSliceAdditionalSpecFns;
use crate::constants::{BET_SEED, HIGHER_POOL_SEED, LOWER_POOL_SEED};
use crate::state::{Direction, Identity};

verus! {

/// The SHA-256 digest of `data`.
pub uninterp spec fn sha256(data: Seq<u8>) -> Seq<u8>;

/// Hashes `data` with `solana_sha256_hasher::hash`, to bring a seed of any
/// length down to the 32 bytes a seed may have.
///
/// Believed of it: the 32 bytes are the SHA-256 digest of `data`, the same
/// for the same bytes wherever it is computed.
#[verifier::external_body]
pub fn hash_to_bytes(data: &[u8]) -> (digest: [u8; 32])
    ensures
        digest@ == sha256(data@),
{
    solana_sha256_hasher::hash(data).to_bytes()
}

/// The seeds of a market's address: its creator, the digest of its feed
/// identifier, and its target price and its duration as eight bytes each,
/// the lowest first.
pub open spec fn market_seed_tuple(
    creator: Identity,
    feed_digest: Seq<u8>,
    target_price: u64,
    market_duration: u64,
) -> Seq<Seq<u8>> {
    seq![
        creator.bytes@,
        feed_digest,
        spec_u64_to_le_bytes(target_price),
        spec_u64_to_le_bytes(market_duration),
    ]
}

/// The first seed of the pool that takes stakes on `direction`.
pub open spec fn pool_tag(direction: Direction) -> Seq<u8> {
    match direction {
        Direction::Higher => HIGHER_POOL_SEED.spec_bytes(),
        Direction::Lower => LOWER_POOL_SEED.spec_bytes(),
    }
}

/// The seeds of a pool's address: its tag and the market's address.
pub open spec fn pool_seed_tuple(direction: Direction, market_key: Identity) -> Seq<Seq<u8>> {
    seq![pool_tag(direction), market_key.bytes@]
}

/// The seeds of a ticket's address: the ticket tag, the holder, the market,
/// the stake as eight bytes, the lowest first, and the direction's byte. Two
/// stakes of one holder, of one size and on one direction in one market,
/// share an address.
pub open spec fn bet_seed_tuple(
    user: Identity,
    market_key: Identity,
    amount: u64,
    direction: Direction,
) -> Seq<Seq<u8>> {
    seq![
        BET_SEED.spec_bytes(),
        user.bytes@,
        market_key.bytes@,
        spec_u64_to_le_bytes(amount),
        seq![direction.tag()],
    ]
}

/// Two tickets share their seeds, and with them their address, exactly when
/// they agree in holder, market, stake and direction.
pub proof fn bet_seeds_tell_stakes_apart(
    user: Identity,
    market_key: Identity,
    amount: u64,
    direction: Direction,
    other_user: Identity,
    other_market_key: Identity,
    other_amount: u64,
    other_direction: Direction,
)
    ensures
        bet_seed_tuple(user, market_key, amount, direction) == bet_seed_tuple(
            other_user,
            other_market_key,
            other_amount,
            other_direction,
        ) <==> user == other_user && market_key == other_market_key && amount == other_amount
            && direction == other_direction,
{
    let one = bet_seed_tuple(user, market_key, amount, direction);
    let other = bet_seed_tuple(other_user, other_market_key, other_amount, other_direction);
    if one == other {
        assert(one[1] == other[1]);
        assert(user.bytes =~= other_user.bytes);
        assert(one[2] == other[2]);
        assert(market_key.bytes =~= other_market_key.bytes);
        assert(one[3] == other[3]);
        lemma_auto_spec_u64_to_from_le_bytes();
        assert(one[4] == other[4]);
        assert(one[4][0] == other[4][0]);
    }
}

/// Two markets share their seeds exactly when they agree in creator, in the
/// digest of their feed identifier, in target price and in duration.
pub proof fn market_seeds_tell_markets_apart(
    creator: Identity,
    feed_digest: Seq<u8>,
    target_price: u64,
    market_duration: u64,
    other_creator: Identity,
    other_feed_digest: Seq<u8>,
    other_target_price: u64,
    other_market_duration: u64,
)
    ensures
        market_seed_tuple(creator, feed_digest, target_price, market_duration)
            == market_seed_tuple(
            other_creator,
            other_feed_digest,
            other_target_price,
            other_market_duration,
        ) <==> creator == other_creator && feed_digest == other_feed_digest && target_price
            == other_target_price && market_duration == other_market_duration,
{
    let one = market_seed_tuple(creator, feed_digest, target_price, market_duration);
    let other = market_seed_tuple(
        other_creator,
        other_feed_digest,
        other_target_price,
        other_market_duration,
    );
    if one == other {
        assert(one[0] == other[0]);
        assert(creator.bytes =~= other_creator.bytes);
        assert(one[1] == other[1]);
        assert(one[2] == other[2]);
        assert(one[3] == other[3]);
        lemma_auto_spec_u64_to_from_le_bytes();
    }
}

/// Builds the seeds of a market's address from the digest of its feed
/// identifier.
pub fn market_seeds_with_digest(
    creator: &Identity,
    feed_digest: &[u8; 32],
    target_price: u64,
    market_duration: u64,
) -> (seeds: Vec<Vec<u8>>)
    ensures
        seeds.deep_view() == market_seed_tuple(
            *creator,
            feed_digest@,
            target_price,
            market_duration,
        ),
{
    let mut seeds: Vec<Vec<u8>> = Vec::new();
    seeds.push(slice_to_vec(&creator.bytes));
    seeds.push(slice_to_vec(feed_digest));
    seeds.push(u64_to_le_bytes(target_price));
    seeds.push(u64_to_le_bytes(market_duration));
    assert(seeds.deep_view() =~~= market_seed_tuple(
        *creator,
        feed_digest@,
        target_price,
        market_duration,
    ));
    seeds
}

/// Builds the seeds of a market's address. The feed identifier is hashed,
/// being longer than a seed may be.
pub fn market_seeds(
    creator: &Identity,
    feed_id: &[u8],
    target_price: u64,
    market_duration: u64,
) -> (seeds: Vec<Vec<u8>>)
    ensures
        seeds.deep_view() == market_seed_tuple(
            *creator,
            sha256(feed_id@),
            target_price,
            market_duration,
        ),
{
    let digest = hash_to_bytes(feed_id);
    market_seeds_with_digest(creator, &digest, target_price, market_duration)
}

/// Builds the seeds of the address of the pool that takes stakes on
/// `direction`.
pub fn pool_seeds(direction: Direction, market_key: &Identity) -> (seeds: Vec<Vec<u8>>)
    ensures
        seeds.deep_view() == pool_seed_tuple(direction, *market_key),
{
    let tag = match direction {
        Direction::Higher => HIGHER_POOL_SEED,
        Direction::Lower => LOWER_POOL_SEED,
    };
    let mut seeds: Vec<Vec<u8>> = Vec::new();
    seeds.push(slice_to_vec(tag.as_bytes()));
    seeds.push(slice_to_vec(&market_key.bytes));
    assert(seeds.deep_view() =~~= pool_seed_tuple(direction, *market_key));
    seeds
}

/// Builds the seeds of a ticket's address.
pub fn bet_seeds(user: &Identity, market_key: &Identity, amount: u64, direction: Direction) -> (seeds:
    Vec<Vec<u8>>)
    ensures
        seeds.deep_view() == bet_seed_tuple(*user, *market_key, amount, direction),
{
    let mut tag: Vec<u8> = Vec::new();
    tag.push(direction.to_u8());
    let mut seeds: Vec<Vec<u8>> = Vec::new();
    seeds.push(slice_to_vec(BET_SEED.as_bytes()));
    seeds.push(slice_to_vec(&user.bytes));
    seeds.push(slice_to_vec(&market_key.bytes));
    seeds.push(u64_to_le_bytes(amount));
    seeds.push(tag);
    assert(seeds.deep_view() =~~= bet_seed_tuple(*user, *market_key, amount, direction));
    seeds
}

} // verus!
