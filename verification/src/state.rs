use vstd::prelude::*;
use crate::constants::MINIMUM_MARKET_DURATION;

verus! {

/// The 32 bytes by which the ledger names an account or a signer.
#[derive(Clone, Copy, Debug)]
pub struct Identity {
    pub bytes: [u8; 32],
}

impl PartialEq for Identity {
    fn eq(&self, other: &Self) -> (same: bool) {
        let mut i: usize = 0;
        while i < 32
            invariant
                i <= 32,
                forall|j: int| 0 <= j < i ==> self.bytes[j] == other.bytes[j],
            decreases 32 - i,
        {
            if self.bytes[i] != other.bytes[i] {
                return false;
            }
            i += 1;
        }
        assert(self.bytes =~= other.bytes);
        true
    }
}

impl Eq for Identity {

}

impl vstd::std_specs::cmp::PartialEqSpecImpl for Identity {
    open spec fn obeys_eq_spec() -> bool {
        true
    }

    open spec fn eq_spec(&self, other: &Self) -> bool {
        *self == *other
    }
}

impl Identity {
    /// The identity a record holds before one was written: 32 zero bytes.
    pub open spec fn is_unset(self) -> bool {
        forall|i: int| 0 <= i < 32 ==> self.bytes[i] == 0
    }

    /// The identity a record holds before one was written: 32 zero bytes.
    pub fn unset() -> (id: Identity)
        ensures
            id.is_unset(),
    {
        Identity { bytes: [0u8;32] }
    }
}

/// The side of the target price a ticket bets on.
#[derive(Clone, Copy, Debug, PartialEq, Eq, Structural)]
pub enum Direction {
    Higher,
    Lower,
}

impl Direction {
    /// The byte that stands for this direction in a ticket's address.
    pub open spec fn tag(self) -> u8 {
        match self {
            Direction::Higher => 0,
            Direction::Lower => 1,
        }
    }

    /// The other side.
    pub open spec fn opposite(self) -> Direction {
        match self {
            Direction::Higher => Direction::Lower,
            Direction::Lower => Direction::Higher,
        }
    }

    /// The byte that stands for this direction in a ticket's address: 0 for
    /// `Higher`, 1 for `Lower`.
    pub fn to_u8(&self) -> (tag: u8)
        ensures
            tag == self.tag(),
    {
        match self {
            Direction::Higher => 0,
            Direction::Lower => 1,
        }
    }

    /// The direction a tag byte stands for, if any.
    pub fn from_u8(tag: u8) -> (direction: Option<Direction>)
        ensures
            tag == 0 ==> direction == Some(Direction::Higher),
            tag == 1 ==> direction == Some(Direction::Lower),
            tag > 1 ==> direction is None,
    {
        if tag == 0 {
            Some(Direction::Higher)
        } else if tag == 1 {
            Some(Direction::Lower)
        } else {
            None
        }
    }
}

/// How far a market has been set up. It only ever moves forward, from
/// `InitializedMarket` to `InitializedPools`.
#[derive(Clone, Copy, Debug, PartialEq, Eq, Structural)]
pub enum MarketInitialization {
    InitializedMarket,
    InitializedPools,
}

/// A market: its configuration, its timing and what settles it.
#[derive(Clone, Copy, Debug, PartialEq, Eq)]
pub struct Market {
    /// Who may open the pools, finalize and cancel.
    pub creator: Identity,
    /// The price a ticket bets to end above or below.
    pub target_price: u64,
    /// The slot at which the market was created.
    pub start_time: u64,
    /// Length of the betting window, in slots.
    pub market_duration: u64,
    /// Salt of the market's own address.
    pub bump: u8,
    /// The asset both pools hold; written when the pools are opened.
    pub mint: Identity,
    /// Salt of the higher pool's address.
    pub higher_pool_bump: u8,
    /// The price the market settled at; written once, by the first claim.
    pub final_price: Option<u64>,
    /// Salt of the lower pool's address.
    pub lower_pool_bump: u8,
    /// The oracle feed, as text: "0x" and 64 hexadecimal digits.
    pub feed_id: [u8; 66],
    pub initialization: MarketInitialization,
}

impl Market {
    /// What holds of every market that the operations hand out: its window
    /// is at least the minimum, and only a market with pools has a final
    /// price.
    pub open spec fn wf(self) -> bool {
        &&& self.market_duration >= MINIMUM_MARKET_DURATION
        &&& self.initialization == MarketInitialization::InitializedMarket
            ==> self.final_price is None
    }

    /// The last slot of the betting window, `start_time + market_duration`.
    /// A claim needs a slot strictly after it.
    pub open spec fn deadline(self) -> int {
        self.start_time + self.market_duration
    }

    /// This market with the fields that opening the pools writes.
    pub open spec fn with_pools(self, mint: Identity, higher_pool_bump: u8, lower_pool_bump: u8) -> Market {
        Market {
            mint,
            higher_pool_bump,
            lower_pool_bump,
            initialization: MarketInitialization::InitializedPools,
            ..self
        }
    }

    /// This market settled at `price`.
    pub open spec fn settled_at(self, price: u64) -> Market {
        Market { final_price: Some(price), ..self }
    }
}

/// A ticket: one stake on one direction, at the odds of the moment it was
/// placed.
#[derive(Clone, Copy, Debug, PartialEq, Eq)]
pub struct Bet {
    pub user: Identity,
    pub market: Identity,
    /// The stake; zero once the ticket was claimed.
    pub amount: u64,
    pub direction: Direction,
    pub claimed: bool,
    /// Salt of the ticket's address.
    pub bump: u8,
    /// True from placement until the claim.
    pub initialized: bool,
    /// Payout per unit staked, scaled by `ODDS_FIXED_POINT_MULTIPLIER`.
    pub odds: u64,
    /// Whether the ticket won; it says nothing before the claim.
    pub is_won: bool,
}

/// What the ledger holds for a market's two escrow pools.
#[derive(Clone, Copy, Debug, PartialEq, Eq, Structural)]
pub struct Pools {
    pub higher: u64,
    pub lower: u64,
}

impl Pools {
    /// The balance of the pool that takes stakes on `direction`.
    pub open spec fn balance(self, direction: Direction) -> u64 {
        match direction {
            Direction::Higher => self.higher,
            Direction::Lower => self.lower,
        }
    }

    /// What both pools hold together.
    pub open spec fn total(self) -> int {
        self.higher + self.lower
    }
}

} // verus!
