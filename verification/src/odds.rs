use vstd::prelude::*;
use crate::constants::ODDS_FIXED_POINT_MULTIPLIER;
use crate::state::{Bet, Direction, Pools};

verus! {

/// The odds of a ticket on a pool that holds `backing` against a pool that
/// holds `opposing`, both taken after the stake has landed: the opposing
/// balance over the backed one, in fixed point, or 1.0 against an empty pool.
pub open spec fn odds_of(opposing: u64, backing: u64) -> int
    recommends
        opposing == 0 || backing > 0,
{
    if opposing == 0 {
        ODDS_FIXED_POINT_MULTIPLIER as int
    } else {
        (opposing * ODDS_FIXED_POINT_MULTIPLIER) / (backing as int)
    }
}

/// What a winning ticket pays: `amount` at `odds`, rounded down.
pub open spec fn payout_of(amount: u64, odds: u64) -> int {
    (amount * odds) / (ODDS_FIXED_POINT_MULTIPLIER as int)
}

impl Bet {
    /// The ticket's payout, should it win, is an amount the ledger can hold.
    /// Every ticket that `place_bet` writes has this.
    pub open spec fn payout_fits(self) -> bool {
        payout_of(self.amount, self.odds) <= u64::MAX
    }

    /// What holds of every ticket that the operations hand out: its payout
    /// fits, it is either open or claimed, and a claimed ticket is empty.
    pub open spec fn wf(self) -> bool {
        &&& self.payout_fits()
        &&& self.claimed <==> !self.initialized
        &&& self.claimed ==> self.amount == 0
    }

    /// Tells whether the ticket's payout, should it win, is an amount the
    /// ledger can hold.
    pub fn can_be_paid(&self) -> (payable: bool)
        ensures
            payable == self.payout_fits(),
    {
        assert(self.amount * self.odds <= u64::MAX * u64::MAX) by (nonlinear_arith)
            requires
                self.amount <= u64::MAX,
                self.odds <= u64::MAX,
        ;
        let product: u128 = (self.amount as u128) * (self.odds as u128);
        product / (ODDS_FIXED_POINT_MULTIPLIER as u128) <= u64::MAX as u128
    }
}

impl Pools {
    /// The pools after `amount` has landed in the pool of `direction`.
    pub open spec fn credited(self, direction: Direction, amount: u64) -> Pools
        recommends
            self.balance(direction) + amount <= u64::MAX,
    {
        match direction {
            Direction::Higher => Pools { higher: (self.higher + amount) as u64, ..self },
            Direction::Lower => Pools { lower: (self.lower + amount) as u64, ..self },
        }
    }

    /// The odds a ticket on `direction` gets from these balances.
    pub open spec fn odds(self, direction: Direction) -> int {
        odds_of(self.balance(direction.opposite()), self.balance(direction))
    }

    /// Whether a stake of `amount` on `direction` can be taken: the pool's new
    /// balance and the ticket's odds are numbers that 64 bits hold, and the
    /// odds are defined at all (against a pool that is not empty, the backed
    /// pool must not be empty either).
    pub open spec fn accepts(self, amount: u64, direction: Direction) -> bool {
        &&& self.balance(direction) + amount <= u64::MAX
        &&& self.balance(direction.opposite()) == 0 || self.balance(direction) + amount > 0
        &&& self.credited(direction, amount).odds(direction) <= u64::MAX
    }

    /// Tells whether a stake of `amount` on `direction` can be taken.
    pub fn accepts_bet(&self, amount: u64, direction: Direction) -> (accepted: bool)
        ensures
            accepted == self.accepts(amount, direction),
    {
        let (backing, opposing) = match direction {
            Direction::Higher => (self.higher, self.lower),
            Direction::Lower => (self.lower, self.higher),
        };
        match backing.checked_add(amount) {
            None => false,
            Some(after) => {
                if opposing == 0 {
                    true
                } else if after == 0 {
                    false
                } else {
                    let scaled: u128 = (opposing as u128) * (ODDS_FIXED_POINT_MULTIPLIER as u128);
                    scaled / (after as u128) <= u64::MAX as u128
                }
            },
        }
    }
}

/// Computes the odds of a ticket from the two balances as they stand once the
/// stake has landed.
pub fn compute_odds(opposing: u64, backing: u64) -> (odds: u64)
    requires
        opposing == 0 || backing > 0,
        odds_of(opposing, backing) <= u64::MAX,
    ensures
        odds == odds_of(opposing, backing),
{
    if opposing == 0 {
        ODDS_FIXED_POINT_MULTIPLIER
    } else {
        let scaled: u128 = (opposing as u128) * (ODDS_FIXED_POINT_MULTIPLIER as u128);
        (scaled / (backing as u128)) as u64
    }
}

/// Computes what a winning ticket of `amount` at `odds` pays.
pub fn compute_payout(amount: u64, odds: u64) -> (payout: u64)
    requires
        payout_of(amount, odds) <= u64::MAX,
    ensures
        payout == payout_of(amount, odds),
{
    assert(amount * odds <= u64::MAX * u64::MAX) by (nonlinear_arith)
        requires
            amount <= u64::MAX,
            odds <= u64::MAX,
    ;
    let product: u128 = (amount as u128) * (odds as u128);
    (product / (ODDS_FIXED_POINT_MULTIPLIER as u128)) as u64
}

/// Against an empty pool a ticket gets exactly 1.0.
pub proof fn odds_against_empty_pool(backing: u64)
    ensures
        odds_of(0, backing) == 1_000_000,
{
}

/// A stake that is part of the pool it backs never pays more than the
/// opposing pool holds, and against an empty pool it pays the stake back; so
/// the payout is always an amount the ledger can hold.
pub proof fn payout_is_covered(amount: u64, opposing: u64, backing: u64)
    requires
        amount <= backing,
        opposing == 0 || backing > 0,
        odds_of(opposing, backing) <= u64::MAX,
    ensures
        opposing == 0 ==> payout_of(amount, odds_of(opposing, backing) as u64) == amount,
        opposing > 0 ==> payout_of(amount, odds_of(opposing, backing) as u64) <= opposing,
        payout_of(amount, odds_of(opposing, backing) as u64) <= u64::MAX,
{
    let scale = ODDS_FIXED_POINT_MULTIPLIER as int;
    if opposing == 0 {
        assert((amount * scale) / scale == amount) by (nonlinear_arith)
            requires
                scale > 0,
        ;
    } else {
        let odds = (opposing * scale) / (backing as int);
        assert(odds * backing <= opposing * scale) by (nonlinear_arith)
            requires
                odds == (opposing * scale) / (backing as int),
                backing > 0,
                opposing * scale >= 0,
        ;
        assert(amount * odds <= opposing * scale) by (nonlinear_arith)
            requires
                odds * backing <= opposing * scale,
                0 <= amount <= backing,
                odds >= 0,
        ;
        assert(odds >= 0) by (nonlinear_arith)
            requires
                odds == (opposing * scale) / (backing as int),
                backing > 0,
                opposing * scale >= 0,
        ;
        assert((amount * odds) / scale <= opposing) by (nonlinear_arith)
            requires
                amount * odds <= opposing * scale,
                scale > 0,
        ;
    }
}

} // verus!
