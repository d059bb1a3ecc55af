//! What an operation asks of the ledger. The library moves no value itself:
//! it names the transfers and closures that belong to an operation, and the
//! caller has the ledger carry them out, all or none.

use vstd::prelude::*;
use crate::state::{Direction, Identity};

verus! {

/// A balance of the market's asset that a transfer takes from or adds to.
#[derive(Clone, Copy, Debug, PartialEq, Eq)]
pub enum Account {
    /// The escrow pool that takes the stakes on one direction.
    Pool(Direction),
    /// A participant's own account.
    Wallet(Identity),
}

/// Who stands behind a transfer.
#[derive(Clone, Copy, Debug, PartialEq, Eq)]
pub enum Authority {
    /// A participant, who has to sign.
    Signer(Identity),
    /// The market record itself, the only authority over its pools.
    Market,
}

/// One move of value.
#[derive(Clone, Copy, Debug, PartialEq, Eq)]
pub struct Transfer {
    pub from: Account,
    pub to: Account,
    pub authority: Authority,
    pub amount: u64,
}

/// A record that an operation does away with.
#[derive(Clone, Copy, Debug, PartialEq, Eq, Structural)]
pub enum Record {
    Market,
    Pool(Direction),
    Ticket,
}

/// The closing of a record; what was deposited for its storage goes to
/// `destination`.
#[derive(Clone, Copy, Debug, PartialEq, Eq)]
pub struct Closure {
    pub record: Record,
    pub destination: Identity,
}

impl Transfer {
    /// A participant pays `amount` into the pool of `direction`, and signs
    /// for it.
    pub open spec fn deposit(payer: Identity, direction: Direction, amount: u64) -> Transfer {
        Transfer {
            from: Account::Wallet(payer),
            to: Account::Pool(direction),
            authority: Authority::Signer(payer),
            amount,
        }
    }

    /// The pool of `direction` pays `amount` to a participant, on the
    /// market's authority.
    pub open spec fn withdrawal(direction: Direction, payee: Identity, amount: u64) -> Transfer {
        Transfer {
            from: Account::Pool(direction),
            to: Account::Wallet(payee),
            authority: Authority::Market,
            amount,
        }
    }

    /// Names the payment of `amount` into the pool of `direction` by `payer`.
    pub fn into_pool(payer: &Identity, direction: Direction, amount: u64) -> (transfer: Transfer)
        ensures
            transfer == Transfer::deposit(*payer, direction, amount),
    {
        Transfer {
            from: Account::Wallet(*payer),
            to: Account::Pool(direction),
            authority: Authority::Signer(*payer),
            amount,
        }
    }

    /// Names the payment of `amount` out of the pool of `direction` to
    /// `payee`.
    pub fn out_of_pool(direction: Direction, payee: &Identity, amount: u64) -> (transfer: Transfer)
        ensures
            transfer == Transfer::withdrawal(direction, *payee, amount),
    {
        Transfer {
            from: Account::Pool(direction),
            to: Account::Wallet(*payee),
            authority: Authority::Market,
            amount,
        }
    }
}

} // verus!
