//! Token movements that a custody operation asks for.

use vstd::prelude::*;
use crate::address::Address;

verus! {

/// Which way tokens move relative to custody.
#[derive(Clone, Copy, Debug, PartialEq, Eq, Structural)]
pub enum Direction {
    /// From the party into custody.
    IntoCustody,
    /// Out of custody to the party.
    OutOfCustody,
}

/// One movement of the settlement token that goes with a successful custody
/// operation. The operation has updated the books; whoever runs it moves the
/// tokens, and lets the whole call fail if the movement fails.
#[derive(Clone, Copy, Debug, PartialEq, Eq, Structural)]
pub struct Transfer {
    pub token: Address,
    pub direction: Direction,
    pub party: Address,
    pub amount: i128,
}

impl Transfer {
    /// `amount` of `token` from `from` into custody.
    pub open spec fn spec_deposit(token: Address, from: Address, amount: i128) -> Transfer {
        Transfer { token, direction: Direction::IntoCustody, party: from, amount }
    }

    /// `amount` of `token` out of custody to `to`.
    pub open spec fn spec_payout(token: Address, to: Address, amount: i128) -> Transfer {
        Transfer { token, direction: Direction::OutOfCustody, party: to, amount }
    }

    /// `amount` of `token` from `from` into custody.
    pub fn deposit(token: Address, from: Address, amount: i128) -> (t: Transfer)
        ensures
            t == Transfer::spec_deposit(token, from, amount),
    {
        Transfer { token, direction: Direction::IntoCustody, party: from, amount }
    }

    /// `amount` of `token` out of custody to `to`.
    pub fn payout(token: Address, to: Address, amount: i128) -> (t: Transfer)
        ensures
            t == Transfer::spec_payout(token, to, amount),
    {
        Transfer { token, direction: Direction::OutOfCustody, party: to, amount }
    }
}

} // verus!
