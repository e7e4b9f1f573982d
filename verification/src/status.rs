//! The custody states of an escrow record and the moves between them.

use vstd::prelude::*;

verus! {

/// The custody state of one escrow record.
///
/// A record starts `Locked`. `Released` and `Refunded` are terminal: nothing
/// leaves them. `PartiallyReleased` stands for a record of which a part was
/// paid out and a part is still held.
#[derive(Clone, Copy, Debug, PartialEq, Eq, Structural)]
pub enum EscrowStatus {
    Locked,
    Released,
    Refunded,
    PartiallyReleased,
}

impl EscrowStatus {
    /// Terminal states: `Released` and `Refunded`.
    pub open spec fn spec_is_terminal(self) -> bool {
        self is Released || self is Refunded
    }

    /// States from which funds can be released: `Locked` and
    /// `PartiallyReleased`.
    pub open spec fn spec_can_release(self) -> bool {
        self is Locked || self is PartiallyReleased
    }

    /// States from which funds can be refunded: `Locked` only, since a refund
    /// after any release is invalid.
    pub open spec fn spec_can_refund(self) -> bool {
        self is Locked
    }

    /// The legal moves of a record: from `Locked` to any other state, and from
    /// `PartiallyReleased` to itself or to `Released`.
    pub open spec fn spec_can_become(self, next: EscrowStatus) -> bool {
        match self {
            EscrowStatus::Locked => !(next is Locked),
            EscrowStatus::PartiallyReleased => next is PartiallyReleased || next is Released,
            EscrowStatus::Released => false,
            EscrowStatus::Refunded => false,
        }
    }

    /// Whether this state is terminal.
    pub fn is_terminal(&self) -> (b: bool)
        ensures
            b == self.spec_is_terminal(),
    {
        match self {
            EscrowStatus::Released => true,
            EscrowStatus::Refunded => true,
            _ => false,
        }
    }

    /// Whether funds can be released from a record in this state.
    pub fn can_release(&self) -> (b: bool)
        ensures
            b == self.spec_can_release(),
    {
        match self {
            EscrowStatus::Locked => true,
            EscrowStatus::PartiallyReleased => true,
            _ => false,
        }
    }

    /// Whether a record in this state can be refunded.
    pub fn can_refund(&self) -> (b: bool)
        ensures
            b == self.spec_can_refund(),
    {
        match self {
            EscrowStatus::Locked => true,
            _ => false,
        }
    }

    /// Whether a record in this state may move to `next`.
    pub fn can_become(&self, next: EscrowStatus) -> (b: bool)
        ensures
            b == self.spec_can_become(next),
    {
        match self {
            EscrowStatus::Locked => match next {
                EscrowStatus::Locked => false,
                _ => true,
            },
            EscrowStatus::PartiallyReleased => match next {
                EscrowStatus::PartiallyReleased => true,
                EscrowStatus::Released => true,
                _ => false,
            },
            _ => false,
        }
    }
}

/// Nothing leaves a terminal state, and every state that can release or
/// refund is not terminal.
pub proof fn lemma_terminal_states_are_final(s: EscrowStatus, next: EscrowStatus)
    ensures
        s.spec_is_terminal() ==> !s.spec_can_become(next),
        s.spec_is_terminal() ==> !s.spec_can_release() && !s.spec_can_refund(),
        s.spec_can_release() ==> s.spec_can_become(EscrowStatus::Released),
        s.spec_can_refund() ==> s.spec_can_become(EscrowStatus::Refunded),
{
}

} // verus!
