//! Identities and the per-call environment, as the plain values that the
//! protocol reads.

use vstd::prelude::*;

verus! {

/// What an [`Address`] names: a user account or a deployed contract.
#[derive(Clone, Copy, Debug, PartialEq, Eq, Structural)]
pub enum AddressKind {
    Account,
    Contract,
}

/// An identity: who deposits, who is paid, who administers.
///
/// It is a kind and a 32-byte key, the key held as its two 128-bit halves,
/// high half first. Two addresses are the same identity exactly when all
/// three fields agree.
#[derive(Clone, Copy, Debug, PartialEq, Eq, Structural)]
pub struct Address {
    pub kind: AddressKind,
    pub hi: u128,
    pub lo: u128,
}

impl Address {
    /// The account identity with the given key halves.
    pub fn account(hi: u128, lo: u128) -> (a: Address)
        ensures
            a == (Address { kind: AddressKind::Account, hi, lo }),
    {
        Address { kind: AddressKind::Account, hi, lo }
    }

    /// The contract identity with the given key halves.
    pub fn contract(hi: u128, lo: u128) -> (a: Address)
        ensures
            a == (Address { kind: AddressKind::Contract, hi, lo }),
    {
        Address { kind: AddressKind::Contract, hi, lo }
    }
}

/// What one invocation knows of its surroundings: the identity that
/// authorised the call, and the ledger time at which it runs.
#[derive(Clone, Copy, Debug, PartialEq, Eq, Structural)]
pub struct Env {
    pub caller: Address,
    pub timestamp: u64,
}

impl Env {
    /// The environment of a call made by `caller` at ledger time `timestamp`.
    pub fn new(caller: Address, timestamp: u64) -> (env: Env)
        ensures
            env == (Env { caller, timestamp }),
    {
        Env { caller, timestamp }
    }
}

} // verus!
