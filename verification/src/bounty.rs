//! The bounty escrow: one deposit per bounty id, held until it is released
//! to a contributor or refunded to the depositor.

use std::collections::HashMap;
use vstd::prelude::*;
use crate::address::{Address, Env};
use crate::admin::{check_admin, transfer_admin_role, AdminManaged};
use crate::bounty_model::{BountyState, EscrowRecord};
use crate::error::CommonError;
use crate::pause::{set_pause_flags, Pausable, PauseFlags};
use crate::status::EscrowStatus;
use crate::transfer::Transfer;
use crate::version::Versioned;

verus! {

broadcast use vstd::std_specs::hash::group_hash_axioms;

/// Custody of single deposits, one per bounty id.
///
/// An implementation says what it holds (`state`), whom its policies admit
/// (`may_release`, `may_refund`) and how much one release pays
/// (`release_share`); the contracts below then fix, for every state and
/// input, what each operation returns and what it leaves behind. A failed
/// operation changes nothing.
pub trait BountyEscrowTrait: Pausable + AdminManaged {
    /// All that the instance holds.
    spec fn state(&self) -> BountyState;

    /// The admin and the pause switches that the control operations speak of
    /// are those of the custody state, and a control operation that leaves
    /// all but the admin, or all but the switches, leaves the rest of the
    /// custody state. Every implementation proves this of itself.
    proof fn lemma_controls_are_of_state(&self, before: &Self)
        ensures
            self.admin() == self.state().admin,
            self.pause_admin() == self.state().admin,
            self.pause_flags() == self.state().flags,
            self.same_but_admin(before) ==> self.state() == (BountyState {
                admin: self.state().admin,
                ..before.state()
            }),
            self.same_but_flags(before) ==> self.state() == (BountyState {
                flags: self.state().flags,
                ..before.state()
            }),
    ;

    /// Whether the release policy of the implementation lets the caller of
    /// `env` release the funds of `bounty_id`.
    spec fn may_release(&self, env: Env, bounty_id: u64) -> bool;

    /// Whether the refund policy of the implementation lets the caller of
    /// `env` refund `bounty_id` at the time of `env`.
    spec fn may_refund(&self, env: Env, bounty_id: u64) -> bool;

    /// How much of what is held for `bounty_id` one release pays. An
    /// implementation without partial releases names all of it.
    spec fn release_share(&self, env: Env, bounty_id: u64) -> i128;

    /// Sets the admin and the settlement token. Works once.
    fn init(&mut self, env: Env, admin: Address, token: Address) -> (r: Result<(), CommonError>)
        ensures
            r == old(self).state().init_result(),
            final(self).state() == old(self).state().after_init(admin, token),
    ;

    /// Locks `amount` for `bounty_id` on behalf of `depositor`, and returns
    /// the deposit to be made.
    fn lock_funds(
        &mut self,
        env: Env,
        bounty_id: u64,
        amount: i128,
        depositor: Address,
        deadline: Option<u64>,
    ) -> (r: Result<Transfer, CommonError>)
        ensures
            r == old(self).state().lock_result(bounty_id, amount, depositor),
            final(self).state() == old(self).state().after_lock(
                bounty_id,
                amount,
                depositor,
                deadline,
            ),
    ;

    /// Releases funds held for `bounty_id` to `contributor`, and returns the
    /// payout to be made.
    fn release_funds(&mut self, env: Env, bounty_id: u64, contributor: Address) -> (r: Result<
        Transfer,
        CommonError,
    >)
        ensures
            r == old(self).state().release_result(
                old(self).may_release(env, bounty_id),
                old(self).release_share(env, bounty_id),
                bounty_id,
                contributor,
            ),
            final(self).state() == old(self).state().after_release(
                old(self).may_release(env, bounty_id),
                old(self).release_share(env, bounty_id),
                bounty_id,
                contributor,
            ),
    ;

    /// Gives what is held for `bounty_id` back to its depositor, and returns
    /// the payout to be made.
    fn refund(&mut self, env: Env, bounty_id: u64) -> (r: Result<Transfer, CommonError>)
        ensures
            r == old(self).state().refund_result(old(self).may_refund(env, bounty_id), bounty_id),
            final(self).state() == old(self).state().after_refund(
                old(self).may_refund(env, bounty_id),
                bounty_id,
            ),
    ;

    /// What is held for `bounty_id`; 0 for an unknown id. Never fails.
    fn get_balance(&self, env: Env, bounty_id: u64) -> (balance: i128)
        ensures
            balance == self.state().balance_of(bounty_id),
    ;

    /// The custody state of `bounty_id`; `None` for an unknown id. Never
    /// fails.
    fn get_status(&self, env: Env, bounty_id: u64) -> (status: Option<EscrowStatus>)
        ensures
            status == self.state().status_of(bounty_id),
    ;
}

/// A bounty escrow that keeps its books in memory. The admin releases, and a
/// release pays all that is held; the admin refunds at any time, and anyone
/// once the deadline has come.
pub struct BountyEscrow {
    admin: Option<Address>,
    token: Option<Address>,
    flags: PauseFlags,
    records: HashMap<u64, EscrowRecord>,
}

impl View for BountyEscrow {
    type V = BountyState;

    closed spec fn view(&self) -> BountyState {
        BountyState {
            admin: self.admin,
            token: self.token,
            flags: self.flags,
            records: self.records@,
        }
    }
}

impl BountyEscrow {
    /// An instance that holds nothing and awaits `init`.
    pub fn new() -> (escrow: BountyEscrow)
        ensures
            escrow@ == BountyState::fresh(),
    {
        BountyEscrow {
            admin: None,
            token: None,
            flags: PauseFlags::unpaused(),
            records: HashMap::new(),
        }
    }

    /// The settlement token; `None` before `init`.
    pub fn get_token(&self) -> (token: Option<Address>)
        ensures
            token == self@.token,
    {
        self.token
    }

    /// The record of `bounty_id`; `None` for an unknown id.
    pub fn get_record(&self, bounty_id: u64) -> (record: Option<EscrowRecord>)
        ensures
            record is Some <==> self@.has_record(bounty_id),
            record matches Some(found) ==> found == self@.records[bounty_id],
    {
        match self.records.get(&bounty_id) {
            Some(found) => Some(*found),
            None => None,
        }
    }
}

impl BountyEscrowTrait for BountyEscrow {
    open spec fn state(&self) -> BountyState {
        self@
    }

    proof fn lemma_controls_are_of_state(&self, before: &Self) {
    }

    open spec fn may_release(&self, env: Env, bounty_id: u64) -> bool {
        self@.admin_releases(env)
    }

    open spec fn may_refund(&self, env: Env, bounty_id: u64) -> bool {
        self@.refund_open(env, bounty_id)
    }

    open spec fn release_share(&self, env: Env, bounty_id: u64) -> i128 {
        self@.balance_of(bounty_id)
    }

    fn init(&mut self, env: Env, admin: Address, token: Address) -> (r: Result<(), CommonError>)
        ensures
            r == old(self)@.init_result(),
            final(self)@ == old(self)@.after_init(admin, token),
    {
        if self.admin.is_some() {
            return Err(CommonError::AlreadyInitialized);
        }
        self.admin = Some(admin);
        self.token = Some(token);
        Ok(())
    }

    fn lock_funds(
        &mut self,
        env: Env,
        bounty_id: u64,
        amount: i128,
        depositor: Address,
        deadline: Option<u64>,
    ) -> (r: Result<Transfer, CommonError>)
        ensures
            r == old(self)@.lock_result(bounty_id, amount, depositor),
            final(self)@ == old(self)@.after_lock(bounty_id, amount, depositor, deadline),
    {
        if self.flags.lock {
            return Err(CommonError::Paused);
        }
        if amount <= 0 {
            return Err(CommonError::InvalidAmount);
        }
        let token = match self.token {
            Some(token) => token,
            None => {
                return Err(CommonError::NotInitialized);
            },
        };
        if self.records.contains_key(&bounty_id) {
            return Err(CommonError::AlreadyInitialized);
        }
        self.records.insert(
            bounty_id,
            EscrowRecord { amount, depositor, deadline, status: EscrowStatus::Locked },
        );
        Ok(Transfer::deposit(token, depositor, amount))
    }

    fn release_funds(&mut self, env: Env, bounty_id: u64, contributor: Address) -> (r: Result<
        Transfer,
        CommonError,
    >)
        ensures
            r == old(self)@.release_result(
                old(self)@.admin_releases(env),
                old(self)@.balance_of(bounty_id),
                bounty_id,
                contributor,
            ),
            final(self)@ == old(self)@.after_release(
                old(self)@.admin_releases(env),
                old(self)@.balance_of(bounty_id),
                bounty_id,
                contributor,
            ),
    {
        if self.flags.release {
            return Err(CommonError::Paused);
        }
        if !check_admin(self.admin, env.caller) {
            return Err(CommonError::Unauthorized);
        }
        let token = match self.token {
            Some(token) => token,
            None => {
                return Err(CommonError::NotInitialized);
            },
        };
        let record = match self.get_record(bounty_id) {
            Some(record) => record,
            None => {
                return Err(CommonError::NotFound);
            },
        };
        if !record.status.can_release() {
            return Err(CommonError::NotFound);
        }
        self.records.insert(
            bounty_id,
            EscrowRecord {
                amount: 0,
                depositor: record.depositor,
                deadline: record.deadline,
                status: EscrowStatus::Released,
            },
        );
        Ok(Transfer::payout(token, contributor, record.amount))
    }

    fn refund(&mut self, env: Env, bounty_id: u64) -> (r: Result<Transfer, CommonError>)
        ensures
            r == old(self)@.refund_result(old(self)@.refund_open(env, bounty_id), bounty_id),
            final(self)@ == old(self)@.after_refund(
                old(self)@.refund_open(env, bounty_id),
                bounty_id,
            ),
    {
        if self.flags.refund {
            return Err(CommonError::Paused);
        }
        let found = self.get_record(bounty_id);
        let due = match found {
            Some(record) => record.is_due(env.timestamp),
            None => false,
        };
        if !check_admin(self.admin, env.caller) && !due {
            return Err(CommonError::Unauthorized);
        }
        let token = match self.token {
            Some(token) => token,
            None => {
                return Err(CommonError::NotInitialized);
            },
        };
        let record = match found {
            Some(record) => record,
            None => {
                return Err(CommonError::NotFound);
            },
        };
        if !record.status.can_refund() {
            return Err(CommonError::NotFound);
        }
        self.records.insert(
            bounty_id,
            EscrowRecord {
                amount: 0,
                depositor: record.depositor,
                deadline: record.deadline,
                status: EscrowStatus::Refunded,
            },
        );
        Ok(Transfer::payout(token, record.depositor, record.amount))
    }

    fn get_balance(&self, env: Env, bounty_id: u64) -> (balance: i128)
        ensures
            balance == self@.balance_of(bounty_id),
    {
        match self.get_record(bounty_id) {
            Some(record) => record.amount,
            None => 0,
        }
    }

    fn get_status(&self, env: Env, bounty_id: u64) -> (status: Option<EscrowStatus>)
        ensures
            status == self@.status_of(bounty_id),
    {
        match self.get_record(bounty_id) {
            Some(record) => Some(record.status),
            None => None,
        }
    }
}

impl AdminManaged for BountyEscrow {
    open spec fn admin(&self) -> Option<Address> {
        self@.admin
    }

    open spec fn same_but_admin(&self, before: &Self) -> bool {
        self@ == (BountyState { admin: self@.admin, ..before@ })
    }

    fn get_admin(&self, env: Env) -> (r: Option<Address>)
        ensures
            r == self@.admin,
    {
        self.admin
    }

    fn transfer_admin(&mut self, env: Env, new_admin: Address) -> (r: Result<(), CommonError>)
        ensures
            final(self)@ == old(self)@.after_transfer_admin(env.caller, new_admin),
    {
        let (admin, result) = transfer_admin_role(self.admin, env.caller, new_admin);
        self.admin = admin;
        result
    }
}

impl Pausable for BountyEscrow {
    open spec fn pause_flags(&self) -> PauseFlags {
        self@.flags
    }

    open spec fn pause_admin(&self) -> Option<Address> {
        self@.admin
    }

    open spec fn same_but_flags(&self, before: &Self) -> bool {
        self@ == (BountyState { flags: self@.flags, ..before@ })
    }

    fn is_lock_paused(&self, env: &Env) -> (b: bool)
        ensures
            b == self@.flags.lock,
    {
        self.flags.lock
    }

    fn is_release_paused(&self, env: &Env) -> (b: bool)
        ensures
            b == self@.flags.release,
    {
        self.flags.release
    }

    fn is_refund_paused(&self, env: &Env) -> (b: bool)
        ensures
            b == self@.flags.refund,
    {
        self.flags.refund
    }

    fn set_paused(
        &mut self,
        env: Env,
        lock: Option<bool>,
        release: Option<bool>,
        refund: Option<bool>,
    ) -> (r: Result<(), CommonError>)
        ensures
            final(self)@ == old(self)@.after_set_paused(env.caller, lock, release, refund),
    {
        let (flags, result) = set_pause_flags(
            self.admin,
            env.caller,
            self.flags,
            lock,
            release,
            refund,
        );
        self.flags = flags;
        result
    }
}

impl Versioned for BountyEscrow {
    fn get_version(&self, env: Env) -> (v: u32)
        ensures
            v == 1,
    {
        1
    }
}

} // verus!
