//! The bounty escrow as a state machine over mathematical values: what each
//! operation returns and what it leaves behind, for every state and input.

use vstd::prelude::*;
use crate::address::{Address, Env};
use crate::admin::{admin_after_transfer, is_admin, transfer_admin_result};
use crate::error::CommonError;
use crate::pause::{flags_after_set_paused, set_paused_result, PauseFlags};
use crate::status::EscrowStatus;
use crate::transfer::Transfer;

verus! {

/// The custody record of one bounty.
#[derive(Clone, Copy, Debug, PartialEq, Eq, Structural)]
pub struct EscrowRecord {
    /// What is held for the bounty now.
    pub amount: i128,
    /// Who locked the funds, and who gets them back on a refund.
    pub depositor: Address,
    /// The ledger time from which anyone may ask for the refund.
    pub deadline: Option<u64>,
    pub status: EscrowStatus,
}

impl EscrowRecord {
    /// A record holds funds exactly while its state lets them be released.
    pub open spec fn wf(self) -> bool {
        if self.status.spec_can_release() {
            self.amount > 0
        } else {
            self.amount == 0
        }
    }

    /// Whether the deadline of the record has come at ledger time `now`. A
    /// record without a deadline is never due.
    pub open spec fn spec_is_due(self, now: u64) -> bool {
        match self.deadline {
            Some(deadline) => now >= deadline,
            None => false,
        }
    }

    /// Whether the deadline of the record has come at ledger time `now`.
    pub fn is_due(&self, now: u64) -> (b: bool)
        ensures
            b == self.spec_is_due(now),
    {
        match self.deadline {
            Some(deadline) => now >= deadline,
            None => false,
        }
    }
}

/// All that a bounty escrow instance holds.
pub struct BountyState {
    pub admin: Option<Address>,
    pub token: Option<Address>,
    pub flags: PauseFlags,
    pub records: Map<u64, EscrowRecord>,
}

impl BountyState {
    /// The state of an instance before `init`.
    pub open spec fn fresh() -> BountyState {
        BountyState {
            admin: None,
            token: None,
            flags: PauseFlags::spec_unpaused(),
            records: Map::empty(),
        }
    }

    /// Whether funds were ever locked for `bounty_id`.
    pub open spec fn has_record(self, bounty_id: u64) -> bool {
        self.records.contains_key(bounty_id)
    }

    /// What is held for `bounty_id`; 0 for an unknown id.
    pub open spec fn balance_of(self, bounty_id: u64) -> i128 {
        if self.has_record(bounty_id) {
            self.records[bounty_id].amount
        } else {
            0
        }
    }

    /// The custody state of `bounty_id`; `None` for an unknown id.
    pub open spec fn status_of(self, bounty_id: u64) -> Option<EscrowStatus> {
        if self.has_record(bounty_id) {
            Some(self.records[bounty_id].status)
        } else {
            None
        }
    }

    /// What holds of every state that the operations can reach: admin and
    /// token are set together, records exist only once they are set, and no
    /// record holds a negative amount or funds in a terminal state.
    pub open spec fn wf(self) -> bool {
        &&& self.admin is Some <==> self.token is Some
        &&& forall|bounty_id: u64| #[trigger]
            self.has_record(bounty_id) ==> self.token is Some && self.records[bounty_id].wf()
    }

    /// The release policy of `BountyEscrow`: the admin releases, and
    /// a release pays all that is held.
    pub open spec fn admin_releases(self, env: Env) -> bool {
        is_admin(self.admin, env.caller)
    }

    /// The refund policy of `BountyEscrow`: the admin at any time,
    /// anyone once the deadline of the record has come.
    pub open spec fn refund_open(self, env: Env, bounty_id: u64) -> bool {
        is_admin(self.admin, env.caller) || (self.has_record(bounty_id)
            && self.records[bounty_id].spec_is_due(env.timestamp))
    }

    /// The outcome of `init`: it works once.
    pub open spec fn init_result(self) -> Result<(), CommonError> {
        if self.admin is Some {
            Err(CommonError::AlreadyInitialized)
        } else {
            Ok(())
        }
    }

    /// The state after `init`.
    pub open spec fn after_init(self, admin: Address, token: Address) -> BountyState {
        if self.init_result() is Ok {
            BountyState { admin: Some(admin), token: Some(token), ..self }
        } else {
            self
        }
    }

    /// The outcome of `lock_funds`. The checks come in this order: the pause
    /// switch, the amount, initialization, an existing record.
    pub open spec fn lock_result(self, bounty_id: u64, amount: i128, depositor: Address) -> Result<
        Transfer,
        CommonError,
    > {
        if self.flags.lock {
            Err(CommonError::Paused)
        } else if amount <= 0 {
            Err(CommonError::InvalidAmount)
        } else if self.token is None {
            Err(CommonError::NotInitialized)
        } else if self.has_record(bounty_id) {
            Err(CommonError::AlreadyInitialized)
        } else {
            Ok(Transfer::spec_deposit(self.token->0, depositor, amount))
        }
    }

    /// The state after `lock_funds`: one new `Locked` record on success.
    pub open spec fn after_lock(
        self,
        bounty_id: u64,
        amount: i128,
        depositor: Address,
        deadline: Option<u64>,
    ) -> BountyState {
        if self.lock_result(bounty_id, amount, depositor) is Ok {
            BountyState {
                records: self.records.insert(
                    bounty_id,
                    EscrowRecord { amount, depositor, deadline, status: EscrowStatus::Locked },
                ),
                ..self
            }
        } else {
            self
        }
    }

    /// What a release of `bounty_id` pays where the release policy names
    /// `share`: the share where it is a true part of what is held, and all
    /// that is held otherwise.
    pub open spec fn release_amount(self, share: i128, bounty_id: u64) -> i128 {
        if 0 < share < self.balance_of(bounty_id) {
            share
        } else {
            self.balance_of(bounty_id)
        }
    }

    /// The outcome of `release_funds`, where `authorized` says whether the
    /// release policy admits the caller and `share` is what it would pay. The
    /// checks come in this order: the pause switch, authorization,
    /// initialization, the record and its state. On success the contributor
    /// is paid `release_amount`.
    pub open spec fn release_result(
        self,
        authorized: bool,
        share: i128,
        bounty_id: u64,
        contributor: Address,
    ) -> Result<Transfer, CommonError> {
        if self.flags.release {
            Err(CommonError::Paused)
        } else if !authorized {
            Err(CommonError::Unauthorized)
        } else if self.token is None {
            Err(CommonError::NotInitialized)
        } else if !self.has_record(bounty_id) {
            Err(CommonError::NotFound)
        } else if !self.records[bounty_id].status.spec_can_release() {
            Err(CommonError::NotFound)
        } else {
            Ok(
                Transfer::spec_payout(
                    self.token->0,
                    contributor,
                    self.release_amount(share, bounty_id),
                ),
            )
        }
    }

    /// The state after `release_funds`: on success the record holds what was
    /// not paid, and is `Released` where that is nothing and
    /// `PartiallyReleased` where something is left.
    pub open spec fn after_release(
        self,
        authorized: bool,
        share: i128,
        bounty_id: u64,
        contributor: Address,
    ) -> BountyState {
        if self.release_result(authorized, share, bounty_id, contributor) is Ok {
            let paid = self.release_amount(share, bounty_id);
            BountyState {
                records: self.records.insert(
                    bounty_id,
                    EscrowRecord {
                        amount: (self.records[bounty_id].amount - paid) as i128,
                        status: if paid == self.records[bounty_id].amount {
                            EscrowStatus::Released
                        } else {
                            EscrowStatus::PartiallyReleased
                        },
                        ..self.records[bounty_id]
                    },
                ),
                ..self
            }
        } else {
            self
        }
    }

    /// The outcome of `refund`, where `authorized` says whether the refund
    /// policy admits the caller. The checks come in the order of
    /// `release_result`. On success all that is held goes back to the
    /// depositor.
    pub open spec fn refund_result(self, authorized: bool, bounty_id: u64) -> Result<
        Transfer,
        CommonError,
    > {
        if self.flags.refund {
            Err(CommonError::Paused)
        } else if !authorized {
            Err(CommonError::Unauthorized)
        } else if self.token is None {
            Err(CommonError::NotInitialized)
        } else if !self.has_record(bounty_id) {
            Err(CommonError::NotFound)
        } else if !self.records[bounty_id].status.spec_can_refund() {
            Err(CommonError::NotFound)
        } else {
            Ok(
                Transfer::spec_payout(
                    self.token->0,
                    self.records[bounty_id].depositor,
                    self.records[bounty_id].amount,
                ),
            )
        }
    }

    /// The state after `refund`: on success the record is `Refunded` and
    /// holds nothing.
    pub open spec fn after_refund(self, authorized: bool, bounty_id: u64) -> BountyState {
        if self.refund_result(authorized, bounty_id) is Ok {
            BountyState {
                records: self.records.insert(
                    bounty_id,
                    EscrowRecord {
                        amount: 0,
                        status: EscrowStatus::Refunded,
                        ..self.records[bounty_id]
                    },
                ),
                ..self
            }
        } else {
            self
        }
    }

    /// The state after `set_paused` asked for by `caller`.
    pub open spec fn after_set_paused(
        self,
        caller: Address,
        lock: Option<bool>,
        release: Option<bool>,
        refund: Option<bool>,
    ) -> BountyState {
        BountyState {
            flags: flags_after_set_paused(self.admin, caller, self.flags, lock, release, refund),
            ..self
        }
    }

    /// The state after `transfer_admin` asked for by `caller`.
    pub open spec fn after_transfer_admin(self, caller: Address, new_admin: Address) -> BountyState {
        BountyState { admin: admin_after_transfer(self.admin, caller, new_admin), ..self }
    }

    /// Whether `call` succeeds in this state.
    pub open spec fn accepts(self, call: BountyCall) -> bool {
        match call {
            BountyCall::Init { admin, token } => self.init_result() is Ok,
            BountyCall::LockFunds { bounty_id, amount, depositor, deadline } => self.lock_result(
                bounty_id,
                amount,
                depositor,
            ) is Ok,
            BountyCall::ReleaseFunds {
                authorized,
                share,
                bounty_id,
                contributor,
            } => self.release_result(authorized, share, bounty_id, contributor) is Ok,
            BountyCall::Refund { authorized, bounty_id } => self.refund_result(
                authorized,
                bounty_id,
            ) is Ok,
            BountyCall::SetPaused { caller, lock, release, refund } => set_paused_result(
                self.admin,
                caller,
            ) is Ok,
            BountyCall::TransferAdmin { caller, new_admin } => transfer_admin_result(
                self.admin,
                caller,
            ) is Ok,
        }
    }

    /// The state after `call`.
    pub open spec fn after(self, call: BountyCall) -> BountyState {
        match call {
            BountyCall::Init { admin, token } => self.after_init(admin, token),
            BountyCall::LockFunds { bounty_id, amount, depositor, deadline } => self.after_lock(
                bounty_id,
                amount,
                depositor,
                deadline,
            ),
            BountyCall::ReleaseFunds {
                authorized,
                share,
                bounty_id,
                contributor,
            } => self.after_release(authorized, share, bounty_id, contributor),
            BountyCall::Refund { authorized, bounty_id } => self.after_refund(authorized, bounty_id),
            BountyCall::SetPaused { caller, lock, release, refund } => self.after_set_paused(
                caller,
                lock,
                release,
                refund,
            ),
            BountyCall::TransferAdmin { caller, new_admin } => self.after_transfer_admin(
                caller,
                new_admin,
            ),
        }
    }
}

impl BountyState {
    /// The state after `calls`, made one after the other.
    pub open spec fn after_all(self, calls: Seq<BountyCall>) -> BountyState
        decreases calls.len(),
    {
        if calls.len() == 0 {
            self
        } else {
            self.after_all(calls.drop_last()).after(calls.last())
        }
    }
}

/// One call of a state-changing operation of a bounty escrow, with its
/// arguments and, where a policy of the implementation decides, what the
/// policy says: whether it admits the caller, and what share a release pays.
pub enum BountyCall {
    Init { admin: Address, token: Address },
    LockFunds { bounty_id: u64, amount: i128, depositor: Address, deadline: Option<u64> },
    ReleaseFunds { authorized: bool, share: i128, bounty_id: u64, contributor: Address },
    Refund { authorized: bool, bounty_id: u64 },
    SetPaused { caller: Address, lock: Option<bool>, release: Option<bool>, refund: Option<bool> },
    TransferAdmin { caller: Address, new_admin: Address },
}

} // verus!
