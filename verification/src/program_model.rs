//! The program escrow as a state machine over mathematical values: one
//! pooled balance, filled by locks and drained by payouts.

use vstd::prelude::*;
use crate::address::Address;
use crate::admin::{admin_after_transfer, transfer_admin_result};
use crate::error::CommonError;
use crate::pause::{flags_after_set_paused, set_paused_result, PauseFlags};
use crate::transfer::Transfer;

verus! {

/// The sum of `amounts`.
pub open spec fn total(amounts: Seq<i128>) -> int
    decreases amounts.len(),
{
    if amounts.len() == 0 {
        0
    } else {
        total(amounts.drop_last()) + amounts.last()
    }
}

/// Whether every one of `amounts` is above 0.
pub open spec fn all_positive(amounts: Seq<i128>) -> bool {
    forall|i: int| 0 <= i < amounts.len() ==> amounts[i] > 0
}

/// The payouts of a batch: to each recipient its amount, in the order given.
pub open spec fn payouts(token: Address, recipients: Seq<Address>, amounts: Seq<i128>) -> Seq<
    Transfer,
> {
    Seq::new(amounts.len(), |i: int| Transfer::spec_payout(token, recipients[i], amounts[i]))
}

/// All that a program escrow instance holds, and what has passed through it.
pub struct ProgramState {
    /// The id of the program that the instance serves, as the bytes of its
    /// text; `None` before `init_program`.
    pub program_id: Option<Seq<u8>>,
    pub admin: Option<Address>,
    pub token: Option<Address>,
    pub flags: PauseFlags,
    /// The pooled balance that is left to pay out.
    pub remaining: int,
    /// All that was ever locked.
    pub locked_total: int,
    /// All that was ever paid out.
    pub paid_total: int,
}

impl ProgramState {
    /// The state of an instance before `init_program`.
    pub open spec fn fresh() -> ProgramState {
        ProgramState {
            program_id: None,
            admin: None,
            token: None,
            flags: PauseFlags::spec_unpaused(),
            remaining: 0,
            locked_total: 0,
            paid_total: 0,
        }
    }

    /// What holds of every state that the operations can reach: id, admin
    /// and token are set together, funds are there only once they are set,
    /// and the balance is what was locked less what was paid, never below 0.
    pub open spec fn wf(self) -> bool {
        &&& self.program_id is Some <==> self.token is Some
        &&& self.admin is Some <==> self.token is Some
        &&& self.token is None ==> self.locked_total == 0
        &&& 0 <= self.paid_total
        &&& self.remaining == self.locked_total - self.paid_total
        &&& 0 <= self.remaining <= i128::MAX
    }

    /// Whether the instance serves the program `program_id`.
    pub open spec fn serves(self, program_id: Seq<u8>) -> bool {
        self.program_id == Some(program_id)
    }

    /// The outcome of `init_program`: it works once per instance, so no id is
    /// registered twice.
    pub open spec fn init_result(self) -> Result<(), CommonError> {
        if self.program_id is Some {
            Err(CommonError::AlreadyInitialized)
        } else {
            Ok(())
        }
    }

    /// The state after `init_program`.
    pub open spec fn after_init(
        self,
        program_id: Seq<u8>,
        admin: Address,
        token: Address,
    ) -> ProgramState {
        if self.init_result() is Ok {
            ProgramState {
                program_id: Some(program_id),
                admin: Some(admin),
                token: Some(token),
                ..self
            }
        } else {
            self
        }
    }

    /// The outcome of `lock_program_funds`. The checks come in this order:
    /// the lock switch, the amount, initialization, and last the limit of
    /// what a balance can hold, which an amount too large for it fails as
    /// `InvalidAmount`.
    pub open spec fn lock_result(self, amount: i128) -> Result<(), CommonError> {
        if self.flags.lock {
            Err(CommonError::Paused)
        } else if amount <= 0 {
            Err(CommonError::InvalidAmount)
        } else if self.token is None {
            Err(CommonError::NotInitialized)
        } else if self.remaining + amount > i128::MAX {
            Err(CommonError::InvalidAmount)
        } else {
            Ok(())
        }
    }

    /// The state after `lock_program_funds`: on success the balance has
    /// grown by the amount.
    pub open spec fn after_lock(self, amount: i128) -> ProgramState {
        if self.lock_result(amount) is Ok {
            ProgramState {
                remaining: self.remaining + amount,
                locked_total: self.locked_total + amount,
                ..self
            }
        } else {
            self
        }
    }

    /// The outcome of `single_payout`. The checks come in this order: the
    /// release switch, the balance, the amount, initialization. So an amount
    /// above the balance fails with `InsufficientBalance` whatever else holds
    /// of the call, a pause aside.
    pub open spec fn single_payout_result(self, recipient: Address, amount: i128) -> Result<
        Transfer,
        CommonError,
    > {
        if self.flags.release {
            Err(CommonError::Paused)
        } else if amount > self.remaining {
            Err(CommonError::InsufficientBalance)
        } else if amount <= 0 {
            Err(CommonError::InvalidAmount)
        } else if self.token is None {
            Err(CommonError::NotInitialized)
        } else {
            Ok(Transfer::spec_payout(self.token->0, recipient, amount))
        }
    }

    /// The state after `single_payout`: on success the balance has shrunk by
    /// the amount.
    pub open spec fn after_single_payout(self, recipient: Address, amount: i128) -> ProgramState {
        if self.single_payout_result(recipient, amount) is Ok {
            ProgramState {
                remaining: self.remaining - amount,
                paid_total: self.paid_total + amount,
                ..self
            }
        } else {
            self
        }
    }

    /// The outcome of `batch_payout`. The checks come in this order: the
    /// release switch, the two lengths, the balance against the total, the
    /// amounts, initialization. So a batch that asks for more than the balance
    /// fails with `InsufficientBalance` whatever else holds of it, a pause and
    /// a mismatch of the lengths aside. On success every recipient is paid its
    /// amount.
    pub open spec fn batch_payout_result(
        self,
        recipients: Seq<Address>,
        amounts: Seq<i128>,
    ) -> Result<Seq<Transfer>, CommonError> {
        if self.flags.release {
            Err(CommonError::Paused)
        } else if recipients.len() != amounts.len() {
            Err(CommonError::InvalidAmount)
        } else if total(amounts) > self.remaining {
            Err(CommonError::InsufficientBalance)
        } else if !all_positive(amounts) {
            Err(CommonError::InvalidAmount)
        } else if self.token is None {
            Err(CommonError::NotInitialized)
        } else {
            Ok(payouts(self.token->0, recipients, amounts))
        }
    }

    /// The state after `batch_payout`: on success the balance has shrunk by
    /// the total, and on failure nothing of the batch has happened.
    pub open spec fn after_batch_payout(
        self,
        recipients: Seq<Address>,
        amounts: Seq<i128>,
    ) -> ProgramState {
        if self.batch_payout_result(recipients, amounts) is Ok {
            ProgramState {
                remaining: self.remaining - total(amounts),
                paid_total: self.paid_total + total(amounts),
                ..self
            }
        } else {
            self
        }
    }

    /// The outcome of `batch_payout` on what a host list held: that of
    /// `batch_payout_result` on its amounts, and `InvalidAmount`, after the
    /// release switch, where the list did not hold amounts.
    pub open spec fn batch_request_result(
        self,
        recipients: Seq<Address>,
        amounts: Option<Seq<i128>>,
    ) -> Result<Seq<Transfer>, CommonError> {
        match amounts {
            Some(found) => self.batch_payout_result(recipients, found),
            None => if self.flags.release {
                Err(CommonError::Paused)
            } else {
                Err(CommonError::InvalidAmount)
            },
        }
    }

    /// The state after `batch_payout` on what a host list held.
    pub open spec fn after_batch_request(
        self,
        recipients: Seq<Address>,
        amounts: Option<Seq<i128>>,
    ) -> ProgramState {
        match amounts {
            Some(found) => self.after_batch_payout(recipients, found),
            None => self,
        }
    }

    /// The state after `set_paused` asked for by `caller`.
    pub open spec fn after_set_paused(
        self,
        caller: Address,
        lock: Option<bool>,
        release: Option<bool>,
        refund: Option<bool>,
    ) -> ProgramState {
        ProgramState {
            flags: flags_after_set_paused(self.admin, caller, self.flags, lock, release, refund),
            ..self
        }
    }

    /// The state after `transfer_admin` asked for by `caller`.
    pub open spec fn after_transfer_admin(self, caller: Address, new_admin: Address) -> ProgramState {
        ProgramState { admin: admin_after_transfer(self.admin, caller, new_admin), ..self }
    }

    /// Whether `call` succeeds in this state.
    pub open spec fn accepts(self, call: ProgramCall) -> bool {
        match call {
            ProgramCall::InitProgram { program_id, admin, token } => self.init_result() is Ok,
            ProgramCall::LockProgramFunds { amount } => self.lock_result(amount) is Ok,
            ProgramCall::SinglePayout { recipient, amount } => self.single_payout_result(
                recipient,
                amount,
            ) is Ok,
            ProgramCall::BatchPayout { recipients, amounts } => self.batch_payout_result(
                recipients,
                amounts,
            ) is Ok,
            ProgramCall::SetPaused { caller, lock, release, refund } => set_paused_result(
                self.admin,
                caller,
            ) is Ok,
            ProgramCall::TransferAdmin { caller, new_admin } => transfer_admin_result(
                self.admin,
                caller,
            ) is Ok,
        }
    }

    /// The state after `call`.
    pub open spec fn after(self, call: ProgramCall) -> ProgramState {
        match call {
            ProgramCall::InitProgram { program_id, admin, token } => self.after_init(
                program_id,
                admin,
                token,
            ),
            ProgramCall::LockProgramFunds { amount } => self.after_lock(amount),
            ProgramCall::SinglePayout { recipient, amount } => self.after_single_payout(
                recipient,
                amount,
            ),
            ProgramCall::BatchPayout { recipients, amounts } => self.after_batch_payout(
                recipients,
                amounts,
            ),
            ProgramCall::SetPaused { caller, lock, release, refund } => self.after_set_paused(
                caller,
                lock,
                release,
                refund,
            ),
            ProgramCall::TransferAdmin { caller, new_admin } => self.after_transfer_admin(
                caller,
                new_admin,
            ),
        }
    }
}

impl ProgramState {
    /// The state after `calls`, made one after the other.
    pub open spec fn after_all(self, calls: Seq<ProgramCall>) -> ProgramState
        decreases calls.len(),
    {
        if calls.len() == 0 {
            self
        } else {
            self.after_all(calls.drop_last()).after(calls.last())
        }
    }
}

/// One call of a state-changing operation of a program escrow, with its
/// arguments.
pub enum ProgramCall {
    InitProgram { program_id: Seq<u8>, admin: Address, token: Address },
    LockProgramFunds { amount: i128 },
    SinglePayout { recipient: Address, amount: i128 },
    BatchPayout { recipients: Seq<Address>, amounts: Seq<i128> },
    SetPaused { caller: Address, lock: Option<bool>, release: Option<bool>, refund: Option<bool> },
    TransferAdmin { caller: Address, new_admin: Address },
}

/// The sum of the first `n + 1` amounts is the sum of the first `n` and the
/// one that follows.
pub proof fn lemma_total_of_prefix(amounts: Seq<i128>, n: int)
    requires
        0 <= n < amounts.len(),
    ensures
        total(amounts.take(n + 1)) == total(amounts.take(n)) + amounts[n],
{
    assert(amounts.take(n + 1).drop_last() =~= amounts.take(n));
}

/// Where every amount is above 0, no prefix sums to more than the whole, and
/// the whole is at least the number of amounts.
pub proof fn lemma_total_grows(amounts: Seq<i128>, n: int)
    requires
        all_positive(amounts),
        0 <= n <= amounts.len(),
    ensures
        0 <= total(amounts.take(n)) <= total(amounts),
        total(amounts) >= amounts.len(),
    decreases amounts.len() - n,
{
    if n == amounts.len() {
        assert(amounts.take(n) =~= amounts);
        lemma_total_at_least_len(amounts);
    } else {
        lemma_total_of_prefix(amounts, n);
        lemma_total_grows(amounts, n + 1);
        lemma_total_at_least_len(amounts.take(n));
    }
}

/// Where every amount is above 0, the sum is at least the number of amounts.
pub proof fn lemma_total_at_least_len(amounts: Seq<i128>)
    requires
        all_positive(amounts),
    ensures
        total(amounts) >= amounts.len(),
    decreases amounts.len(),
{
    if amounts.len() > 0 {
        lemma_total_at_least_len(amounts.drop_last());
    }
}

} // verus!
