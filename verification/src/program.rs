//! The program escrow: one pooled balance per program, paid out to many
//! recipients, one at a time or in batches.

use vstd::prelude::*;
use crate::address::{Address, Env};
use crate::admin::{transfer_admin_role, AdminManaged};
use crate::error::CommonError;
use crate::host::{amounts_in, bytes_in, host_amounts, host_bytes};
use crate::pause::{set_pause_flags, Pausable, PauseFlags};
use crate::program_model::{
    all_positive,
    lemma_total_grows,
    lemma_total_of_prefix,
    payouts,
    total,
    ProgramState,
};
use crate::transfer::Transfer;
use crate::version::Versioned;

verus! {

/// Custody of one pooled balance, from which a program pays its recipients.
///
/// An implementation says what it holds (`state`); the contracts below then
/// fix, for every state and input, what each operation returns and what it
/// leaves behind. A failed operation changes nothing, and a batch is paid in
/// full or not at all.
pub trait ProgramEscrowTrait: Pausable + AdminManaged {
    /// All that the instance holds.
    spec fn state(&self) -> ProgramState;

    /// The admin and the pause switches that the control operations speak of
    /// are those of the custody state, and a control operation that leaves
    /// all but the admin, or all but the switches, leaves the rest of the
    /// custody state. Every implementation proves this of itself.
    proof fn lemma_controls_are_of_state(&self, before: &Self)
        ensures
            self.admin() == self.state().admin,
            self.pause_admin() == self.state().admin,
            self.pause_flags() == self.state().flags,
            self.same_but_admin(before) ==> self.state() == (ProgramState {
                admin: self.state().admin,
                ..before.state()
            }),
            self.same_but_flags(before) ==> self.state() == (ProgramState {
                flags: self.state().flags,
                ..before.state()
            }),
    ;

    /// Registers the program that the instance serves, with its admin and
    /// settlement token. Works once.
    fn init_program(
        &mut self,
        env: Env,
        program_id: soroban_sdk::String,
        admin: Address,
        token: Address,
    ) -> (r: Result<(), CommonError>)
        ensures
            r == old(self).state().init_result(),
            final(self).state() == old(self).state().after_init(
                bytes_in(program_id),
                admin,
                token,
            ),
    ;

    /// Adds `amount` to the pooled balance.
    fn lock_program_funds(&mut self, env: Env, amount: i128) -> (r: Result<(), CommonError>)
        ensures
            r == old(self).state().lock_result(amount),
            final(self).state() == old(self).state().after_lock(amount),
    ;

    /// Pays each of `recipients` the amount at its place in `amounts`, all or
    /// none, and returns the payouts to be made, in that order.
    fn batch_payout(
        &mut self,
        env: Env,
        recipients: Vec<Address>,
        amounts: soroban_sdk::Vec<i128>,
    ) -> (r: Result<Vec<Transfer>, CommonError>)
        ensures
            match r {
                Ok(transfers) => old(self).state().batch_request_result(
                    recipients@,
                    amounts_in(amounts),
                ) == Ok::<Seq<Transfer>, CommonError>(transfers@),
                Err(error) => old(self).state().batch_request_result(
                    recipients@,
                    amounts_in(amounts),
                ) == Err::<Seq<Transfer>, CommonError>(error),
            },
            final(self).state() == old(self).state().after_batch_request(
                recipients@,
                amounts_in(amounts),
            ),
    ;

    /// Pays `amount` to `recipient`, and returns the payout to be made.
    fn single_payout(&mut self, env: Env, recipient: Address, amount: i128) -> (r: Result<
        Transfer,
        CommonError,
    >)
        ensures
            r == old(self).state().single_payout_result(recipient, amount),
            final(self).state() == old(self).state().after_single_payout(recipient, amount),
    ;

    /// The pooled balance that is left to pay out. Never fails.
    fn get_remaining_balance(&self, env: Env) -> (balance: i128)
        ensures
            balance == self.state().remaining,
    ;

    /// Whether the instance serves the program `program_id`. Never fails.
    fn program_exists(&self, env: Env, program_id: soroban_sdk::String) -> (b: bool)
        ensures
            b == self.state().serves(bytes_in(program_id)),
    ;
}

/// A program escrow that keeps its books in memory.
pub struct ProgramEscrow {
    program_id: Option<Vec<u8>>,
    admin: Option<Address>,
    token: Option<Address>,
    flags: PauseFlags,
    remaining: i128,
    locked_total: Ghost<int>,
    paid_total: Ghost<int>,
}

impl View for ProgramEscrow {
    type V = ProgramState;

    closed spec fn view(&self) -> ProgramState {
        ProgramState {
            program_id: match self.program_id {
                Some(id) => Some(id@),
                None => None,
            },
            admin: self.admin,
            token: self.token,
            flags: self.flags,
            remaining: self.remaining as int,
            locked_total: self.locked_total@,
            paid_total: self.paid_total@,
        }
    }
}

impl ProgramEscrow {
    /// An instance that holds nothing and awaits `init_program`.
    pub fn new() -> (escrow: ProgramEscrow)
        ensures
            escrow@ == ProgramState::fresh(),
    {
        ProgramEscrow {
            program_id: None,
            admin: None,
            token: None,
            flags: PauseFlags::unpaused(),
            remaining: 0,
            locked_total: Ghost(0),
            paid_total: Ghost(0),
        }
    }

    /// The settlement token; `None` before `init_program`.
    pub fn get_token(&self) -> (token: Option<Address>)
        ensures
            token == self@.token,
    {
        self.token
    }

    /// `init_program` for a program id given as the bytes of its text.
    pub fn register_program(&mut self, program_id: Vec<u8>, admin: Address, token: Address) -> (r:
        Result<(), CommonError>)
        ensures
            r == old(self)@.init_result(),
            final(self)@ == old(self)@.after_init(program_id@, admin, token),
    {
        if self.program_id.is_some() {
            return Err(CommonError::AlreadyInitialized);
        }
        self.program_id = Some(program_id);
        self.admin = Some(admin);
        self.token = Some(token);
        Ok(())
    }

    /// `program_exists` for a program id given as the bytes of its text.
    pub fn serves_program(&self, program_id: &Vec<u8>) -> (b: bool)
        ensures
            b == self@.serves(program_id@),
    {
        match &self.program_id {
            Some(id) => same_bytes(id, program_id),
            None => false,
        }
    }

    /// `batch_payout` for amounts given as plain values: pays each of
    /// `recipients` the amount at its place in `amounts`, all or none, and
    /// returns the payouts to be made, in that order.
    pub fn pay_batch(&mut self, recipients: Vec<Address>, amounts: Vec<i128>) -> (r: Result<
        Vec<Transfer>,
        CommonError,
    >)
        ensures
            match r {
                Ok(transfers) => old(self)@.batch_payout_result(recipients@, amounts@) == Ok::<
                    Seq<Transfer>,
                    CommonError,
                >(transfers@),
                Err(error) => old(self)@.batch_payout_result(recipients@, amounts@) == Err::<
                    Seq<Transfer>,
                    CommonError,
                >(error),
            },
            final(self)@ == old(self)@.after_batch_payout(recipients@, amounts@),
    {
        if self.flags.release {
            return Err(CommonError::Paused);
        }
        if recipients.len() != amounts.len() {
            return Err(CommonError::InvalidAmount);
        }
        let asked = wide_total(&amounts);
        if asked.exceeds(self.remaining) {
            return Err(CommonError::InsufficientBalance);
        }
        if !amounts_all_positive(&amounts) {
            return Err(CommonError::InvalidAmount);
        }
        let token = match self.token {
            Some(token) => token,
            None => {
                return Err(CommonError::NotInitialized);
            },
        };
        proof {
            lemma_total_grows(amounts@, 0);
        }
        let left = self.remaining - asked.rest;
        let transfers = batch_transfers(token, &recipients, &amounts);
        self.remaining = left;
        proof {
            self.paid_total = Ghost(self.paid_total@ + total(amounts@));
        }
        Ok(transfers)
    }
}

impl ProgramEscrowTrait for ProgramEscrow {
    open spec fn state(&self) -> ProgramState {
        self@
    }

    proof fn lemma_controls_are_of_state(&self, before: &Self) {
    }

    fn init_program(
        &mut self,
        env: Env,
        program_id: soroban_sdk::String,
        admin: Address,
        token: Address,
    ) -> (r: Result<(), CommonError>)
        ensures
            r == old(self)@.init_result(),
            final(self)@ == old(self)@.after_init(bytes_in(program_id), admin, token),
    {
        self.register_program(host_bytes(&program_id), admin, token)
    }

    fn lock_program_funds(&mut self, env: Env, amount: i128) -> (r: Result<(), CommonError>)
        ensures
            r == old(self)@.lock_result(amount),
            final(self)@ == old(self)@.after_lock(amount),
    {
        if self.flags.lock {
            return Err(CommonError::Paused);
        }
        if amount <= 0 {
            return Err(CommonError::InvalidAmount);
        }
        if self.token.is_none() {
            return Err(CommonError::NotInitialized);
        }
        let raised = match self.remaining.checked_add(amount) {
            Some(raised) => raised,
            None => {
                return Err(CommonError::InvalidAmount);
            },
        };
        self.remaining = raised;
        proof {
            self.locked_total = Ghost(self.locked_total@ + amount);
        }
        Ok(())
    }

    fn batch_payout(
        &mut self,
        env: Env,
        recipients: Vec<Address>,
        amounts: soroban_sdk::Vec<i128>,
    ) -> (r: Result<Vec<Transfer>, CommonError>)
        ensures
            match r {
                Ok(transfers) => old(self)@.batch_request_result(recipients@, amounts_in(amounts))
                    == Ok::<Seq<Transfer>, CommonError>(transfers@),
                Err(error) => old(self)@.batch_request_result(recipients@, amounts_in(amounts))
                    == Err::<Seq<Transfer>, CommonError>(error),
            },
            final(self)@ == old(self)@.after_batch_request(recipients@, amounts_in(amounts)),
    {
        match host_amounts(&amounts) {
            Some(found) => self.pay_batch(recipients, found),
            None => {
                if self.flags.release {
                    Err(CommonError::Paused)
                } else {
                    Err(CommonError::InvalidAmount)
                }
            },
        }
    }

    fn single_payout(&mut self, env: Env, recipient: Address, amount: i128) -> (r: Result<
        Transfer,
        CommonError,
    >)
        ensures
            r == old(self)@.single_payout_result(recipient, amount),
            final(self)@ == old(self)@.after_single_payout(recipient, amount),
    {
        if self.flags.release {
            return Err(CommonError::Paused);
        }
        if amount > self.remaining {
            return Err(CommonError::InsufficientBalance);
        }
        if amount <= 0 {
            return Err(CommonError::InvalidAmount);
        }
        let token = match self.token {
            Some(token) => token,
            None => {
                return Err(CommonError::NotInitialized);
            },
        };
        self.remaining = self.remaining - amount;
        proof {
            self.paid_total = Ghost(self.paid_total@ + amount);
        }
        Ok(Transfer::payout(token, recipient, amount))
    }

    fn get_remaining_balance(&self, env: Env) -> (balance: i128)
        ensures
            balance == self@.remaining,
    {
        self.remaining
    }

    fn program_exists(&self, env: Env, program_id: soroban_sdk::String) -> (b: bool)
        ensures
            b == self@.serves(bytes_in(program_id)),
    {
        let asked = host_bytes(&program_id);
        self.serves_program(&asked)
    }
}

/// Whether `a` and `b` hold the same bytes.
pub fn same_bytes(a: &Vec<u8>, b: &Vec<u8>) -> (same: bool)
    ensures
        same == (a@ == b@),
{
    if a.len() != b.len() {
        return false;
    }
    let mut i: usize = 0;
    while i < a.len()
        invariant
            i <= a.len(),
            a.len() == b.len(),
            forall|j: int| 0 <= j < i ==> a@[j] == b@[j],
        decreases a.len() - i,
    {
        if a[i] != b[i] {
            return false;
        }
        i = i + 1;
    }
    proof {
        assert(a@ =~= b@);
    }
    true
}

/// Whether every one of `amounts` is above 0.
pub fn amounts_all_positive(amounts: &Vec<i128>) -> (b: bool)
    ensures
        b == all_positive(amounts@),
{
    let mut i: usize = 0;
    while i < amounts.len()
        invariant
            i <= amounts.len(),
            forall|j: int| 0 <= j < i ==> amounts@[j] > 0,
        decreases amounts.len() - i,
    {
        if amounts[i] <= 0 {
            return false;
        }
        i = i + 1;
    }
    true
}

/// A sum of amounts, held in two parts so that no number of amounts of either
/// sign can overflow it: `wraps` times 2^127, and `rest` below 2^127.
struct WideTotal {
    wraps: i128,
    rest: i128,
}

impl WideTotal {
    /// The sum that the two parts stand for.
    spec fn value(self) -> int {
        self.wraps * 0x8000_0000_0000_0000_0000_0000_0000_0000int + self.rest
    }

    /// Whether the sum is above `balance`.
    fn exceeds(&self, balance: i128) -> (b: bool)
        requires
            0 <= self.rest <= i128::MAX,
        ensures
            b == (self.value() > balance),
    {
        if self.wraps > 0 {
            true
        } else if self.wraps == 0 {
            self.rest > balance
        } else if self.wraps == -1 {
            (self.rest - i128::MAX) - 1 > balance
        } else {
            false
        }
    }
}

/// The sum of `amounts`, whatever their signs and however many they are.
fn wide_total(amounts: &Vec<i128>) -> (sum: WideTotal)
    ensures
        0 <= sum.rest <= i128::MAX,
        sum.value() == total(amounts@),
{
    let mut wraps: i128 = 0;
    let mut rest: i128 = 0;
    let mut i: usize = 0;
    while i < amounts.len()
        invariant
            i <= amounts.len(),
            0 <= rest <= i128::MAX,
            -(i as int) <= wraps <= i as int,
            wraps * 0x8000_0000_0000_0000_0000_0000_0000_0000int + rest == total(
                amounts@.take(i as int),
            ),
        decreases amounts.len() - i,
    {
        proof {
            lemma_total_of_prefix(amounts@, i as int);
        }
        let amount = amounts[i];
        if amount >= 0 {
            if amount > i128::MAX - rest {
                rest = (rest - (i128::MAX - amount)) - 1;
                wraps = wraps + 1;
            } else {
                rest = rest + amount;
            }
        } else {
            let lowered = rest + amount;
            if lowered < 0 {
                rest = (lowered + i128::MAX) + 1;
                wraps = wraps - 1;
            } else {
                rest = lowered;
            }
        }
        i = i + 1;
    }
    proof {
        assert(amounts@.take(i as int) =~= amounts@);
    }
    WideTotal { wraps, rest }
}

/// Whether `amounts` sum to more than `balance`. The sum is taken as a
/// mathematical integer: amounts of either sign, and sums beyond what one
/// amount can hold, are decided exactly.
pub fn total_exceeds(amounts: &Vec<i128>, balance: i128) -> (b: bool)
    ensures
        b == (total(amounts@) > balance),
{
    wide_total(amounts).exceeds(balance)
}

/// The payouts of a batch: to each recipient its amount, in the order given.
fn batch_transfers(token: Address, recipients: &Vec<Address>, amounts: &Vec<i128>) -> (transfers:
    Vec<Transfer>)
    requires
        recipients@.len() == amounts@.len(),
    ensures
        transfers@ == payouts(token, recipients@, amounts@),
{
    let mut transfers: Vec<Transfer> = Vec::new();
    let mut i: usize = 0;
    while i < amounts.len()
        invariant
            i <= amounts.len(),
            recipients@.len() == amounts@.len(),
            transfers@.len() == i,
            forall|j: int|
                0 <= j < i ==> transfers@[j] == Transfer::spec_payout(
                    token,
                    recipients@[j],
                    amounts@[j],
                ),
        decreases amounts.len() - i,
    {
        transfers.push(Transfer::payout(token, recipients[i], amounts[i]));
        i = i + 1;
    }
    proof {
        assert(transfers@ =~= payouts(token, recipients@, amounts@));
    }
    transfers
}

impl AdminManaged for ProgramEscrow {
    open spec fn admin(&self) -> Option<Address> {
        self@.admin
    }

    open spec fn same_but_admin(&self, before: &Self) -> bool {
        self@ == (ProgramState { admin: self@.admin, ..before@ })
    }

    fn get_admin(&self, env: Env) -> (r: Option<Address>)
        ensures
            r == self@.admin,
    {
        self.admin
    }

    fn transfer_admin(&mut self, env: Env, new_admin: Address) -> (r: Result<(), CommonError>)
        ensures
            final(self)@ == old(self)@.after_transfer_admin(env.caller, new_admin),
    {
        let (admin, result) = transfer_admin_role(self.admin, env.caller, new_admin);
        self.admin = admin;
        result
    }
}

impl Pausable for ProgramEscrow {
    open spec fn pause_flags(&self) -> PauseFlags {
        self@.flags
    }

    open spec fn pause_admin(&self) -> Option<Address> {
        self@.admin
    }

    open spec fn same_but_flags(&self, before: &Self) -> bool {
        self@ == (ProgramState { flags: self@.flags, ..before@ })
    }

    fn is_lock_paused(&self, env: &Env) -> (b: bool)
        ensures
            b == self@.flags.lock,
    {
        self.flags.lock
    }

    fn is_release_paused(&self, env: &Env) -> (b: bool)
        ensures
            b == self@.flags.release,
    {
        self.flags.release
    }

    fn is_refund_paused(&self, env: &Env) -> (b: bool)
        ensures
            b == self@.flags.refund,
    {
        self.flags.refund
    }

    fn set_paused(
        &mut self,
        env: Env,
        lock: Option<bool>,
        release: Option<bool>,
        refund: Option<bool>,
    ) -> (r: Result<(), CommonError>)
        ensures
            final(self)@ == old(self)@.after_set_paused(env.caller, lock, release, refund),
    {
        let (flags, result) = set_pause_flags(
            self.admin,
            env.caller,
            self.flags,
            lock,
            release,
            refund,
        );
        self.flags = flags;
        result
    }
}

impl Versioned for ProgramEscrow {
    fn get_version(&self, env: Env) -> (v: u32)
        ensures
            v == 1,
    {
        1
    }
}

} // verus!
