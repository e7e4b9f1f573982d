//! What holds of the program escrow in every state and across every call.

use vstd::prelude::*;
use crate::address::Address;
use crate::admin::{admin_after_transfer, is_admin, transfer_admin_result};
use crate::pause::flags_after_set_paused;
use crate::program::ProgramEscrowTrait;
use crate::error::CommonError;
use crate::program_model::{
    all_positive,
    lemma_total_grows,
    payouts,
    total,
    ProgramCall,
    ProgramState,
};
use crate::transfer::{Direction, Transfer};

verus! {

/// A fresh instance is well formed, serves no program and holds nothing.
pub proof fn lemma_fresh_is_empty(program_id: Seq<u8>)
    ensures
        ProgramState::fresh().wf(),
        !ProgramState::fresh().serves(program_id),
        ProgramState::fresh().remaining == 0,
{
}

/// A call that fails changes nothing.
pub proof fn lemma_failure_changes_nothing(s: ProgramState, call: ProgramCall)
    requires
        !s.accepts(call),
    ensures
        s.after(call) == s,
{
}

/// Every call keeps the state well formed.
pub proof fn lemma_calls_keep_well_formed(s: ProgramState, call: ProgramCall)
    requires
        s.wf(),
    ensures
        s.after(call).wf(),
{
    if let ProgramCall::BatchPayout { recipients, amounts } = call {
        if s.accepts(call) {
            lemma_total_grows(amounts, 0);
        }
    }
}

/// In a well-formed state the payouts made so far sum to no more than the
/// funds locked so far, and the balance is the difference.
pub proof fn lemma_payouts_never_exceed_locked(s: ProgramState)
    requires
        s.wf(),
    ensures
        s.paid_total <= s.locked_total,
        s.remaining == s.locked_total - s.paid_total,
        s.remaining >= 0,
{
}

/// The balance grows only by `lock_program_funds`: no other call raises it,
/// and a payout that succeeds lowers it by what it pays.
pub proof fn lemma_balance_grows_only_by_lock(s: ProgramState, call: ProgramCall)
    requires
        !(call is LockProgramFunds),
    ensures
        s.after(call).remaining <= s.remaining,
        s.after(call).locked_total == s.locked_total,
        s.after(call).remaining - s.remaining == s.paid_total - s.after(call).paid_total,
        !(call is SinglePayout) && !(call is BatchPayout) ==> s.after(call).remaining
            == s.remaining,
{
    if let ProgramCall::BatchPayout { recipients, amounts } = call {
        if s.accepts(call) {
            lemma_total_grows(amounts, 0);
        }
    }
}

/// `init_program` works once: on an instance that serves a program it fails
/// with `AlreadyInitialized`, whatever the id, and after it has succeeded the
/// instance serves that program and no other.
pub proof fn lemma_init_is_once(
    s: ProgramState,
    program_id: Seq<u8>,
    admin: Address,
    token: Address,
    other: Seq<u8>,
)
    ensures
        s.program_id is Some ==> s.init_result() == Err::<(), CommonError>(
            CommonError::AlreadyInitialized,
        ) && s.after_init(program_id, admin, token) == s,
        s.program_id is None ==> {
            let t = s.after_init(program_id, admin, token);
            &&& s.init_result() is Ok
            &&& t.serves(program_id)
            &&& t.serves(other) <==> other == program_id
            &&& t.admin == Some(admin)
            &&& t.token == Some(token)
            &&& t.remaining == s.remaining
            &&& t.init_result() == Err::<(), CommonError>(CommonError::AlreadyInitialized)
        },
{
}

/// With locking not paused, `lock_program_funds` with an amount of 0 or less
/// fails with `InvalidAmount`. Paused or not, it fails and changes nothing.
pub proof fn lemma_lock_rejects_non_positive_amount(s: ProgramState, amount: i128)
    requires
        amount <= 0,
    ensures
        !s.flags.lock ==> s.lock_result(amount) == Err::<(), CommonError>(
            CommonError::InvalidAmount,
        ),
        s.lock_result(amount) is Err,
        s.after_lock(amount) == s,
{
}

/// A successful `lock_program_funds` raises the balance by exactly the
/// amount.
pub proof fn lemma_lock_raises_balance(s: ProgramState, amount: i128)
    requires
        s.lock_result(amount) is Ok,
    ensures
        s.after_lock(amount).remaining == s.remaining + amount,
        s.after_lock(amount).locked_total == s.locked_total + amount,
        s.after_lock(amount).paid_total == s.paid_total,
        amount > 0,
{
}

/// A batch whose two lists differ in length fails and leaves the balance,
/// and all else, unchanged. With payouts not paused the error is
/// `InvalidAmount`.
pub proof fn lemma_mismatched_batch_changes_nothing(
    s: ProgramState,
    recipients: Seq<Address>,
    amounts: Seq<i128>,
)
    requires
        recipients.len() != amounts.len(),
    ensures
        s.batch_payout_result(recipients, amounts) is Err,
        s.after_batch_payout(recipients, amounts) == s,
        s.after_batch_payout(recipients, amounts).remaining == s.remaining,
        !s.flags.release ==> s.batch_payout_result(recipients, amounts) == Err::<
            Seq<Transfer>,
            CommonError,
        >(CommonError::InvalidAmount),
{
}

/// A batch that asks for more than the balance fails, pays nobody and
/// changes nothing. With payouts not paused and as many amounts as
/// recipients the error is `InsufficientBalance`, whatever the amounts are
/// and whether or not a program is registered.
pub proof fn lemma_overdrawn_batch_changes_nothing(
    s: ProgramState,
    recipients: Seq<Address>,
    amounts: Seq<i128>,
)
    requires
        total(amounts) > s.remaining,
    ensures
        s.batch_payout_result(recipients, amounts) is Err,
        s.after_batch_payout(recipients, amounts) == s,
        !s.flags.release && recipients.len() == amounts.len() ==> s.batch_payout_result(
            recipients,
            amounts,
        ) == Err::<Seq<Transfer>, CommonError>(CommonError::InsufficientBalance),
{
}

/// A batch that succeeds pays every recipient its amount, in the order
/// given, and lowers the balance by the total, which the balance covered.
pub proof fn lemma_batch_pays_all(
    s: ProgramState,
    recipients: Seq<Address>,
    amounts: Seq<i128>,
    i: int,
)
    requires
        s.batch_payout_result(recipients, amounts) is Ok,
        0 <= i < amounts.len(),
    ensures
        ({
            let paid = s.batch_payout_result(recipients, amounts)->Ok_0;
            let t = s.after_batch_payout(recipients, amounts);
            &&& paid.len() == recipients.len()
            &&& paid.len() == amounts.len()
            &&& paid[i].party == recipients[i]
            &&& paid[i].amount == amounts[i]
            &&& paid[i].amount > 0
            &&& paid[i].direction == Direction::OutOfCustody
            &&& paid[i].token == s.token->0
            &&& t.remaining == s.remaining - total(amounts)
            &&& 0 <= total(amounts) <= s.remaining
            &&& t.paid_total == s.paid_total + total(amounts)
        }),
{
    lemma_total_grows(amounts, 0);
    assert(s.batch_payout_result(recipients, amounts)->Ok_0 == payouts(
        s.token->0,
        recipients,
        amounts,
    ));
}

/// A batch of one is a single payout: the same outcome and the same state
/// afterwards.
pub proof fn lemma_batch_of_one_is_single(s: ProgramState, recipient: Address, amount: i128)
    ensures
        s.after_batch_payout(seq![recipient], seq![amount]) == s.after_single_payout(
            recipient,
            amount,
        ),
        match s.single_payout_result(recipient, amount) {
            Ok(transfer) => s.batch_payout_result(seq![recipient], seq![amount]) == Ok::<
                Seq<Transfer>,
                CommonError,
            >(seq![transfer]),
            Err(error) => s.batch_payout_result(seq![recipient], seq![amount]) == Err::<
                Seq<Transfer>,
                CommonError,
            >(error),
        },
{
    let amounts = seq![amount];
    let recipients = seq![recipient];
    assert(amounts.drop_last() =~= Seq::<i128>::empty());
    assert(total(amounts.drop_last()) == 0);
    assert(total(amounts) == amount);
    assert(amounts[0] == amount);
    assert(all_positive(amounts) <==> amount > 0);
    if s.single_payout_result(recipient, amount) is Ok {
        assert(payouts(s.token->0, recipients, amounts) =~= seq![
            Transfer::spec_payout(s.token->0, recipient, amount),
        ]);
    }
}

/// A single payout of more than the balance fails and changes nothing; with
/// payouts not paused the error is `InsufficientBalance`, whatever the amount
/// is and whether or not a program is registered. One that succeeds lowers
/// the balance by the amount.
pub proof fn lemma_single_payout_is_covered(s: ProgramState, recipient: Address, amount: i128)
    ensures
        amount > s.remaining ==> s.single_payout_result(recipient, amount) is Err
            && s.after_single_payout(recipient, amount) == s,
        amount > s.remaining && !s.flags.release ==> s.single_payout_result(recipient, amount)
            == Err::<Transfer, CommonError>(CommonError::InsufficientBalance),
        s.single_payout_result(recipient, amount) is Ok ==> s.after_single_payout(
            recipient,
            amount,
        ).remaining == s.remaining - amount && 0 < amount <= s.remaining,
{
}

/// While payouts are paused every payout fails with `Paused`, and while
/// locking is paused every lock does.
pub proof fn lemma_paused_calls_fail(
    s: ProgramState,
    recipients: Seq<Address>,
    amounts: Seq<i128>,
    recipient: Address,
    amount: i128,
)
    ensures
        s.flags.release ==> s.batch_payout_result(recipients, amounts) == Err::<
            Seq<Transfer>,
            CommonError,
        >(CommonError::Paused),
        s.flags.release ==> s.single_payout_result(recipient, amount) == Err::<
            Transfer,
            CommonError,
        >(CommonError::Paused),
        s.flags.lock ==> s.lock_result(amount) == Err::<(), CommonError>(CommonError::Paused),
{
}

/// The pause switches change only by a successful `set_paused`, and then
/// only those that it names.
pub proof fn lemma_flags_change_only_by_set_paused(s: ProgramState, call: ProgramCall)
    ensures
        !(call is SetPaused) ==> s.after(call).flags == s.flags,
        call matches ProgramCall::SetPaused { caller, lock, release, refund } ==> {
            &&& !is_admin(s.admin, caller) ==> s.after(call).flags == s.flags
            &&& lock is None ==> s.after(call).flags.lock == s.flags.lock
            &&& release is None ==> s.after(call).flags.release == s.flags.release
            &&& refund is None ==> s.after(call).flags.refund == s.flags.refund
        },
{
}

/// The admin changes only by `init_program` and by a transfer that the
/// admin asks for; the program id and the token only by `init_program`.
pub proof fn lemma_admin_changes_only_by_admin(s: ProgramState, call: ProgramCall)
    ensures
        !(call is InitProgram) && !(call is TransferAdmin) ==> s.after(call).admin == s.admin,
        !(call is InitProgram) ==> s.after(call).token == s.token && s.after(call).program_id
            == s.program_id,
        call matches ProgramCall::TransferAdmin { caller, new_admin } ==> {
            &&& !is_admin(s.admin, caller) ==> s.after(call).admin == s.admin
            &&& is_admin(s.admin, caller) ==> s.after(call).admin == Some(new_admin)
        },
{
}

/// Every state that calls can reach from a fresh instance is well formed:
/// the payouts made sum to no more than the funds locked, and the balance is
/// the difference.
pub proof fn lemma_reachable_states_are_well_formed(calls: Seq<ProgramCall>)
    ensures
        ProgramState::fresh().after_all(calls).wf(),
        ProgramState::fresh().after_all(calls).paid_total <= ProgramState::fresh().after_all(
            calls,
        ).locked_total,
    decreases calls.len(),
{
    if calls.len() > 0 {
        lemma_reachable_states_are_well_formed(calls.drop_last());
        lemma_calls_keep_well_formed(
            ProgramState::fresh().after_all(calls.drop_last()),
            calls.last(),
        );
    }
}

/// Over any calls of which none is a `lock_program_funds` the balance does
/// not grow.
pub proof fn lemma_balance_never_grows_without_lock(s: ProgramState, calls: Seq<ProgramCall>)
    requires
        forall|i: int| 0 <= i < calls.len() ==> !(#[trigger] calls[i] is LockProgramFunds),
    ensures
        s.after_all(calls).remaining <= s.remaining,
        s.after_all(calls).locked_total == s.locked_total,
    decreases calls.len(),
{
    if calls.len() > 0 {
        let earlier = calls.drop_last();
        assert forall|i: int| 0 <= i < earlier.len() implies !(#[trigger] earlier[i]
            is LockProgramFunds) by {
            assert(earlier[i] == calls[i]);
        }
        lemma_balance_never_grows_without_lock(s, earlier);
        assert(!(calls[calls.len() - 1] is LockProgramFunds));
        lemma_balance_grows_only_by_lock(s.after_all(earlier), calls.last());
    }
}

/// Of every program escrow, whoever implements it: the value that `set_paused`
/// leaves has the custody state that `after_set_paused` gives. The premises
/// are what `set_paused` ensures.
pub proof fn lemma_set_paused_moves_state<T: ProgramEscrowTrait>(
    before: &T,
    after: &T,
    caller: Address,
    lock: Option<bool>,
    release: Option<bool>,
    refund: Option<bool>,
)
    requires
        after.pause_flags() == flags_after_set_paused(
            before.pause_admin(),
            caller,
            before.pause_flags(),
            lock,
            release,
            refund,
        ),
        after.pause_admin() == before.pause_admin(),
        after.same_but_flags(before),
    ensures
        after.state() == before.state().after_set_paused(caller, lock, release, refund),
{
    before.lemma_controls_are_of_state(before);
    after.lemma_controls_are_of_state(before);
}

/// Of every program escrow, whoever implements it: the value that
/// `transfer_admin` leaves has the custody state that `after_transfer_admin`
/// gives. The premises are what `transfer_admin` ensures.
pub proof fn lemma_transfer_admin_moves_state<T: ProgramEscrowTrait>(
    before: &T,
    after: &T,
    caller: Address,
    new_admin: Address,
)
    requires
        after.admin() == admin_after_transfer(before.admin(), caller, new_admin),
        after.same_but_admin(before),
    ensures
        after.state() == before.state().after_transfer_admin(caller, new_admin),
{
    before.lemma_controls_are_of_state(before);
    after.lemma_controls_are_of_state(before);
}

/// Of every program escrow, whoever implements it: once the admin has paused
/// locking, `is_lock_paused` reads true, every `lock_program_funds` fails with
/// `Paused`, and the switches that the update did not name are as they were,
/// as is all else that is held.
pub proof fn lemma_pause_then_lock_fails<T: ProgramEscrowTrait>(
    before: &T,
    after: &T,
    caller: Address,
    release: Option<bool>,
    refund: Option<bool>,
    amount: i128,
)
    requires
        is_admin(before.pause_admin(), caller),
        after.pause_flags() == flags_after_set_paused(
            before.pause_admin(),
            caller,
            before.pause_flags(),
            Some(true),
            release,
            refund,
        ),
        after.pause_admin() == before.pause_admin(),
        after.same_but_flags(before),
    ensures
        after.pause_flags().lock,
        after.state().lock_result(amount) == Err::<(), CommonError>(CommonError::Paused),
        release is None ==> after.pause_flags().release == before.pause_flags().release,
        refund is None ==> after.pause_flags().refund == before.pause_flags().refund,
        after.state() == (ProgramState { flags: after.pause_flags(), ..before.state() }),
{
    before.lemma_controls_are_of_state(before);
    after.lemma_controls_are_of_state(before);
}

/// Of every program escrow, whoever implements it: a transfer of the admin role
/// asked for by anyone but the admin in place fails with `Unauthorized` and
/// changes nothing: not the admin, not the pause switches, not what is held.
pub proof fn lemma_refused_transfer_changes_nothing<T: ProgramEscrowTrait>(
    before: &T,
    after: &T,
    caller: Address,
    new_admin: Address,
)
    requires
        before.admin() is Some,
        !is_admin(before.admin(), caller),
        after.admin() == admin_after_transfer(before.admin(), caller, new_admin),
        after.same_but_admin(before),
    ensures
        transfer_admin_result(before.admin(), caller) == Err::<(), CommonError>(
            CommonError::Unauthorized,
        ),
        after.admin() == before.admin(),
        after.pause_flags() == before.pause_flags(),
        after.pause_admin() == before.pause_admin(),
        after.state() == before.state(),
{
    before.lemma_controls_are_of_state(before);
    after.lemma_controls_are_of_state(before);
}

/// A batch whose host list did not hold amounts fails and changes nothing,
/// and one whose list did is decided on the amounts: so every law of
/// `batch_payout_result` holds of `batch_payout` on a host list.
pub proof fn lemma_unreadable_batch_changes_nothing(
    s: ProgramState,
    recipients: Seq<Address>,
    amounts: Seq<i128>,
)
    ensures
        s.batch_request_result(recipients, None) is Err,
        s.after_batch_request(recipients, None) == s,
        s.batch_request_result(recipients, Some(amounts)) == s.batch_payout_result(
            recipients,
            amounts,
        ),
        s.after_batch_request(recipients, Some(amounts)) == s.after_batch_payout(
            recipients,
            amounts,
        ),
{
}

} // verus!
