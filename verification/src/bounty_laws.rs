//! What holds of the bounty escrow in every state and across every call.

use vstd::prelude::*;
use crate::address::Address;
use crate::admin::{admin_after_transfer, is_admin, transfer_admin_result};
use crate::bounty::BountyEscrowTrait;
use crate::pause::flags_after_set_paused;
use crate::bounty_model::{BountyCall, BountyState};
use crate::error::CommonError;
use crate::status::EscrowStatus;
use crate::transfer::Transfer;

verus! {

/// A fresh instance is well formed and holds no record.
pub proof fn lemma_fresh_is_empty(bounty_id: u64)
    ensures
        BountyState::fresh().wf(),
        !BountyState::fresh().has_record(bounty_id),
        BountyState::fresh().balance_of(bounty_id) == 0,
        BountyState::fresh().status_of(bounty_id) is None,
{
}

/// For a bounty id without a record the balance reads 0 and the status reads
/// absent.
pub proof fn lemma_unknown_bounty_reads_empty(s: BountyState, bounty_id: u64)
    requires
        !s.has_record(bounty_id),
    ensures
        s.balance_of(bounty_id) == 0,
        s.status_of(bounty_id) is None,
{
}

/// Only a successful `lock_funds` for a bounty id gives that id a record: an
/// id without a record has none after any other call, so an id that was
/// never locked reads empty however long the instance has run.
pub proof fn lemma_only_lock_creates_record(s: BountyState, call: BountyCall, bounty_id: u64)
    requires
        !s.has_record(bounty_id),
        !(call matches BountyCall::LockFunds { bounty_id: locked, .. } && locked == bounty_id
            && s.accepts(call)),
    ensures
        !s.after(call).has_record(bounty_id),
        s.after(call).balance_of(bounty_id) == 0,
        s.after(call).status_of(bounty_id) is None,
{
}

/// A call that fails changes nothing.
pub proof fn lemma_failure_changes_nothing(s: BountyState, call: BountyCall)
    requires
        !s.accepts(call),
    ensures
        s.after(call) == s,
{
}

/// Every call keeps the state well formed.
pub proof fn lemma_calls_keep_well_formed(s: BountyState, call: BountyCall)
    requires
        s.wf(),
    ensures
        s.after(call).wf(),
{
    let t = s.after(call);
    assert forall|bounty_id: u64| #[trigger] t.has_record(bounty_id) implies t.token is Some
        && t.records[bounty_id].wf() by {
        if s.has_record(bounty_id) {
            assert(s.records[bounty_id].wf());
        }
    }
}

/// A record, once made, stays; its depositor and deadline never change, what
/// it holds never grows, and its status changes only by a legal move. A
/// record in a terminal state never changes at all.
pub proof fn lemma_records_follow_legal_moves(s: BountyState, call: BountyCall, bounty_id: u64)
    requires
        s.has_record(bounty_id),
    ensures
        s.after(call).has_record(bounty_id),
        s.after(call).records[bounty_id].depositor == s.records[bounty_id].depositor,
        s.after(call).records[bounty_id].deadline == s.records[bounty_id].deadline,
        s.wf() ==> s.after(call).records[bounty_id].amount <= s.records[bounty_id].amount,
        s.after(call).records[bounty_id] == s.records[bounty_id]
            || s.records[bounty_id].status.spec_can_become(
            s.after(call).records[bounty_id].status,
        ),
        s.records[bounty_id].status.spec_is_terminal() ==> s.after(call).records[bounty_id]
            == s.records[bounty_id],
{
    if s.wf() {
        assert(s.records[bounty_id].wf());
    }
}

/// With locking not paused, `lock_funds` with an amount of 0 or less fails
/// with `InvalidAmount`. Paused or not, it fails and creates no state.
pub proof fn lemma_lock_rejects_non_positive_amount(
    s: BountyState,
    bounty_id: u64,
    amount: i128,
    depositor: Address,
    deadline: Option<u64>,
)
    requires
        amount <= 0,
    ensures
        !s.flags.lock ==> s.lock_result(bounty_id, amount, depositor) == Err::<
            Transfer,
            CommonError,
        >(CommonError::InvalidAmount),
        s.lock_result(bounty_id, amount, depositor) is Err,
        s.after_lock(bounty_id, amount, depositor, deadline) == s,
{
}

/// After a successful `lock_funds` the bounty is `Locked` and holds the
/// amount, the deposit asked for is that amount from the depositor, and no
/// other bounty has changed.
pub proof fn lemma_lock_then_read(
    s: BountyState,
    bounty_id: u64,
    amount: i128,
    depositor: Address,
    deadline: Option<u64>,
    other: u64,
)
    requires
        s.lock_result(bounty_id, amount, depositor) is Ok,
    ensures
        ({
            let t = s.after_lock(bounty_id, amount, depositor, deadline);
            &&& t.status_of(bounty_id) == Some(EscrowStatus::Locked)
            &&& t.balance_of(bounty_id) == amount
            &&& amount > 0
            &&& s.lock_result(bounty_id, amount, depositor) == Ok::<Transfer, CommonError>(
                Transfer::spec_deposit(s.token->0, depositor, amount),
            )
            &&& other != bounty_id ==> t.status_of(other) == s.status_of(other) && t.balance_of(
                other,
            ) == s.balance_of(other)
        }),
{
}

/// A bounty id can be locked once: a second `lock_funds` for it fails.
pub proof fn lemma_lock_is_once(
    s: BountyState,
    bounty_id: u64,
    amount: i128,
    depositor: Address,
)
    requires
        s.has_record(bounty_id),
    ensures
        s.lock_result(bounty_id, amount, depositor) is Err,
        !s.flags.lock && amount > 0 && s.token is Some ==> s.lock_result(
            bounty_id,
            amount,
            depositor,
        ) == Err::<Transfer, CommonError>(CommonError::AlreadyInitialized),
{
}

/// `release_funds` and `refund` on a bounty that is `Released` or `Refunded`
/// fail, whoever asks, and leave balance and status as they were.
pub proof fn lemma_settled_bounty_stays_settled(
    s: BountyState,
    authorized: bool,
    share: i128,
    bounty_id: u64,
    contributor: Address,
)
    requires
        s.status_of(bounty_id) == Some(EscrowStatus::Released) || s.status_of(bounty_id) == Some(
            EscrowStatus::Refunded,
        ),
    ensures
        s.release_result(authorized, share, bounty_id, contributor) is Err,
        s.refund_result(authorized, bounty_id) is Err,
        s.after_release(authorized, share, bounty_id, contributor) == s,
        s.after_refund(authorized, bounty_id) == s,
        !s.flags.release && authorized && s.token is Some ==> s.release_result(
            authorized,
            share,
            bounty_id,
            contributor,
        ) == Err::<Transfer, CommonError>(CommonError::NotFound),
        !s.flags.refund && authorized && s.token is Some ==> s.refund_result(authorized, bounty_id)
            == Err::<Transfer, CommonError>(CommonError::NotFound),
{
}

/// A successful release pays the contributor a part of what was held that
/// is above 0, or all of it, and the record holds the rest: it is `Released`
/// where nothing is left and `PartiallyReleased` where something is. Where
/// the policy names all that is held, all is paid. After any release a
/// refund fails, and after the last one a further release fails too.
pub proof fn lemma_release_pays_and_keeps_the_rest(
    s: BountyState,
    share: i128,
    bounty_id: u64,
    contributor: Address,
    again: bool,
    next_share: i128,
    next: Address,
)
    requires
        s.wf(),
        s.release_result(true, share, bounty_id, contributor) is Ok,
    ensures
        ({
            let t = s.after_release(true, share, bounty_id, contributor);
            let paid = s.release_amount(share, bounty_id);
            &&& s.release_result(true, share, bounty_id, contributor) == Ok::<
                Transfer,
                CommonError,
            >(Transfer::spec_payout(s.token->0, contributor, paid))
            &&& 0 < paid <= s.balance_of(bounty_id)
            &&& t.balance_of(bounty_id) == s.balance_of(bounty_id) - paid
            &&& share == s.balance_of(bounty_id) ==> paid == s.balance_of(bounty_id)
            &&& paid == s.balance_of(bounty_id) ==> t.status_of(bounty_id) == Some(
                EscrowStatus::Released,
            )
            &&& paid < s.balance_of(bounty_id) ==> t.status_of(bounty_id) == Some(
                EscrowStatus::PartiallyReleased,
            )
            &&& t.refund_result(again, bounty_id) is Err
            &&& t.after_refund(again, bounty_id) == t
            &&& paid == s.balance_of(bounty_id) ==> t.release_result(
                again,
                next_share,
                bounty_id,
                next,
            ) is Err && t.after_release(again, next_share, bounty_id, next) == t
        }),
{
    assert(s.has_record(bounty_id));
    assert(s.records[bounty_id].wf());
}

/// A successful refund pays all that was held back to the depositor, and
/// leaves the bounty `Refunded` with nothing held; after it neither a release
/// nor a second refund succeeds.
pub proof fn lemma_refund_settles(
    s: BountyState,
    bounty_id: u64,
    again: bool,
    next_share: i128,
    next: Address,
)
    requires
        s.refund_result(true, bounty_id) is Ok,
    ensures
        ({
            let t = s.after_refund(true, bounty_id);
            &&& s.refund_result(true, bounty_id) == Ok::<Transfer, CommonError>(
                Transfer::spec_payout(
                    s.token->0,
                    s.records[bounty_id].depositor,
                    s.balance_of(bounty_id),
                ),
            )
            &&& s.status_of(bounty_id) == Some(EscrowStatus::Locked)
            &&& t.status_of(bounty_id) == Some(EscrowStatus::Refunded)
            &&& t.balance_of(bounty_id) == 0
            &&& t.release_result(again, next_share, bounty_id, next) is Err
            &&& t.refund_result(again, bounty_id) is Err
            &&& t.after_release(again, next_share, bounty_id, next) == t
            &&& t.after_refund(again, bounty_id) == t
        }),
{
}

/// Lock, release, then refund: the refund fails, whoever asks, and balance
/// and status are those that the release left. Where the release paid all,
/// these are `Released` and 0.
pub proof fn lemma_no_refund_after_release(
    s: BountyState,
    bounty_id: u64,
    amount: i128,
    depositor: Address,
    deadline: Option<u64>,
    share: i128,
    contributor: Address,
    authorized: bool,
)
    requires
        s.lock_result(bounty_id, amount, depositor) is Ok,
        s.after_lock(bounty_id, amount, depositor, deadline).release_result(
            true,
            share,
            bounty_id,
            contributor,
        ) is Ok,
    ensures
        ({
            let locked = s.after_lock(bounty_id, amount, depositor, deadline);
            let released = locked.after_release(true, share, bounty_id, contributor);
            let last = released.after_refund(authorized, bounty_id);
            &&& released.refund_result(authorized, bounty_id) is Err
            &&& last == released
            &&& last.status_of(bounty_id) == released.status_of(bounty_id)
            &&& last.balance_of(bounty_id) == released.balance_of(bounty_id)
            &&& share == amount ==> {
                &&& locked.release_result(true, share, bounty_id, contributor) == Ok::<
                    Transfer,
                    CommonError,
                >(Transfer::spec_payout(s.token->0, contributor, amount))
                &&& last.status_of(bounty_id) == Some(EscrowStatus::Released)
                &&& last.balance_of(bounty_id) == 0
            }
        }),
{
}

/// While locking is paused every `lock_funds` fails with `Paused` and
/// changes nothing.
pub proof fn lemma_paused_lock_fails(
    s: BountyState,
    bounty_id: u64,
    amount: i128,
    depositor: Address,
    deadline: Option<u64>,
)
    requires
        s.flags.lock,
    ensures
        s.lock_result(bounty_id, amount, depositor) == Err::<Transfer, CommonError>(
            CommonError::Paused,
        ),
        s.after_lock(bounty_id, amount, depositor, deadline) == s,
{
}

/// While releasing is paused every `release_funds` fails with `Paused`, and
/// while refunding is paused every `refund` does.
pub proof fn lemma_paused_release_and_refund_fail(
    s: BountyState,
    authorized: bool,
    share: i128,
    bounty_id: u64,
    contributor: Address,
)
    ensures
        s.flags.release ==> s.release_result(authorized, share, bounty_id, contributor) == Err::<
            Transfer,
            CommonError,
        >(CommonError::Paused),
        s.flags.refund ==> s.refund_result(authorized, bounty_id) == Err::<Transfer, CommonError>(
            CommonError::Paused,
        ),
{
}

/// When the admin pauses locking, locking is paused from then on and the
/// release and refund switches keep their values. Nothing else of the state
/// changes.
pub proof fn lemma_admin_pauses_lock(s: BountyState, caller: Address)
    requires
        is_admin(s.admin, caller),
    ensures
        ({
            let t = s.after_set_paused(caller, Some(true), None, None);
            &&& t.flags.lock
            &&& t.flags.release == s.flags.release
            &&& t.flags.refund == s.flags.refund
            &&& t.admin == s.admin
            &&& t.token == s.token
            &&& t.records == s.records
        }),
{
}

/// The pause switches change only by a successful `set_paused`, and then
/// only those that it names: locking, once paused, stays paused until the
/// admin unpauses it.
pub proof fn lemma_flags_change_only_by_set_paused(s: BountyState, call: BountyCall)
    ensures
        !(call is SetPaused) ==> s.after(call).flags == s.flags,
        call matches BountyCall::SetPaused { caller, lock, release, refund } ==> {
            &&& !is_admin(s.admin, caller) ==> s.after(call).flags == s.flags
            &&& lock is None ==> s.after(call).flags.lock == s.flags.lock
            &&& release is None ==> s.after(call).flags.release == s.flags.release
            &&& refund is None ==> s.after(call).flags.refund == s.flags.refund
        },
{
}

/// The admin changes only by `init` and by a transfer that the admin asks
/// for; the settlement token only by `init`.
pub proof fn lemma_admin_changes_only_by_admin(s: BountyState, call: BountyCall)
    ensures
        !(call is Init) && !(call is TransferAdmin) ==> s.after(call).admin == s.admin,
        !(call is Init) ==> s.after(call).token == s.token,
        call matches BountyCall::TransferAdmin { caller, new_admin } ==> {
            &&& !is_admin(s.admin, caller) ==> s.after(call).admin == s.admin
            &&& is_admin(s.admin, caller) ==> s.after(call).admin == Some(new_admin)
        },
        s.admin is Some && call is Init ==> s.after(call) == s,
{
}

/// Whether `call` is a `lock_funds` for `bounty_id`.
pub open spec fn locks(call: BountyCall, bounty_id: u64) -> bool {
    call matches BountyCall::LockFunds { bounty_id: locked, .. } && locked == bounty_id
}

/// Whether `call` is a `set_paused` that switches the pause of locking off.
pub open spec fn unpauses_lock(call: BountyCall) -> bool {
    call matches BountyCall::SetPaused { lock, .. } && lock == Some(false)
}

/// Every state that calls can reach from a fresh instance is well formed.
pub proof fn lemma_reachable_states_are_well_formed(calls: Seq<BountyCall>)
    ensures
        BountyState::fresh().after_all(calls).wf(),
    decreases calls.len(),
{
    if calls.len() > 0 {
        lemma_reachable_states_are_well_formed(calls.drop_last());
        lemma_calls_keep_well_formed(
            BountyState::fresh().after_all(calls.drop_last()),
            calls.last(),
        );
    }
}

/// A bounty id that was never locked reads empty: whatever calls were made,
/// as long as none of them was a `lock_funds` for that id, its balance is 0
/// and its status absent.
pub proof fn lemma_never_locked_reads_empty(calls: Seq<BountyCall>, bounty_id: u64)
    requires
        forall|i: int| 0 <= i < calls.len() ==> !locks(#[trigger] calls[i], bounty_id),
    ensures
        !BountyState::fresh().after_all(calls).has_record(bounty_id),
        BountyState::fresh().after_all(calls).balance_of(bounty_id) == 0,
        BountyState::fresh().after_all(calls).status_of(bounty_id) is None,
    decreases calls.len(),
{
    if calls.len() > 0 {
        let earlier = calls.drop_last();
        assert forall|i: int| 0 <= i < earlier.len() implies !locks(
            #[trigger] earlier[i],
            bounty_id,
        ) by {
            assert(earlier[i] == calls[i]);
        }
        lemma_never_locked_reads_empty(earlier, bounty_id);
        assert(!locks(calls[calls.len() - 1], bounty_id));
        lemma_only_lock_creates_record(
            BountyState::fresh().after_all(earlier),
            calls.last(),
            bounty_id,
        );
    }
}

/// A bounty that is `Released` or `Refunded` stays exactly as it is, whatever
/// calls follow: its funds cannot be spent again.
pub proof fn lemma_settled_bounty_never_changes(
    s: BountyState,
    calls: Seq<BountyCall>,
    bounty_id: u64,
)
    requires
        s.has_record(bounty_id),
        s.records[bounty_id].status.spec_is_terminal(),
    ensures
        s.after_all(calls).has_record(bounty_id),
        s.after_all(calls).records[bounty_id] == s.records[bounty_id],
        s.after_all(calls).balance_of(bounty_id) == s.balance_of(bounty_id),
        s.after_all(calls).status_of(bounty_id) == s.status_of(bounty_id),
    decreases calls.len(),
{
    if calls.len() > 0 {
        lemma_settled_bounty_never_changes(s, calls.drop_last(), bounty_id);
        lemma_records_follow_legal_moves(s.after_all(calls.drop_last()), calls.last(), bounty_id);
    }
}

/// Locking, once paused, stays paused until a `set_paused` switches it on
/// again: after any calls of which none does, every `lock_funds` fails with
/// `Paused`.
pub proof fn lemma_lock_stays_paused(
    s: BountyState,
    calls: Seq<BountyCall>,
    bounty_id: u64,
    amount: i128,
    depositor: Address,
)
    requires
        s.flags.lock,
        forall|i: int| 0 <= i < calls.len() ==> !unpauses_lock(#[trigger] calls[i]),
    ensures
        s.after_all(calls).flags.lock,
        s.after_all(calls).lock_result(bounty_id, amount, depositor) == Err::<
            Transfer,
            CommonError,
        >(CommonError::Paused),
    decreases calls.len(),
{
    if calls.len() > 0 {
        let earlier = calls.drop_last();
        assert forall|i: int| 0 <= i < earlier.len() implies !unpauses_lock(
            #[trigger] earlier[i],
        ) by {
            assert(earlier[i] == calls[i]);
        }
        lemma_lock_stays_paused(s, earlier, bounty_id, amount, depositor);
        assert(!unpauses_lock(calls[calls.len() - 1]));
    }
}

/// Of every bounty escrow, whoever implements it: the value that `set_paused`
/// leaves has the custody state that `after_set_paused` gives. The premises
/// are what `set_paused` ensures.
pub proof fn lemma_set_paused_moves_state<T: BountyEscrowTrait>(
    before: &T,
    after: &T,
    caller: Address,
    lock: Option<bool>,
    release: Option<bool>,
    refund: Option<bool>,
)
    requires
        after.pause_flags() == flags_after_set_paused(
            before.pause_admin(),
            caller,
            before.pause_flags(),
            lock,
            release,
            refund,
        ),
        after.pause_admin() == before.pause_admin(),
        after.same_but_flags(before),
    ensures
        after.state() == before.state().after_set_paused(caller, lock, release, refund),
{
    before.lemma_controls_are_of_state(before);
    after.lemma_controls_are_of_state(before);
}

/// Of every bounty escrow, whoever implements it: the value that
/// `transfer_admin` leaves has the custody state that `after_transfer_admin`
/// gives. The premises are what `transfer_admin` ensures.
pub proof fn lemma_transfer_admin_moves_state<T: BountyEscrowTrait>(
    before: &T,
    after: &T,
    caller: Address,
    new_admin: Address,
)
    requires
        after.admin() == admin_after_transfer(before.admin(), caller, new_admin),
        after.same_but_admin(before),
    ensures
        after.state() == before.state().after_transfer_admin(caller, new_admin),
{
    before.lemma_controls_are_of_state(before);
    after.lemma_controls_are_of_state(before);
}

/// Of every bounty escrow, whoever implements it: once the admin has paused
/// locking, `is_lock_paused` reads true, every `lock_funds` fails with
/// `Paused`, and the switches that the update did not name are as they were,
/// as is all else that is held.
pub proof fn lemma_pause_then_lock_fails<T: BountyEscrowTrait>(
    before: &T,
    after: &T,
    caller: Address,
    release: Option<bool>,
    refund: Option<bool>,
    bounty_id: u64,
    amount: i128,
    depositor: Address,
)
    requires
        is_admin(before.pause_admin(), caller),
        after.pause_flags() == flags_after_set_paused(
            before.pause_admin(),
            caller,
            before.pause_flags(),
            Some(true),
            release,
            refund,
        ),
        after.pause_admin() == before.pause_admin(),
        after.same_but_flags(before),
    ensures
        after.pause_flags().lock,
        after.state().lock_result(bounty_id, amount, depositor) == Err::<Transfer, CommonError>(
            CommonError::Paused,
        ),
        release is None ==> after.pause_flags().release == before.pause_flags().release,
        refund is None ==> after.pause_flags().refund == before.pause_flags().refund,
        after.state() == (BountyState { flags: after.pause_flags(), ..before.state() }),
{
    before.lemma_controls_are_of_state(before);
    after.lemma_controls_are_of_state(before);
}

/// Of every bounty escrow, whoever implements it: a transfer of the admin role
/// asked for by anyone but the admin in place fails with `Unauthorized` and
/// changes nothing: not the admin, not the pause switches, not what is held.
pub proof fn lemma_refused_transfer_changes_nothing<T: BountyEscrowTrait>(
    before: &T,
    after: &T,
    caller: Address,
    new_admin: Address,
)
    requires
        before.admin() is Some,
        !is_admin(before.admin(), caller),
        after.admin() == admin_after_transfer(before.admin(), caller, new_admin),
        after.same_but_admin(before),
    ensures
        transfer_admin_result(before.admin(), caller) == Err::<(), CommonError>(
            CommonError::Unauthorized,
        ),
        after.admin() == before.admin(),
        after.pause_flags() == before.pause_flags(),
        after.pause_admin() == before.pause_admin(),
        after.state() == before.state(),
{
    before.lemma_controls_are_of_state(before);
    after.lemma_controls_are_of_state(before);
}

} // verus!
