//! The three switches that halt locking, releasing and refunding.

use vstd::prelude::*;
use crate::address::{Address, Env};
use crate::admin::{check_admin, is_admin};
use crate::error::CommonError;

verus! {

/// The three pause switches. Each gates one class of operation and is
/// independent of the other two.
#[derive(Clone, Copy, Debug, PartialEq, Eq, Structural)]
pub struct PauseFlags {
    pub lock: bool,
    pub release: bool,
    pub refund: bool,
}

/// One switch after an update: the given value, or the old one where none is
/// given.
pub open spec fn updated_flag(current: bool, update: Option<bool>) -> bool {
    match update {
        Some(value) => value,
        None => current,
    }
}

impl PauseFlags {
    /// Nothing paused.
    pub open spec fn spec_unpaused() -> PauseFlags {
        PauseFlags { lock: false, release: false, refund: false }
    }

    /// The flags after a partial update: each switch takes the value given
    /// for it and keeps its value where none is given.
    pub open spec fn spec_updated(
        self,
        lock: Option<bool>,
        release: Option<bool>,
        refund: Option<bool>,
    ) -> PauseFlags {
        PauseFlags {
            lock: updated_flag(self.lock, lock),
            release: updated_flag(self.release, release),
            refund: updated_flag(self.refund, refund),
        }
    }

    /// Nothing paused: the state of a fresh contract.
    pub fn unpaused() -> (flags: PauseFlags)
        ensures
            flags == PauseFlags::spec_unpaused(),
    {
        PauseFlags { lock: false, release: false, refund: false }
    }

    /// The flags after a partial update.
    pub fn updated(&self, lock: Option<bool>, release: Option<bool>, refund: Option<bool>) -> (flags:
        PauseFlags)
        ensures
            flags == self.spec_updated(lock, release, refund),
    {
        let new_lock = match lock {
            Some(value) => value,
            None => self.lock,
        };
        let new_release = match release {
            Some(value) => value,
            None => self.release,
        };
        let new_refund = match refund {
            Some(value) => value,
            None => self.refund,
        };
        PauseFlags { lock: new_lock, release: new_release, refund: new_refund }
    }
}

/// The outcome of an update of the pause flags asked for by `caller`:
/// `Unauthorized` for everyone but the admin, and so for everyone while no
/// admin is set.
pub open spec fn set_paused_result(admin: Option<Address>, caller: Address) -> Result<
    (),
    CommonError,
> {
    if is_admin(admin, caller) {
        Ok(())
    } else {
        Err(CommonError::Unauthorized)
    }
}

/// The flags after an update asked for by `caller`: updated where the caller
/// is the admin, untouched where not.
pub open spec fn flags_after_set_paused(
    admin: Option<Address>,
    caller: Address,
    flags: PauseFlags,
    lock: Option<bool>,
    release: Option<bool>,
    refund: Option<bool>,
) -> PauseFlags {
    if is_admin(admin, caller) {
        flags.spec_updated(lock, release, refund)
    } else {
        flags
    }
}

/// Decides an update of the pause flags and returns the flags that hold
/// afterwards.
pub fn set_pause_flags(
    admin: Option<Address>,
    caller: Address,
    flags: PauseFlags,
    lock: Option<bool>,
    release: Option<bool>,
    refund: Option<bool>,
) -> (r: (PauseFlags, Result<(), CommonError>))
    ensures
        r.0 == flags_after_set_paused(admin, caller, flags, lock, release, refund),
        r.1 == set_paused_result(admin, caller),
{
    if check_admin(admin, caller) {
        (flags.updated(lock, release, refund), Ok(()))
    } else {
        (flags, Err(CommonError::Unauthorized))
    }
}

/// An update changes the switches it names and no others; one that names
/// none changes nothing, and one that names all three overwrites all three.
pub proof fn lemma_update_is_partial(
    flags: PauseFlags,
    lock: Option<bool>,
    release: Option<bool>,
    refund: Option<bool>,
)
    ensures
        lock is None ==> flags.spec_updated(lock, release, refund).lock == flags.lock,
        release is None ==> flags.spec_updated(lock, release, refund).release == flags.release,
        refund is None ==> flags.spec_updated(lock, release, refund).refund == flags.refund,
        lock matches Some(value) ==> flags.spec_updated(lock, release, refund).lock == value,
        release matches Some(value) ==> flags.spec_updated(lock, release, refund).release == value,
        refund matches Some(value) ==> flags.spec_updated(lock, release, refund).refund == value,
        flags.spec_updated(None, None, None) == flags,
{
}

/// Pausing locks by the admin sets the lock switch and leaves the release
/// and refund switches as they were; asked for by anyone else it changes
/// nothing.
pub proof fn lemma_pausing_lock_keeps_other_flags(
    admin: Option<Address>,
    caller: Address,
    flags: PauseFlags,
)
    ensures
        ({
            let after = flags_after_set_paused(admin, caller, flags, Some(true), None, None);
            &&& after.release == flags.release
            &&& after.refund == flags.refund
            &&& is_admin(admin, caller) ==> after.lock
            &&& !is_admin(admin, caller) ==> after == flags
        }),
{
}

/// A contract whose locking, releasing and refunding can each be halted.
pub trait Pausable {
    /// The pause switches in place.
    spec fn pause_flags(&self) -> PauseFlags;

    /// The admin, who alone may change the switches.
    spec fn pause_admin(&self) -> Option<Address>;

    /// Whether this value holds all that `before` held, the switches aside.
    /// An implementation says here what else it holds, so that an update of
    /// the switches can promise to leave it alone.
    spec fn same_but_flags(&self, before: &Self) -> bool;

    /// Whether locking is halted.
    fn is_lock_paused(&self, env: &Env) -> (b: bool)
        ensures
            b == self.pause_flags().lock,
    ;

    /// Whether releasing is halted.
    fn is_release_paused(&self, env: &Env) -> (b: bool)
        ensures
            b == self.pause_flags().release,
    ;

    /// Whether refunding is halted.
    fn is_refund_paused(&self, env: &Env) -> (b: bool)
        ensures
            b == self.pause_flags().refund,
    ;

    /// Sets the switches for which a value is given and leaves the others.
    /// Only the admin may do so. Nothing but the switches changes.
    fn set_paused(
        &mut self,
        env: Env,
        lock: Option<bool>,
        release: Option<bool>,
        refund: Option<bool>,
    ) -> (r: Result<(), CommonError>)
        ensures
            r == set_paused_result(old(self).pause_admin(), env.caller),
            final(self).pause_flags() == flags_after_set_paused(
                old(self).pause_admin(),
                env.caller,
                old(self).pause_flags(),
                lock,
                release,
                refund,
            ),
            final(self).pause_admin() == old(self).pause_admin(),
            final(self).same_but_flags(old(self)),
    ;
}

} // verus!
