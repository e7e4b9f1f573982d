//! The single admin of a contract instance and how the role is handed on.

use vstd::prelude::*;
use crate::address::{Address, Env};
use crate::error::CommonError;

verus! {

/// Whether `caller` is the current admin. Nobody is while no admin is set.
pub open spec fn is_admin(admin: Option<Address>, caller: Address) -> bool {
    admin == Some(caller)
}

/// The outcome of a transfer of the admin role asked for by `caller`:
/// `NotInitialized` while no admin is set, `Unauthorized` for everyone but
/// the admin.
pub open spec fn transfer_admin_result(admin: Option<Address>, caller: Address) -> Result<
    (),
    CommonError,
> {
    match admin {
        None => Err(CommonError::NotInitialized),
        Some(current) => if current == caller {
            Ok(())
        } else {
            Err(CommonError::Unauthorized)
        },
    }
}

/// The admin after a transfer to `new_admin` asked for by `caller`: the new
/// one at once where the transfer succeeds, the old one where it fails.
pub open spec fn admin_after_transfer(
    admin: Option<Address>,
    caller: Address,
    new_admin: Address,
) -> Option<Address> {
    if transfer_admin_result(admin, caller) is Ok {
        Some(new_admin)
    } else {
        admin
    }
}

/// Decides whether `caller` is the current admin.
pub fn check_admin(admin: Option<Address>, caller: Address) -> (b: bool)
    ensures
        b == is_admin(admin, caller),
{
    match admin {
        Some(current) => current == caller,
        None => false,
    }
}

/// Decides a transfer of the admin role and returns the admin that holds
/// afterwards.
pub fn transfer_admin_role(admin: Option<Address>, caller: Address, new_admin: Address) -> (r: (
    Option<Address>,
    Result<(), CommonError>,
))
    ensures
        r.0 == admin_after_transfer(admin, caller, new_admin),
        r.1 == transfer_admin_result(admin, caller),
{
    match admin {
        None => (admin, Err(CommonError::NotInitialized)),
        Some(current) => {
            if current == caller {
                (Some(new_admin), Ok(()))
            } else {
                (admin, Err(CommonError::Unauthorized))
            }
        },
    }
}

/// A transfer asked for by anyone but the admin in place fails with
/// `Unauthorized` and leaves that admin in place.
pub proof fn lemma_non_admin_cannot_transfer(
    admin: Option<Address>,
    caller: Address,
    new_admin: Address,
)
    requires
        admin is Some,
        !is_admin(admin, caller),
    ensures
        transfer_admin_result(admin, caller) == Err::<(), CommonError>(CommonError::Unauthorized),
        admin_after_transfer(admin, caller, new_admin) == admin,
{
}

/// A transfer succeeds exactly for the admin, and then the new admin is in
/// place at once: a second transfer by the old admin is refused unless the
/// role went to that same identity.
pub proof fn lemma_transfer_is_immediate(
    admin: Option<Address>,
    caller: Address,
    new_admin: Address,
    next: Address,
)
    ensures
        transfer_admin_result(admin, caller) is Ok <==> is_admin(admin, caller),
        is_admin(admin, caller) ==> admin_after_transfer(admin, caller, new_admin) == Some(
            new_admin,
        ),
        is_admin(admin, caller) && new_admin != caller ==> transfer_admin_result(
            admin_after_transfer(admin, caller, new_admin),
            caller,
        ) == Err::<(), CommonError>(CommonError::Unauthorized),
{
}

/// A contract with a single admin.
pub trait AdminManaged {
    /// The admin in place; `None` before initialization.
    spec fn admin(&self) -> Option<Address>;

    /// Whether this value holds all that `before` held, the admin aside. An
    /// implementation says here what else it holds, so that a transfer of the
    /// admin role can promise to leave it alone.
    spec fn same_but_admin(&self, before: &Self) -> bool;

    /// The admin in place; `None` before initialization. Never fails.
    fn get_admin(&self, env: Env) -> (r: Option<Address>)
        ensures
            r == self.admin(),
    ;

    /// Hands the admin role to `new_admin`, at once and with no handshake.
    /// Only the admin may do so. Nothing but the admin changes.
    fn transfer_admin(&mut self, env: Env, new_admin: Address) -> (r: Result<(), CommonError>)
        ensures
            r == transfer_admin_result(old(self).admin(), env.caller),
            final(self).admin() == admin_after_transfer(old(self).admin(), env.caller, new_admin),
            final(self).same_but_admin(old(self)),
    ;
}

} // verus!
