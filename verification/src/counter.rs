//! The protected resource: a counter whose restricted operations ask the
//! access control before they touch the value.

use crate::access_control::{AccessControl, AclState};
use crate::account::AccountId;
use crate::error::Error;
use crate::method::Method;
use crate::role::Role;
use vstd::prelude::*;

verus! {

/// A counter. Anyone may read and increase it; decreasing and resetting it
/// are reserved to the holders of the matching role.
///
/// Its view is the current value.
pub struct Counter {
    value: i64,
}

impl View for Counter {
    type V = i64;

    closed spec fn view(&self) -> i64 {
        self.value
    }
}

/// Whether `caller` may call `method` in `state`: whether it holds one of
/// the roles that open the operation.
pub open spec fn permits(state: AclState, caller: Seq<char>, method: Method) -> bool {
    state.holds_any(caller, method.required_roles())
}

impl Counter {
    /// Creates the counter at zero and makes `own_id`, the identity of the
    /// system itself, super admin of `acl`.
    ///
    /// Fails, and leaves `acl` as it was, where `acl` has a super admin
    /// already.
    pub fn new(acl: &mut AccessControl, own_id: AccountId) -> (made: Result<Counter, Error>)
        ensures
            made.is_ok() == !old(acl)@.initialized(),
            made matches Ok(counter) ==> counter@ == 0 && final(acl)@.is_super_admin(own_id@),
            made matches Err(err) ==> err == Error::SuperAdminInitFailed && final(acl)@ == old(
                acl,
            )@,
            final(acl)@ == old(acl)@.init_super_admin(own_id@),
            final(acl)@.well_formed(),
    {
        if acl.init_super_admin(own_id) {
            Ok(Counter { value: 0 })
        } else {
            Err(Error::SuperAdminInitFailed)
        }
    }

    /// Takes up a counter again at a value that was read from it earlier.
    pub fn from_value(value: i64) -> (counter: Counter)
        ensures
            counter@ == value,
    {
        Counter { value }
    }

    /// The current value. Anyone may read it.
    pub fn value(&self) -> (value: i64)
        ensures
            value == self@,
    {
        self.value
    }

    /// Increases the value by one. Anyone may do so.
    pub fn increment(&mut self)
        requires
            old(self)@ < i64::MAX,
        ensures
            final(self)@ == old(self)@ + 1,
    {
        self.value += 1;
    }

    /// Decreases the value by one, if `caller` holds [`Role::Decrementer`].
    ///
    /// For any other caller the call fails and the value stays as it is.
    pub fn decrement(&mut self, acl: &AccessControl, caller: &AccountId) -> (done: Result<
        (),
        Error,
    >)
        requires
            acl@.has_role(caller@, Role::Decrementer) ==> old(self)@ > i64::MIN,
        ensures
            acl@.has_role(caller@, Role::Decrementer) ==> done.is_ok() && final(self)@ == old(
                self,
            )@ - 1,
            !acl@.has_role(caller@, Role::Decrementer) ==> done == Err::<(), Error>(
                Error::PermissionDenied { method: Method::Decrement },
            ) && final(self)@ == old(self)@,
    {
        proof {
            acl@.lemma_holds_any_of_one(caller@, Role::Decrementer);
        }
        Self::authorize(acl, caller, Method::Decrement)?;
        self.value -= 1;
        Ok(())
    }

    /// Sets the value to zero, if `caller` holds [`Role::Resetter`].
    ///
    /// For any other caller the call fails and the value stays as it is.
    pub fn reset(&mut self, acl: &AccessControl, caller: &AccountId) -> (done: Result<(), Error>)
        ensures
            acl@.has_role(caller@, Role::Resetter) ==> done.is_ok() && final(self)@ == 0,
            !acl@.has_role(caller@, Role::Resetter) ==> done == Err::<(), Error>(
                Error::PermissionDenied { method: Method::Reset },
            ) && final(self)@ == old(self)@,
    {
        proof {
            acl@.lemma_holds_any_of_one(caller@, Role::Resetter);
        }
        Self::authorize(acl, caller, Method::Reset)?;
        self.value = 0;
        Ok(())
    }

    /// Does nothing, if `caller` holds [`Role::Decrementer`] or
    /// [`Role::Resetter`]; fails for any other caller.
    pub fn no_op(&self, acl: &AccessControl, caller: &AccountId) -> (done: Result<(), Error>)
        ensures
            acl@.has_role(caller@, Role::Decrementer) || acl@.has_role(caller@, Role::Resetter)
                ==> done.is_ok(),
            !acl@.has_role(caller@, Role::Decrementer) && !acl@.has_role(caller@, Role::Resetter)
                ==> done == Err::<(), Error>(Error::PermissionDenied { method: Method::NoOp }),
    {
        proof {
            acl@.lemma_holds_any_of_two(caller@, Role::Decrementer, Role::Resetter);
        }
        Self::authorize(acl, caller, Method::NoOp)
    }

    /// Checks that `caller` holds one of the roles that open `method`.
    pub fn authorize(acl: &AccessControl, caller: &AccountId, method: Method) -> (checked: Result<
        (),
        Error,
    >)
        ensures
            permits(acl@, caller@, method) ==> checked.is_ok(),
            !permits(acl@, caller@, method) ==> checked == Err::<(), Error>(
                Error::PermissionDenied { method },
            ),
    {
        let roles = method.roles();
        if acl.any_role_authorized(caller, roles.as_slice()) {
            Ok(())
        } else {
            Err(Error::PermissionDenied { method })
        }
    }
}

} // verus!
