//! The restricted operations and the roles that open them.

use crate::role::Role;
use vstd::prelude::*;

verus! {

/// An operation of the counter that only holders of certain roles may call.
#[derive(Clone, Copy, Debug, PartialEq, Eq, Structural)]
pub enum Method {
    /// Decrease the value by one.
    Decrement,
    /// Set the value to zero.
    Reset,
    /// Change nothing.
    NoOp,
}

impl Method {
    /// The roles that open the operation, in the order in which it declares
    /// them.
    pub open spec fn role_list(self) -> Seq<Role> {
        match self {
            Method::Decrement => seq![Role::Decrementer],
            Method::Reset => seq![Role::Resetter],
            Method::NoOp => seq![Role::Decrementer, Role::Resetter],
        }
    }

    /// The roles that open the operation: holding any one of them suffices.
    pub open spec fn required_roles(self) -> Set<Role> {
        match self {
            Method::Decrement => set![Role::Decrementer],
            Method::Reset => set![Role::Resetter],
            Method::NoOp => set![Role::Decrementer, Role::Resetter],
        }
    }

    /// The roles that open the operation: holding any one of them suffices.
    pub fn roles(self) -> (roles: Vec<Role>)
        ensures
            roles@ == self.role_list(),
            roles@.to_set() == self.required_roles(),
    {
        let mut roles: Vec<Role> = Vec::new();
        match self {
            Method::Decrement => {
                roles.push(Role::Decrementer);
            },
            Method::Reset => {
                roles.push(Role::Resetter);
            },
            Method::NoOp => {
                roles.push(Role::Decrementer);
                roles.push(Role::Resetter);
            },
        }
        proof {
            assert forall|role: Role| self.required_roles().contains(role) implies roles@.contains(
                role,
            ) by {
                if role != roles@[0] {
                    assert(role == roles@[1]);
                }
            }
        }
        roles
    }
}

} // verus!
