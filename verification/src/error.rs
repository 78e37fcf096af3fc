//! Why a call is aborted.

use crate::method::Method;
use vstd::prelude::*;

verus! {

/// The failures that abort a call. Whoever gets one has changed nothing.
#[derive(Clone, Copy, Debug, PartialEq, Eq, Structural)]
pub enum Error {
    /// The bootstrap found a super admin in place.
    SuperAdminInitFailed,
    /// The caller holds none of the roles that open the operation.
    PermissionDenied { method: Method },
}

impl Error {
    /// The text of the failure.
    pub open spec fn message_text(self) -> Seq<char> {
        match self {
            Error::SuperAdminInitFailed => "Failed to initialize super admin"@,
            Error::PermissionDenied { method: Method::Decrement } =>
                "Insufficient permissions for method decrement restricted by access control. Requires one of these roles: [\"Decrementer\"]"@,
            Error::PermissionDenied { method: Method::Reset } =>
                "Insufficient permissions for method reset restricted by access control. Requires one of these roles: [\"Resetter\"]"@,
            Error::PermissionDenied { method: Method::NoOp } =>
                "Insufficient permissions for method no_op restricted by access control. Requires one of these roles: [\"Decrementer\", \"Resetter\"]"@,
        }
    }

    /// The text of the failure. For a denied call it names the operation and
    /// the roles that would have opened it.
    pub fn message(&self) -> (text: String)
        ensures
            text@ == self.message_text(),
    {
        match self {
            Error::SuperAdminInitFailed => "Failed to initialize super admin".to_owned(),
            Error::PermissionDenied { method: Method::Decrement } =>
                "Insufficient permissions for method decrement restricted by access control. Requires one of these roles: [\"Decrementer\"]".to_owned(),
            Error::PermissionDenied { method: Method::Reset } =>
                "Insufficient permissions for method reset restricted by access control. Requires one of these roles: [\"Resetter\"]".to_owned(),
            Error::PermissionDenied { method: Method::NoOp } =>
                "Insufficient permissions for method no_op restricted by access control. Requires one of these roles: [\"Decrementer\", \"Resetter\"]".to_owned(),
        }
    }
}

} // verus!
