//! A counter whose mutating operations are guarded by role-based access
//! control.
//!
//! [`AccessControl`] records who the super admin is and which account holds
//! which [`Role`]. [`Counter`] holds the protected integer and consults the
//! access control before every restricted operation.

pub mod access_control;
pub mod account;
pub mod counter;
pub mod error;
pub mod laws;
pub mod method;
pub mod role;

pub use access_control::{AccessControl, AclState};
pub use account::AccountId;
pub use counter::Counter;
pub use error::Error;
pub use method::Method;
pub use role::Role;
