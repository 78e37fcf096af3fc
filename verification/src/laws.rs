//! What holds of sequences of administrative calls, whatever the state they
//! start from.

use crate::access_control::AclState;
use crate::counter::permits;
use crate::method::Method;
use crate::role::Role;
use vstd::prelude::*;

verus! {

/// A grant that is revoked at once leaves `account` without `role` and
/// touches no other membership and no super admin. Where `account` did not
/// hold `role` before, it gives back the very state from which the grant
/// started, so that every operation is open to `account` exactly as it was.
pub proof fn lemma_grant_then_revoke(
    state: AclState,
    admin: Seq<char>,
    account: Seq<char>,
    role: Role,
)
    requires
        state.is_super_admin(admin),
    ensures
        ({
            let granted = state.grant(admin, account, role);
            let revoked = granted.revoke(admin, account, role);
            &&& granted.has_role(account, role)
            &&& granted.revoke_outcome(admin, account, role) == Some(true)
            &&& !revoked.has_role(account, role)
            &&& revoked.super_admins == state.super_admins
            &&& forall|other: Seq<char>, any: Role|
                (any, other) != (role, account) ==> revoked.has_role(other, any) == state.has_role(
                    other,
                    any,
                )
            &&& !state.has_role(account, role) ==> revoked == state
            &&& !state.has_role(account, role) ==> forall|method: Method|
                permits(revoked, account, method) == permits(state, account, method)
        }),
{
    let revoked = state.grant(admin, account, role).revoke(admin, account, role);
    if !state.has_role(account, role) {
        assert(revoked.grants =~= state.grants);
    }
}

/// Of two grants of the same role to the same account the second is told
/// that nothing was added, and leaves the state as the first one made it.
/// The first is told that the grant is new where `account` did not hold
/// `role` before.
pub proof fn lemma_double_grant(state: AclState, admin: Seq<char>, account: Seq<char>, role: Role)
    requires
        state.is_super_admin(admin),
    ensures
        ({
            let once = state.grant(admin, account, role);
            let twice = once.grant(admin, account, role);
            &&& !state.has_role(account, role) ==> state.grant_outcome(admin, account, role)
                == Some(true)
            &&& once.grant_outcome(admin, account, role) == Some(false)
            &&& twice == once
        }),
{
    let once = state.grant(admin, account, role);
    let twice = once.grant(admin, account, role);
    assert(twice.grants =~= once.grants);
}

/// After the bootstrap has been asked once, asking again is answered with
/// `false` and changes nothing, whoever is named. The bootstrap never makes
/// a second super admin, and from the empty state it makes exactly the one
/// that was named.
pub proof fn lemma_bootstrap_once(state: AclState, first: Seq<char>, second: Seq<char>)
    ensures
        ({
            let booted = state.init_super_admin(first);
            &&& booted.initialized()
            &&& !booted.init_outcome()
            &&& booted.init_super_admin(second) == booted
            &&& state.well_formed() ==> booted.well_formed()
            &&& booted.grants == state.grants
        }),
        AclState::empty().init_super_admin(first).super_admins == set![first],
{
    let booted = state.init_super_admin(first);
    if !state.initialized() {
        assert(booted.super_admins.contains(first));
    }
}

/// A caller without the super-admin capability changes nothing and is told
/// nothing, whether it asks to grant or to revoke.
pub proof fn lemma_outsider_changes_nothing(
    state: AclState,
    caller: Seq<char>,
    account: Seq<char>,
    role: Role,
)
    requires
        !state.is_super_admin(caller),
    ensures
        state.grant(caller, account, role) == state,
        state.grant_outcome(caller, account, role).is_none(),
        state.revoke(caller, account, role) == state,
        state.revoke_outcome(caller, account, role).is_none(),
{
}

} // verus!
