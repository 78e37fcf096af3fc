//! Who may act: the super admin and the holders of each role.

use crate::account::AccountId;
use crate::role::Role;
use vstd::prelude::*;

verus! {

/// What an [`AccessControl`] knows, as plain mathematics: the accounts with
/// the super-admin capability and the pairs of a role and an account that
/// holds it. Accounts are given by the text of their identity.
pub struct AclState {
    pub super_admins: Set<Seq<char>>,
    pub grants: Set<(Role, Seq<char>)>,
}

impl AclState {
    /// The state before anything has happened: no super admin, no grants.
    pub open spec fn empty() -> AclState {
        AclState { super_admins: Set::empty(), grants: Set::empty() }
    }

    /// Whether `account` has the super-admin capability.
    pub open spec fn is_super_admin(self, account: Seq<char>) -> bool {
        self.super_admins.contains(account)
    }

    /// Whether `account` holds `role`.
    pub open spec fn has_role(self, account: Seq<char>, role: Role) -> bool {
        self.grants.contains((role, account))
    }

    /// Whether `account` holds at least one of `roles`.
    pub open spec fn holds_any(self, account: Seq<char>, roles: Set<Role>) -> bool {
        exists|role: Role| roles.contains(role) && self.has_role(account, role)
    }

    /// Whether the bootstrap has taken place: some account is super admin.
    pub open spec fn initialized(self) -> bool {
        exists|account: Seq<char>| self.super_admins.contains(account)
    }

    /// No two distinct accounts are super admin.
    pub open spec fn well_formed(self) -> bool {
        forall|a: Seq<char>, b: Seq<char>|
            self.super_admins.contains(a) && self.super_admins.contains(b) ==> a == b
    }

    /// What the bootstrap answers: whether it is the first.
    pub open spec fn init_outcome(self) -> bool {
        !self.initialized()
    }

    /// The state after the bootstrap was asked to make `account` super admin:
    /// it does so only where no super admin exists yet.
    pub open spec fn init_super_admin(self, account: Seq<char>) -> AclState {
        if self.initialized() {
            self
        } else {
            AclState { super_admins: self.super_admins.insert(account), grants: self.grants }
        }
    }

    /// The state after `caller` asked to grant `role` to `account`.
    pub open spec fn grant(self, caller: Seq<char>, account: Seq<char>, role: Role) -> AclState {
        if self.is_super_admin(caller) {
            AclState {
                super_admins: self.super_admins,
                grants: self.grants.insert((role, account)),
            }
        } else {
            self
        }
    }

    /// What `caller` is told on asking to grant `role` to `account`: nothing
    /// without the super-admin capability, else whether the grant is new.
    pub open spec fn grant_outcome(
        self,
        caller: Seq<char>,
        account: Seq<char>,
        role: Role,
    ) -> Option<bool> {
        if self.is_super_admin(caller) {
            Some(!self.has_role(account, role))
        } else {
            None
        }
    }

    /// The state after `caller` asked to revoke `role` from `account`.
    pub open spec fn revoke(self, caller: Seq<char>, account: Seq<char>, role: Role) -> AclState {
        if self.is_super_admin(caller) {
            AclState {
                super_admins: self.super_admins,
                grants: self.grants.remove((role, account)),
            }
        } else {
            self
        }
    }

    /// What `caller` is told on asking to revoke `role` from `account`:
    /// nothing without the super-admin capability, else whether a grant was
    /// taken away.
    pub open spec fn revoke_outcome(
        self,
        caller: Seq<char>,
        account: Seq<char>,
        role: Role,
    ) -> Option<bool> {
        if self.is_super_admin(caller) {
            Some(self.has_role(account, role))
        } else {
            None
        }
    }

    /// To hold any of a single role is to hold that role.
    pub proof fn lemma_holds_any_of_one(self, account: Seq<char>, role: Role)
        ensures
            self.holds_any(account, set![role]) == self.has_role(account, role),
    {
        if self.has_role(account, role) {
            assert(set![role].contains(role));
        }
    }

    /// To hold any of two roles is to hold the one or the other.
    pub proof fn lemma_holds_any_of_two(self, account: Seq<char>, first: Role, second: Role)
        ensures
            self.holds_any(account, set![first, second]) == (self.has_role(account, first)
                || self.has_role(account, second)),
    {
        if self.has_role(account, first) {
            assert(set![first, second].contains(first));
        }
        if self.has_role(account, second) {
            assert(set![first, second].contains(second));
        }
    }
}

/// One entry of the membership relation.
struct Grant {
    role: Role,
    account: AccountId,
}

impl Grant {
    spec fn key(self) -> (Role, Seq<char>) {
        (self.role, self.account@)
    }
}

/// The texts of the identities in `accounts`, in their order.
pub open spec fn texts(accounts: Seq<AccountId>) -> Seq<Seq<char>> {
    accounts.map_values(|account: AccountId| account@)
}

/// The accounts with the super-admin capability where `admin`, if anyone, has
/// it.
spec fn admin_set(admin: Option<AccountId>) -> Set<Seq<char>> {
    match admin {
        Some(account) => set![account@],
        None => Set::empty(),
    }
}

/// The pairs that occur in `grants`.
spec fn grant_set(grants: Seq<Grant>) -> Set<(Role, Seq<char>)> {
    Set::new(
        |pair: (Role, Seq<char>)| exists|i: int| 0 <= i < grants.len() && grants[i].key() == pair,
    )
}

/// Whether one of the first `upto` entries of `grants` gives `role` to
/// `account`.
spec fn granted_before(grants: Seq<Grant>, upto: int, role: Role, account: Seq<char>) -> bool {
    exists|j: int| 0 <= j < upto && j < grants.len() && grants[j].key() == (role, account)
}

/// Whether `account` occurs in `list`.
spec fn listed(list: Seq<AccountId>, account: Seq<char>) -> bool {
    exists|k: int| 0 <= k < list.len() && list[k]@ == account
}

/// No pair occurs twice in `grants`.
spec fn distinct_grants(grants: Seq<Grant>) -> bool {
    forall|i: int, j: int|
        0 <= i < j < grants.len() ==> grants[i].key() != grants[j].key()
}

/// The authorization core: the single source of truth for who is super admin
/// and who holds which role.
pub struct AccessControl {
    super_admin: Option<AccountId>,
    grants: Vec<Grant>,
}

impl View for AccessControl {
    type V = AclState;

    closed spec fn view(&self) -> AclState {
        AclState { super_admins: admin_set(self.super_admin), grants: grant_set(self.grants@) }
    }
}

impl AccessControl {
    #[verifier::type_invariant]
    spec fn inv(&self) -> bool {
        distinct_grants(self.grants@)
    }

    /// An access control without super admin and without grants.
    pub fn new() -> (acl: AccessControl)
        ensures
            acl@ == AclState::empty(),
            acl@.well_formed(),
    {
        let acl = AccessControl { super_admin: None, grants: Vec::new() };
        assert(acl@.grants =~= Set::empty());
        acl
    }

    /// Whether `account` has the super-admin capability.
    pub fn is_super_admin(&self, account: &AccountId) -> (yes: bool)
        ensures
            yes == self@.is_super_admin(account@),
    {
        match &self.super_admin {
            Some(admin) => *admin == *account,
            None => false,
        }
    }

    /// Whether `account` holds `role`.
    pub fn has_role(&self, account: &AccountId, role: Role) -> (yes: bool)
        ensures
            yes == self@.has_role(account@, role),
    {
        self.find_grant(account, role).is_some()
    }

    /// Whether `caller` holds at least one of `roles`: what an operation
    /// that is restricted to several roles asks before it runs.
    pub fn any_role_authorized(&self, caller: &AccountId, roles: &[Role]) -> (yes: bool)
        ensures
            yes == self@.holds_any(caller@, roles@.to_set()),
    {
        let mut i: usize = 0;
        while i < roles.len()
            invariant
                i <= roles@.len(),
                forall|k: int| 0 <= k < i ==> !self@.has_role(caller@, roles@[k]),
            decreases roles@.len() - i,
        {
            if self.has_role(caller, roles[i]) {
                assert(roles@.to_set().contains(roles@[i as int]));
                return true;
            }
            i += 1;
        }
        false
    }

    /// The bootstrap: makes `account` super admin where there is none yet.
    ///
    /// Returns whether it did. Where a super admin exists already, nothing
    /// changes and the answer is `false`.
    pub fn init_super_admin(&mut self, account: AccountId) -> (done: bool)
        ensures
            done == old(self)@.init_outcome(),
            final(self)@ == old(self)@.init_super_admin(account@),
            final(self)@.well_formed(),
    {
        proof {
            use_type_invariant(&*self);
        }
        if self.super_admin.is_some() {
            assert(self@.super_admins.contains(self.super_admin.unwrap()@));
            return false;
        }
        self.super_admin = Some(account);
        true
    }

    /// Grants `role` to `account` on behalf of `caller`.
    ///
    /// Only a super admin may grant. For any other caller nothing changes and
    /// the answer is `None`. For a super admin the answer says whether
    /// `account` holds the role newly (`Some(true)`) or held it already
    /// (`Some(false)`).
    pub fn grant_role(&mut self, caller: &AccountId, account: &AccountId, role: Role) -> (outcome:
        Option<bool>)
        ensures
            outcome == old(self)@.grant_outcome(caller@, account@, role),
            final(self)@ == old(self)@.grant(caller@, account@, role),
            !old(self)@.is_super_admin(caller@) ==> outcome.is_none() && final(self)@ == old(self)@,
            final(self)@.well_formed(),
    {
        proof {
            use_type_invariant(&*self);
        }
        if !self.is_super_admin(caller) {
            return None;
        }
        if self.has_role(account, role) {
            assert(self@.grants =~= self@.grants.insert((role, account@)));
            return Some(false);
        }
        let ghost before = self.grants@;
        let mut grants: Vec<Grant> = Vec::new();
        std::mem::swap(&mut grants, &mut self.grants);
        grants.push(Grant { role, account: account.clone() });
        proof {
            lemma_push_grant(before, grants@[before.len() as int]);
        }
        self.grants = grants;
        Some(true)
    }

    /// Revokes `role` from `account` on behalf of `caller`.
    ///
    /// Only a super admin may revoke. For any other caller nothing changes
    /// and the answer is `None`. For a super admin the answer says whether
    /// `account` held the role until now (`Some(true)`) or did not hold it
    /// anyway (`Some(false)`).
    pub fn revoke_role(&mut self, caller: &AccountId, account: &AccountId, role: Role) -> (outcome:
        Option<bool>)
        ensures
            outcome == old(self)@.revoke_outcome(caller@, account@, role),
            final(self)@ == old(self)@.revoke(caller@, account@, role),
            !old(self)@.is_super_admin(caller@) ==> outcome.is_none() && final(self)@ == old(self)@,
            final(self)@.well_formed(),
    {
        proof {
            use_type_invariant(&*self);
        }
        if !self.is_super_admin(caller) {
            return None;
        }
        match self.find_grant(account, role) {
            None => {
                assert(self@.grants =~= self@.grants.remove((role, account@)));
                Some(false)
            },
            Some(at) => {
                let ghost before = self.grants@;
                let mut grants: Vec<Grant> = Vec::new();
                std::mem::swap(&mut grants, &mut self.grants);
                grants.remove(at);
                proof {
                    lemma_remove_grant(before, at as int);
                }
                self.grants = grants;
                Some(true)
            },
        }
    }

    /// The super admin, if the bootstrap has taken place.
    pub fn super_admin(&self) -> (found: Option<AccountId>)
        ensures
            found.is_some() == self@.initialized(),
            found matches Some(admin) ==> self@.super_admins == set![admin@],
            self@.well_formed(),
    {
        match &self.super_admin {
            Some(admin) => {
                assert(self@.super_admins.contains(admin@));
                Some(admin.clone())
            },
            None => None,
        }
    }

    /// The accounts that hold `role`, each once.
    pub fn grantees(&self, role: Role) -> (list: Vec<AccountId>)
        ensures
            forall|account: Seq<char>|
                texts(list@).contains(account) <==> self@.has_role(account, role),
            texts(list@).no_duplicates(),
    {
        proof {
            use_type_invariant(self);
        }
        let mut list: Vec<AccountId> = Vec::new();
        let mut i: usize = 0;
        while i < self.grants.len()
            invariant
                i <= self.grants@.len(),
                distinct_grants(self.grants@),
                forall|k: int|
                    0 <= k < list@.len() ==> granted_before(
                        self.grants@,
                        i as int,
                        role,
                        #[trigger] list@[k]@,
                    ),
                forall|j: int|
                    0 <= j < i && self.grants@[j].role == role ==> listed(
                        list@,
                        #[trigger] self.grants@[j].account@,
                    ),
                forall|k: int, l: int|
                    0 <= k < l < list@.len() ==> #[trigger] list@[k]@ != #[trigger] list@[l]@,
            decreases self.grants@.len() - i,
        {
            if self.grants[i].role == role {
                let ghost before = list@;
                list.push(self.grants[i].account.clone());
                proof {
                    let last = before.len() as int;
                    assert(list@[last]@ == self.grants@[i as int].account@);
                    assert forall|j: int| 0 <= j < i && self.grants@[j].role == role implies listed(
                        list@,
                        #[trigger] self.grants@[j].account@,
                    ) by {
                        let k = choose|k: int|
                            0 <= k < before.len() && before[k]@ == self.grants@[j].account@;
                        assert(list@[k] == before[k]);
                    }
                }
            }
            i += 1;
        }
        proof {
            assert forall|account: Seq<char>| self@.has_role(account, role) implies texts(
                list@,
            ).contains(account) by {
                let j = choose|j: int|
                    0 <= j < self.grants@.len() && self.grants@[j].key() == (role, account);
                assert(listed(list@, self.grants@[j].account@));
                let k = choose|k: int| 0 <= k < list@.len() && list@[k]@ == account;
                assert(texts(list@)[k] == account);
            }
        }
        list
    }

    /// Where the grant of `role` to `account` stands, if it was made.
    fn find_grant(&self, account: &AccountId, role: Role) -> (found: Option<usize>)
        ensures
            found.is_some() == self@.has_role(account@, role),
            found matches Some(at) ==> at < self.grants@.len() && self.grants@[at as int].key() == (
                role,
                account@,
            ),
    {
        let mut i: usize = 0;
        while i < self.grants.len()
            invariant
                i <= self.grants@.len(),
                forall|k: int| 0 <= k < i ==> self.grants@[k].key() != (role, account@),
            decreases self.grants@.len() - i,
        {
            if self.grants[i].role == role && self.grants[i].account == *account {
                return Some(i);
            }
            i += 1;
        }
        None
    }
}

/// Adding an entry whose pair is new keeps the list without repetitions and
/// adds its pair, and only its pair, to the relation.
proof fn lemma_push_grant(grants: Seq<Grant>, grant: Grant)
    requires
        distinct_grants(grants),
        !grant_set(grants).contains(grant.key()),
    ensures
        distinct_grants(grants.push(grant)),
        grant_set(grants.push(grant)) == grant_set(grants).insert(grant.key()),
{
    let longer = grants.push(grant);
    assert forall|pair: (Role, Seq<char>)|
        grant_set(grants).insert(grant.key()).contains(pair) implies grant_set(longer).contains(
        pair,
    ) by {
        if pair == grant.key() {
            assert(longer[grants.len() as int].key() == pair);
        } else {
            let i = choose|i: int| 0 <= i < grants.len() && grants[i].key() == pair;
            assert(longer[i].key() == pair);
        }
    }
}

/// Taking the entry at `at` out of a list without repetitions takes its pair,
/// and only its pair, out of the relation.
proof fn lemma_remove_grant(grants: Seq<Grant>, at: int)
    requires
        distinct_grants(grants),
        0 <= at < grants.len(),
    ensures
        distinct_grants(grants.remove(at)),
        grant_set(grants.remove(at)) == grant_set(grants).remove(grants[at].key()),
{
    let rest = grants.remove(at);
    assert forall|pair: (Role, Seq<char>)|
        grant_set(grants).remove(grants[at].key()).contains(pair) implies grant_set(rest).contains(
        pair,
    ) by {
        let i = choose|i: int| 0 <= i < grants.len() && grants[i].key() == pair;
        if i < at {
            assert(rest[i].key() == pair);
        } else {
            assert(rest[i - 1].key() == pair);
        }
    }
}

} // verus!
