//! Caller identities.

use vstd::prelude::*;

verus! {

/// The identity of an account, as handed over by the host.
///
/// The library never looks inside an identity: it only asks whether two of
/// them are the same. Its view is the identity's text.
#[derive(Debug)]
pub struct AccountId {
    name: String,
}

impl View for AccountId {
    type V = Seq<char>;

    closed spec fn view(&self) -> Seq<char> {
        self.name@
    }
}

impl AccountId {
    /// Wraps the text of an identity.
    pub fn new(name: &str) -> (id: AccountId)
        ensures
            id@ == name@,
    {
        AccountId { name: name.to_owned() }
    }

    /// The text of the identity.
    pub fn as_str(&self) -> (name: &str)
        ensures
            name@ == self@,
    {
        self.name.as_str()
    }
}

/// Two identities are equal where their texts are.
impl PartialEq for AccountId {
    fn eq(&self, other: &AccountId) -> (same: bool) {
        self.name == other.name
    }
}

impl Eq for AccountId {

}

impl vstd::std_specs::cmp::PartialEqSpecImpl for AccountId {
    open spec fn obeys_eq_spec() -> bool {
        true
    }

    open spec fn eq_spec(&self, other: &AccountId) -> bool {
        self@ == other@
    }
}

impl Clone for AccountId {
    fn clone(&self) -> (copy: AccountId)
        ensures
            copy@ == self@,
    {
        AccountId { name: self.name.clone() }
    }
}

} // verus!
