//! The roles an account can hold.

use vstd::prelude::*;

verus! {

/// A permission tag. The set of roles is closed: these two and no others.
#[derive(Clone, Copy, Debug, PartialEq, Eq, Structural)]
pub enum Role {
    /// Holders may decrease the counter.
    Decrementer,
    /// Holders may reset the counter.
    Resetter,
}

impl Role {
    /// The name under which the role is known to callers.
    pub open spec fn name_text(self) -> Seq<char> {
        match self {
            Role::Decrementer => "Decrementer"@,
            Role::Resetter => "Resetter"@,
        }
    }

    /// The role that goes by `name`, if there is one.
    pub open spec fn named(name: Seq<char>) -> Option<Role> {
        if name == "Decrementer"@ {
            Some(Role::Decrementer)
        } else if name == "Resetter"@ {
            Some(Role::Resetter)
        } else {
            None
        }
    }

    /// The name under which the role is known to callers.
    pub fn name(self) -> (name: &'static str)
        ensures
            name@ == self.name_text(),
    {
        match self {
            Role::Decrementer => "Decrementer",
            Role::Resetter => "Resetter",
        }
    }

    /// The role that goes by `name`; `None` where `name` is no role's name.
    pub fn from_name(name: &str) -> (found: Option<Role>)
        ensures
            found == Role::named(name@),
    {
        let name = name.to_owned();
        if name == "Decrementer".to_owned() {
            Some(Role::Decrementer)
        } else if name == "Resetter".to_owned() {
            Some(Role::Resetter)
        } else {
            None
        }
    }

    /// Every role is found again by its name.
    pub proof fn lemma_name_round_trip(self)
        ensures
            Role::named(self.name_text()) == Some(self),
    {
        reveal_strlit("Decrementer");
        reveal_strlit("Resetter");
        assert("Decrementer"@.len() != "Resetter"@.len());
    }
}

} // verus!
