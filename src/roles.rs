use vstd::prelude::*;

use crate::text::{lower_of, lowercase, same_text};

verus! {

/// The closed set of roles a user can hold. `Admin` is the universal
/// override: no other privilege order is assumed.
#[derive(Debug, Clone, Copy, PartialEq, Eq, Structural)]
pub enum UserRole {
    Admin,
    Manager,
    User,
}

/// The role spelled by a lower-case name, if any.
pub open spec fn role_named(s: Seq<char>) -> Option<UserRole> {
    if s == "admin"@ {
        Some(UserRole::Admin)
    } else if s == "manager"@ {
        Some(UserRole::Manager)
    } else if s == "user"@ {
        Some(UserRole::User)
    } else {
        None
    }
}

/// The lower-case name of a role.
pub open spec fn role_name(r: UserRole) -> Seq<char> {
    match r {
        UserRole::Admin => "admin"@,
        UserRole::Manager => "manager"@,
        UserRole::User => "user"@,
    }
}

/// The admission rule of role authorization: the override role is admitted
/// whatever the allow-list says; any other role must be listed itself. The
/// override role appearing in the list grants nothing to other roles.
pub open spec fn role_admitted(caller: UserRole, allowed: Seq<UserRole>) -> bool {
    caller == UserRole::Admin || exists|i: int|
        0 <= i < allowed.len() && allowed[i] == caller && allowed[i] != UserRole::Admin
}

impl UserRole {
    /// Parses a role name, ignoring case.
    pub fn from_str(role: &str) -> (r: Option<UserRole>)
        ensures
            r == role_named(lower_of(role@)),
    {
        let lowered = lowercase(role);
        UserRole::from_lowercase(lowered.as_str())
    }

    /// Parses a role name that is already in lower case.
    pub fn from_lowercase(name: &str) -> (r: Option<UserRole>)
        ensures
            r == role_named(name@),
    {
        if same_text(name, "admin") {
            Some(UserRole::Admin)
        } else if same_text(name, "manager") {
            Some(UserRole::Manager)
        } else if same_text(name, "user") {
            Some(UserRole::User)
        } else {
            None
        }
    }

    /// The lower-case name of the role.
    pub fn to_string(&self) -> (r: String)
        ensures
            r@ == role_name(*self),
    {
        match self {
            UserRole::Admin => String::from_str("admin"),
            UserRole::Manager => String::from_str("manager"),
            UserRole::User => String::from_str("user"),
        }
    }

    /// Whether this is the universal-override role.
    pub fn is_override(&self) -> (r: bool)
        ensures
            r == (*self == UserRole::Admin),
    {
        match self {
            UserRole::Admin => true,
            _ => false,
        }
    }

    /// Whether a caller holding this role may pass a gate configured with
    /// the allow-list `allowed`.
    pub fn satisfies(&self, allowed: &Vec<UserRole>) -> (r: bool)
        ensures
            r == role_admitted(*self, allowed@),
    {
        if self.is_override() {
            return true;
        }
        let mut i: usize = 0;
        while i < allowed.len()
            invariant
                *self != UserRole::Admin,
                i <= allowed@.len(),
                forall|j: int| 0 <= j < i ==> !(allowed@[j] == *self && allowed@[j] != UserRole::Admin),
            decreases allowed@.len() - i,
        {
            let listed = allowed[i];
            if !listed.is_override() && listed == *self {
                return true;
            }
            i = i + 1;
        }
        false
    }
}

/// A caller holding the override role passes every allow-list, including an
/// empty one and one that does not name that role.
pub proof fn override_passes_every_gate(allowed: Seq<UserRole>)
    ensures
        role_admitted(UserRole::Admin, allowed),
{
}

/// Listing the override role admits nobody else: a list holding only that
/// role admits only callers who hold it.
pub proof fn listed_override_grants_nothing(caller: UserRole)
    ensures
        role_admitted(caller, seq![UserRole::Admin]) == (caller == UserRole::Admin),
{
}

} // verus!
