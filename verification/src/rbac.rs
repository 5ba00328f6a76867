//! Instance roles. Role names are checked by the store, so a role here is a transparent
//! wrapper around its name.

use vstd::prelude::*;
use crate::text::owned;

verus! {

/// The role every account receives when it is created.
pub const USER_ROLE: &'static str = "user";

/// The role that administers the deployment.
pub const ADMIN_ROLE: &'static str = "admin";

/// A role granted to an account.
#[derive(Debug, Clone, Hash)]
pub struct RoleName(pub String);

impl PartialEq for RoleName {
    fn eq(&self, other: &Self) -> (r: bool) {
        self.0.eq(&other.0)
    }
}

impl Eq for RoleName {
}

impl vstd::std_specs::cmp::PartialEqSpecImpl for RoleName {
    open spec fn obeys_eq_spec() -> bool {
        true
    }

    open spec fn eq_spec(&self, other: &RoleName) -> bool {
        self.0@ == other.0@
    }
}

impl RoleName {
    /// The name of the role, as characters.
    pub open spec fn name(&self) -> Seq<char> {
        self.0@
    }

    /// Wraps a role name.
    pub fn new(name: String) -> (r: Self)
        ensures
            r.name() == name@,
    {
        RoleName(name)
    }

    /// The default role, `user`.
    pub fn user() -> (r: Self)
        ensures
            r.name() == USER_ROLE@,
    {
        RoleName(owned(USER_ROLE))
    }

    /// The administrator role, `admin`.
    pub fn admin() -> (r: Self)
        ensures
            r.name() == ADMIN_ROLE@,
    {
        RoleName(owned(ADMIN_ROLE))
    }

    /// The role's name.
    pub fn as_str(&self) -> (s: &str)
        ensures
            s@ == self.name(),
    {
        self.0.as_str()
    }

    /// Whether this is the administrator role.
    pub fn is_admin(&self) -> (b: bool)
        ensures
            b == (self.name() == ADMIN_ROLE@),
    {
        let admin = owned(ADMIN_ROLE);
        self.0.eq(&admin)
    }

    /// The role's name as an owned string: what `Display` prints.
    pub fn to_string(&self) -> (s: String)
        ensures
            s@ == self.name(),
    {
        self.0.clone()
    }
}

/// Whether `role` is among `roles`.
pub fn holds_role(roles: &Vec<RoleName>, role: &RoleName) -> (b: bool)
    ensures
        b == exists|i: int| 0 <= i < roles@.len() && (#[trigger] roles@[i]).name() == role.name(),
{
    let mut i: usize = 0;
    while i < roles.len()
        invariant
            i <= roles@.len(),
            forall|j: int| 0 <= j < i ==> (#[trigger] roles@[j]).name() != role.name(),
        decreases roles@.len() - i,
    {
        if roles[i].0.eq(&role.0) {
            return true;
        }
        i = i + 1;
    }
    false
}

} // verus!
