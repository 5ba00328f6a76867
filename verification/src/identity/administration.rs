//! The rules of account administration.
//!
//! The invariant is that an instance always keeps at least one administrator who can sign in.
//! It is upheld by two complementary rules:
//!
//! * Status changes and deletions refuse to target the caller. The caller is provably an
//!   active administrator, so at least one such account always survives them.
//! * Role changes may target the caller, so an administrator can step down, but only while
//!   somebody else still holds the role.

use vstd::prelude::*;
use crate::identity::error::{IdentityError, IdentityErrorView};
use crate::identity::model::{UserStatus, normalize_email, unicode_lowercase};
use crate::rbac::{ADMIN_ROLE, RoleName, holds_role};
use crate::text::trim;

verus! {

/// Status changes and deletions may not target the caller.
pub fn refuse_self(target_id: u128, actor_id: u128) -> (r: Result<(), IdentityError>)
    ensures
        r is Ok <==> target_id != actor_id,
        r matches Err(e) ==> e@ == IdentityErrorView::SelfTargeted,
{
    if target_id == actor_id {
        Err(IdentityError::SelfTargeted)
    } else {
        Ok(())
    }
}

/// Whether setting this status also signs the account out everywhere: disabling is normally a
/// response to abuse, so it takes effect on every device at once.
pub fn status_revokes_sessions(status: UserStatus) -> (b: bool)
    ensures
        b == (status == UserStatus::Disabled),
{
    match status {
        UserStatus::Disabled => true,
        _ => false,
    }
}

/// The address a deletion must be confirmed with matches the account's, once normalised.
pub fn check_deletion_confirmation(confirm_email: &str, account_email: &String) -> (r: Result<
    (),
    IdentityError,
>)
    ensures
        r is Ok <==> unicode_lowercase(trim(confirm_email@)) == account_email@,
        r matches Err(e) ==> e@ == IdentityErrorView::ConfirmationMismatch,
{
    let normalized = normalize_email(confirm_email);
    if normalized.eq(account_email) {
        Ok(())
    } else {
        Err(IdentityError::ConfirmationMismatch)
    }
}

/// Whether `role` is among `roles`, by name.
pub open spec fn has_role_named(roles: Seq<RoleName>, name: Seq<char>) -> bool {
    exists|i: int| 0 <= i < roles.len() && (#[trigger] roles[i]).name() == name
}

/// Whether `i` is the first requested role the instance does not define.
pub open spec fn first_unknown(requested: Seq<RoleName>, known: Seq<RoleName>, i: int) -> bool {
    &&& 0 <= i < requested.len()
    &&& !has_role_named(known, requested[i].name())
    &&& forall|j: int| 0 <= j < i ==> has_role_named(known, (#[trigger] requested[j]).name())
}

/// Every requested role has to be one the instance defines; the first that is not is named.
pub fn reject_unknown_roles(requested: &Vec<RoleName>, known: &Vec<RoleName>) -> (r: Result<
    (),
    IdentityError,
>)
    ensures
        r is Ok <==> forall|i: int|
            0 <= i < requested@.len() ==> has_role_named(known@, (#[trigger] requested@[i]).name()),
        r matches Err(e) ==> exists|i: int|
            first_unknown(requested@, known@, i) && e@ == IdentityErrorView::UnknownRole(
                requested@[i].name(),
            ),
{
    let mut i: usize = 0;
    while i < requested.len()
        invariant
            i <= requested@.len(),
            forall|j: int| 0 <= j < i ==> has_role_named(known@, (#[trigger] requested@[j]).name()),
        decreases requested@.len() - i,
    {
        if !holds_role(known, &requested[i]) {
            assert(first_unknown(requested@, known@, i as int));
            return Err(IdentityError::UnknownRole(requested[i].to_string()));
        }
        i = i + 1;
    }
    Ok(())
}

/// The names of a list of roles.
pub open spec fn role_names(roles: Seq<RoleName>) -> Seq<Seq<char>> {
    roles.map_values(|r: RoleName| r.name())
}

/// The roles of `a` that `b` does not hold, in the order of `a`.
pub open spec fn names_missing_from(a: Seq<RoleName>, b: Seq<RoleName>) -> Seq<Seq<char>>
    decreases a.len(),
{
    if a.len() == 0 {
        seq![]
    } else {
        let earlier = names_missing_from(a.drop_last(), b);
        if has_role_named(b, a.last().name()) {
            earlier
        } else {
            earlier.push(a.last().name())
        }
    }
}

/// The roles of `a` whose names do not occur earlier in `a`: each name once, where it first
/// appears.
pub open spec fn first_occurrences(a: Seq<RoleName>) -> Seq<Seq<char>>
    decreases a.len(),
{
    if a.len() == 0 {
        seq![]
    } else {
        let earlier = first_occurrences(a.drop_last());
        if has_role_named(a.drop_last(), a.last().name()) {
            earlier
        } else {
            earlier.push(a.last().name())
        }
    }
}

/// What replacing an account's roles does: the set it ends with, and the grants and revocations
/// that are audited one by one.
#[derive(Debug)]
pub struct RoleChanges {
    /// The roles the account ends up with, each once, in the order first requested.
    pub desired: Vec<RoleName>,
    /// Roles requested that the account did not hold.
    pub granted: Vec<RoleName>,
    /// Roles the account held that were not requested.
    pub revoked: Vec<RoleName>,
}

/// The roles of `a` that `b` does not hold, in the order of `a`.
fn missing_from(a: &Vec<RoleName>, b: &Vec<RoleName>) -> (r: Vec<RoleName>)
    ensures
        role_names(r@) == names_missing_from(a@, b@),
{
    let mut r: Vec<RoleName> = Vec::new();
    let mut i: usize = 0;
    while i < a.len()
        invariant
            i <= a@.len(),
            role_names(r@) == names_missing_from(a@.take(i as int), b@),
        decreases a@.len() - i,
    {
        let ghost before = r@;
        let held = holds_role(b, &a[i]);
        if !held {
            let role = RoleName::new(a[i].to_string());
            r.push(role);
        }
        proof {
            assert(a@.take(i + 1).drop_last() =~= a@.take(i as int));
            assert(a@.take(i + 1).last() == a@[i as int]);
            assert(role_names(r@) =~= names_missing_from(a@.take(i + 1), b@));
        }
        i = i + 1;
    }
    assert(a@.take(a@.len() as int) =~= a@);
    r
}

/// The requested roles, each name once, in the order first requested.
fn distinct(requested: &Vec<RoleName>) -> (r: Vec<RoleName>)
    ensures
        role_names(r@) == first_occurrences(requested@),
{
    let mut r: Vec<RoleName> = Vec::new();
    let mut i: usize = 0;
    while i < requested.len()
        invariant
            i <= requested@.len(),
            role_names(r@) == first_occurrences(requested@.take(i as int)),
            forall|n: Seq<char>|
                has_role_named(r@, n) <==> has_role_named(requested@.take(i as int), n),
        decreases requested@.len() - i,
    {
        let ghost before = r@;
        let ghost prefix = requested@.take(i as int);
        let ghost next = requested@.take(i + 1);
        proof {
            assert(next.drop_last() =~= prefix);
            assert(next.last() == requested@[i as int]);
        }
        let seen = holds_role(&r, &requested[i]);
        if !seen {
            let role = RoleName::new(requested[i].to_string());
            r.push(role);
        }
        proof {
            assert(has_role_named(before, requested@[i as int].name()) == has_role_named(
                prefix,
                requested@[i as int].name(),
            ));
            assert(role_names(r@) =~= first_occurrences(next));
            assert forall|n: Seq<char>| has_role_named(r@, n) <==> has_role_named(next, n) by {
                if has_role_named(next, n) {
                    let k = choose|k: int| 0 <= k < next.len() && (#[trigger] next[k]).name() == n;
                    if k < i {
                        assert(prefix[k] == next[k]);
                        assert(has_role_named(prefix, n));
                        assert(has_role_named(before, n));
                        let m = choose|m: int| 0 <= m < before.len() && (#[trigger] before[m]).name() == n;
                        assert(r@[m] == before[m]);
                    } else {
                        if seen {
                            assert(has_role_named(before, n));
                            let m = choose|m: int| 0 <= m < before.len() && (#[trigger] before[m]).name() == n;
                            assert(r@[m] == before[m]);
                        } else {
                            assert(r@[before.len() as int].name() == n);
                        }
                    }
                }
                if has_role_named(r@, n) {
                    let m = choose|m: int| 0 <= m < r@.len() && (#[trigger] r@[m]).name() == n;
                    if m < before.len() {
                        assert(r@[m] == before[m]);
                        assert(has_role_named(before, n));
                        let k = choose|k: int| 0 <= k < prefix.len() && (#[trigger] prefix[k]).name() == n;
                        assert(next[k] == prefix[k]);
                    } else {
                        assert(next[i as int].name() == n);
                    }
                }
            }
        }
        i = i + 1;
    }
    assert(requested@.take(requested@.len() as int) =~= requested@);
    r
}

/// Replacing an account's roles with exactly `requested`: the set it ends with, the roles
/// granted, and the roles revoked.
pub fn role_changes(before: &Vec<RoleName>, requested: &Vec<RoleName>) -> (c: RoleChanges)
    ensures
        role_names(c.desired@) == first_occurrences(requested@),
        role_names(c.granted@) == names_missing_from(c.desired@, before@),
        role_names(c.revoked@) == names_missing_from(before@, requested@),
{
    let desired = distinct(requested);
    let granted = missing_from(&desired, before);
    let revoked = missing_from(before, requested);
    RoleChanges { desired, granted, revoked }
}

/// Whether a role change takes the administrator role away from an account that holds it, which
/// is allowed only while somebody else keeps it.
pub fn drops_admin(before: &Vec<RoleName>, requested: &Vec<RoleName>) -> (b: bool)
    ensures
        b == (has_role_named(before@, ADMIN_ROLE@) && !has_role_named(requested@, ADMIN_ROLE@)),
{
    let admin = RoleName::admin();
    holds_role(before, &admin) && !holds_role(requested, &admin)
}

/// Whether taking the administrator role from `target_id` would leave no administrator who can
/// sign in, given the accounts that currently can.
pub open spec fn last_admin(active_admins: Seq<u128>, target_id: u128) -> bool {
    active_admins.len() == 1 && active_admins[0] == target_id
}

/// Refuses a change when `target_id` is the only administrator who can still sign in.
pub fn check_an_admin_remains(active_admins: &Vec<u128>, target_id: u128) -> (r: Result<
    (),
    IdentityError,
>)
    ensures
        r is Err <==> last_admin(active_admins@, target_id),
        r matches Err(e) ==> e@ == IdentityErrorView::LastAdministrator,
{
    if active_admins.len() == 1 && active_admins[0] == target_id {
        Err(IdentityError::LastAdministrator)
    } else {
        Ok(())
    }
}

/// An administrator acting on the instance always leaves another administrator who can sign in:
/// a status change or deletion that passes [`refuse_self`] leaves the acting administrator
/// untouched, and a role change that passes [`check_an_admin_remains`] leaves some active
/// administrator other than its target. `active_admins` lists each active administrator once
/// and includes the caller, who is one.
pub proof fn law_an_administrator_always_remains(
    active_admins: Seq<u128>,
    actor_id: u128,
    target_id: u128,
)
    requires
        active_admins.contains(actor_id),
        active_admins.no_duplicates(),
    ensures
        target_id != actor_id ==> exists|i: int|
            0 <= i < active_admins.len() && active_admins[i] != target_id,
        !last_admin(active_admins, target_id) ==> exists|i: int|
            0 <= i < active_admins.len() && active_admins[i] != target_id,
{
    let k = choose|k: int| 0 <= k < active_admins.len() && active_admins[k] == actor_id;
    if target_id != actor_id {
        assert(active_admins[k] != target_id);
    }
    if !last_admin(active_admins, target_id) {
        if active_admins[k] != target_id {
            assert(active_admins[k] != target_id);
        } else if k == 0 {
            assert(active_admins.len() >= 2);
            assert(active_admins[1] != active_admins[0]);
        } else {
            assert(active_admins[0] != active_admins[k]);
        }
    }
}

/// Whether `after` is `before` with the role named `name` granted: unchanged when it is already
/// held, otherwise with a role of that name appended.
pub open spec fn role_granted(before: Seq<RoleName>, name: Seq<char>, after: Seq<RoleName>) -> bool {
    &&& has_role_named(before, name) ==> after == before
    &&& !has_role_named(before, name) ==> (after.len() == before.len() + 1 && after.take(
        before.len() as int,
    ) == before && after.last().name() == name)
}

/// The roles an account holds after `role` is added: unchanged when it already holds it,
/// otherwise with `role` appended.
pub fn with_role(roles: Vec<RoleName>, role: &RoleName) -> (r: Vec<RoleName>)
    ensures
        role_granted(roles@, role.name(), r@),
{
    let mut roles = roles;
    if !holds_role(&roles, role) {
        let ghost before = roles@;
        roles.push(RoleName::new(role.to_string()));
        assert(roles@.take(before.len() as int) =~= before);
    }
    roles
}

/// Granting a role never takes one away: the names held afterwards are exactly those held
/// before together with the granted one.
pub proof fn law_granting_a_role_adds_exactly_it(
    before: Seq<RoleName>,
    name: Seq<char>,
    after: Seq<RoleName>,
)
    requires
        role_granted(before, name, after),
    ensures
        role_names(after).to_set() == role_names(before).to_set().insert(name),
{
    if has_role_named(before, name) {
        let i = choose|i: int| 0 <= i < before.len() && (#[trigger] before[i]).name() == name;
        assert(role_names(before)[i] == name);
        assert(role_names(before).to_set().insert(name) =~= role_names(before).to_set());
    } else {
        let n = before.len() as int;
        assert(role_names(after) =~= role_names(before).push(name)) by {
            assert forall|k: int| 0 <= k < n implies role_names(after)[k] == role_names(before)[k] by {
                assert(after.take(n)[k] == after[k]);
            }
        }
        assert(role_names(before).push(name).to_set() =~= role_names(before).to_set().insert(name))
            by {
            assert forall|x: Seq<char>| #[trigger] role_names(before).push(name).to_set().contains(x)
                implies role_names(before).to_set().insert(name).contains(x) by {
                let j = choose|j: int| 0 <= j < n + 1 && role_names(before).push(name)[j] == x;
                if j < n {
                    assert(role_names(before)[j] == x);
                }
            }
            assert forall|x: Seq<char>| #[trigger] role_names(before).to_set().insert(name).contains(x)
                implies role_names(before).push(name).to_set().contains(x) by {
                if x == name {
                    assert(role_names(before).push(name)[n] == x);
                } else {
                    let j = choose|j: int| 0 <= j < n && role_names(before)[j] == x;
                    assert(role_names(before).push(name)[j] == x);
                }
            }
        }
    }
}

/// The roles each listed account holds, from (account, role name) rows: for every account, the
/// names of its rows, in row order. An account with no row holds no role.
pub open spec fn roles_of(user_id: u128, rows: Seq<(u128, String)>) -> Seq<Seq<char>>
    decreases rows.len(),
{
    if rows.len() == 0 {
        seq![]
    } else {
        let earlier = roles_of(user_id, rows.drop_last());
        if rows.last().0 == user_id {
            earlier.push(rows.last().1@)
        } else {
            earlier
        }
    }
}

fn roles_for_one(user_id: u128, rows: &Vec<(u128, String)>) -> (r: Vec<RoleName>)
    ensures
        role_names(r@) == roles_of(user_id, rows@),
{
    let mut r: Vec<RoleName> = Vec::new();
    let mut i: usize = 0;
    while i < rows.len()
        invariant
            i <= rows@.len(),
            role_names(r@) == roles_of(user_id, rows@.take(i as int)),
        decreases rows@.len() - i,
    {
        if rows[i].0 == user_id {
            r.push(RoleName::new(rows[i].1.clone()));
        }
        proof {
            assert(rows@.take(i + 1).drop_last() =~= rows@.take(i as int));
            assert(role_names(r@) =~= roles_of(user_id, rows@.take(i + 1)));
        }
        i = i + 1;
    }
    assert(rows@.take(rows@.len() as int) =~= rows@);
    r
}

/// Groups (account, role name) rows by account, for a page of accounts: one role list per
/// listed account, in the order of `user_ids`.
pub fn roles_by_user(user_ids: &Vec<u128>, rows: &Vec<(u128, String)>) -> (r: Vec<Vec<RoleName>>)
    ensures
        r@.len() == user_ids@.len(),
        forall|i: int|
            0 <= i < user_ids@.len() ==> role_names((#[trigger] r@[i])@) == roles_of(
                user_ids@[i],
                rows@,
            ),
{
    let mut r: Vec<Vec<RoleName>> = Vec::new();
    let mut i: usize = 0;
    while i < user_ids.len()
        invariant
            i <= user_ids@.len(),
            r@.len() == i,
            forall|k: int|
                0 <= k < i ==> role_names((#[trigger] r@[k])@) == roles_of(user_ids@[k], rows@),
        decreases user_ids@.len() - i,
    {
        let roles = roles_for_one(user_ids[i], rows);
        r.push(roles);
        i = i + 1;
    }
    r
}

} // verus!
