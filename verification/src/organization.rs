//! Organizations and their membership: the role hierarchy and the rules every membership change
//! is decided by.
//!
//! Two invariants run through everything here:
//!
//! * An organization always keeps at least one owner. Removing or demoting the last one is
//!   refused, which is also what makes leaving safe to allow.
//! * An account may only reach as far as its own role. An owner reaches everyone; an admin
//!   reaches peers and members, so only an owner can create another owner or touch one.

use vstd::prelude::*;
use crate::error::{AppError, AppErrorView};
use crate::form::validation::validate_email;
use crate::identity::dto::{MAX_EMAIL_CHARS, acceptable_email, chars_within};
use crate::text::{chars_of, owned, trim, trimmed_string};

verus! {

/// A member's standing inside one organization.
#[derive(Debug, Clone, Copy, PartialEq, Eq, Structural)]
pub enum OrganizationRole {
    Owner,
    Admin,
    Member,
}

/// Whether an account holding `role` may reach one holding `other`.
pub open spec fn role_reaches(role: OrganizationRole, other: OrganizationRole) -> bool {
    match role {
        OrganizationRole::Owner => true,
        OrganizationRole::Admin => other != OrganizationRole::Owner,
        OrganizationRole::Member => false,
    }
}

/// Whether `role` may change the organization itself or its membership.
pub open spec fn role_manages(role: OrganizationRole) -> bool {
    role == OrganizationRole::Owner || role == OrganizationRole::Admin
}

impl OrganizationRole {
    /// Whether an account holding this role may reach an account holding `other`: grant it a
    /// role, change its role, or remove it.
    pub fn reaches(self, other: Self) -> (b: bool)
        ensures
            b == role_reaches(self, other),
    {
        match self {
            OrganizationRole::Owner => true,
            OrganizationRole::Admin => match other {
                OrganizationRole::Owner => false,
                _ => true,
            },
            OrganizationRole::Member => false,
        }
    }

    /// Whether this role may change the organization itself or its membership.
    pub fn is_manager(self) -> (b: bool)
        ensures
            b == role_manages(self),
    {
        match self {
            OrganizationRole::Member => false,
            _ => true,
        }
    }

    /// Whether this role owns the organization.
    pub fn is_owner(self) -> (b: bool)
        ensures
            b == (self == OrganizationRole::Owner),
    {
        match self {
            OrganizationRole::Owner => true,
            _ => false,
        }
    }
}

/// Failures of organization operations.
#[derive(Debug)]
pub enum OrganizationError {
    NotFound,
    /// The caller has nothing to do with this organization.
    NotAMember,
    InsufficientRole,
    LastOwner,
    AccountNotFound,
    MemberNotFound,
    Internal(String),
}

impl OrganizationError {
    /// The message the error displays.
    pub fn message(&self) -> (s: String)
        ensures
            s@ == organization_message(*self),
    {
        match self {
            OrganizationError::NotFound => owned("organization not found"),
            OrganizationError::NotAMember => owned("you are not a member of this organization"),
            OrganizationError::InsufficientRole => owned(
                "your role in this organization does not permit that",
            ),
            OrganizationError::LastOwner => owned("an organization must keep at least one owner"),
            OrganizationError::AccountNotFound => owned("no account exists for that email address"),
            OrganizationError::MemberNotFound => owned(
                "that account is not a member of this organization",
            ),
            OrganizationError::Internal(_) => owned("internal organization error"),
        }
    }

    /// The response this failure becomes.
    pub fn into_app_error(self) -> (e: AppError)
        ensures
            e@ == organization_app_error(self),
    {
        match self {
            OrganizationError::NotFound => AppError::NotFound,
            OrganizationError::NotAMember => AppError::Forbidden,
            OrganizationError::InsufficientRole => AppError::Forbidden,
            OrganizationError::LastOwner => AppError::Validation(
                owned("an organization must keep at least one owner"),
            ),
            OrganizationError::AccountNotFound => AppError::NotFound,
            OrganizationError::MemberNotFound => AppError::NotFound,
            OrganizationError::Internal(message) => AppError::Internal(message),
        }
    }
}

/// The message each failure displays.
pub open spec fn organization_message(e: OrganizationError) -> Seq<char> {
    match e {
        OrganizationError::NotFound => "organization not found"@,
        OrganizationError::NotAMember => "you are not a member of this organization"@,
        OrganizationError::InsufficientRole => "your role in this organization does not permit that"@,
        OrganizationError::LastOwner => "an organization must keep at least one owner"@,
        OrganizationError::AccountNotFound => "no account exists for that email address"@,
        OrganizationError::MemberNotFound => "that account is not a member of this organization"@,
        OrganizationError::Internal(_) => "internal organization error"@,
    }
}

/// The response each failure becomes: missing things are 404, a lack of standing is 403, and
/// removing the last owner is a validation failure that explains itself.
pub open spec fn organization_app_error(e: OrganizationError) -> AppErrorView {
    match e {
        OrganizationError::NotFound => AppErrorView::NotFound,
        OrganizationError::NotAMember => AppErrorView::Forbidden,
        OrganizationError::InsufficientRole => AppErrorView::Forbidden,
        OrganizationError::LastOwner => AppErrorView::Validation(
            "an organization must keep at least one owner"@,
        ),
        OrganizationError::AccountNotFound => AppErrorView::NotFound,
        OrganizationError::MemberNotFound => AppErrorView::NotFound,
        OrganizationError::Internal(message) => AppErrorView::Internal(message@),
    }
}


/// Fails unless `role` may change the organization or its membership.
pub fn require_manager(role: OrganizationRole) -> (r: Result<(), OrganizationError>)
    ensures
        r is Ok <==> role_manages(role),
        r is Err ==> r->Err_0 is InsufficientRole,
{
    if role.is_manager() {
        Ok(())
    } else {
        Err(OrganizationError::InsufficientRole)
    }
}

/// Fails unless `role` owns the organization.
pub fn require_owner(role: OrganizationRole) -> (r: Result<(), OrganizationError>)
    ensures
        r is Ok <==> role == OrganizationRole::Owner,
        r is Err ==> r->Err_0 is InsufficientRole,
{
    if role.is_owner() {
        Ok(())
    } else {
        Err(OrganizationError::InsufficientRole)
    }
}

/// Fails unless `role` can reach an account holding `other`.
pub fn require_reaches(role: OrganizationRole, other: OrganizationRole) -> (r: Result<
    (),
    OrganizationError,
>)
    ensures
        r is Ok <==> role_reaches(role, other),
        r is Err ==> r->Err_0 is InsufficientRole,
{
    if role.reaches(other) {
        Ok(())
    } else {
        Err(OrganizationError::InsufficientRole)
    }
}

/// Refuses a change that would leave the organization with no owner, given how many owners it
/// has while it is locked.
pub fn require_another_owner(owner_count: i64) -> (r: Result<(), OrganizationError>)
    ensures
        r is Ok <==> owner_count > 1,
        r is Err ==> r->Err_0 is LastOwner,
{
    if owner_count <= 1 {
        Err(OrganizationError::LastOwner)
    } else {
        Ok(())
    }
}

/// What a membership change amounts to once the caller's standing has been checked.
#[derive(Debug, Clone, Copy, PartialEq, Eq, Structural)]
pub enum MembershipStep {
    /// The requested state already holds: nothing to write and nothing to audit.
    Unchanged,
    /// Write the change.
    Apply,
    /// Write the change only while another owner remains, because it takes an owner away.
    ApplyIfAnotherOwner,
}

/// The step for a change that moves an account from `current` to `target`.
pub open spec fn step_for(current: OrganizationRole, target: OrganizationRole) -> MembershipStep {
    if current == target {
        MembershipStep::Unchanged
    } else if current == OrganizationRole::Owner {
        MembershipStep::ApplyIfAnotherOwner
    } else {
        MembershipStep::Apply
    }
}

/// Adding the account with an address, or changing its role when it already belongs.
///
/// `account_found` says whether the address resolved to an account, `actor` is the caller's
/// role read inside the locked transaction, and `existing` the account's current role.
pub open spec fn add_member_decision(
    account_found: bool,
    actor: Option<OrganizationRole>,
    requested: OrganizationRole,
    existing: Option<OrganizationRole>,
) -> Result<MembershipStep, OrganizationError> {
    if !account_found {
        Err(OrganizationError::AccountNotFound)
    } else if actor is None {
        Err(OrganizationError::NotAMember)
    } else if !role_manages(actor->0) || !role_reaches(actor->0, requested) {
        Err(OrganizationError::InsufficientRole)
    } else {
        match existing {
            None => Ok(MembershipStep::Apply),
            Some(current) => if !role_reaches(actor->0, current) {
                Err(OrganizationError::InsufficientRole)
            } else {
                Ok(step_for(current, requested))
            },
        }
    }
}

/// Decides an addition; see [`add_member_decision`].
pub fn decide_add_member(
    account_found: bool,
    actor: Option<OrganizationRole>,
    requested: OrganizationRole,
    existing: Option<OrganizationRole>,
) -> (r: Result<MembershipStep, OrganizationError>)
    ensures
        r == add_member_decision(account_found, actor, requested, existing),
{
    if !account_found {
        return Err(OrganizationError::AccountNotFound);
    }
    let actor_role = match actor {
        Some(role) => role,
        None => return Err(OrganizationError::NotAMember),
    };
    require_manager(actor_role)?;
    require_reaches(actor_role, requested)?;
    match existing {
        None => Ok(MembershipStep::Apply),
        Some(current) => {
            require_reaches(actor_role, current)?;
            if current == requested {
                Ok(MembershipStep::Unchanged)
            } else if current.is_owner() {
                Ok(MembershipStep::ApplyIfAnotherOwner)
            } else {
                Ok(MembershipStep::Apply)
            }
        },
    }
}

/// Changing a member's role. `current` is the target's role, `None` when it is not a member.
pub open spec fn set_member_role_decision(
    actor: Option<OrganizationRole>,
    current: Option<OrganizationRole>,
    role: OrganizationRole,
) -> Result<MembershipStep, OrganizationError> {
    if actor is None {
        Err(OrganizationError::NotAMember)
    } else if !role_manages(actor->0) {
        Err(OrganizationError::InsufficientRole)
    } else if current is None {
        Err(OrganizationError::MemberNotFound)
    } else if !role_reaches(actor->0, current->0) || !role_reaches(actor->0, role) {
        Err(OrganizationError::InsufficientRole)
    } else {
        Ok(step_for(current->0, role))
    }
}

/// Decides a role change; see [`set_member_role_decision`].
pub fn decide_set_member_role(
    actor: Option<OrganizationRole>,
    current: Option<OrganizationRole>,
    role: OrganizationRole,
) -> (r: Result<MembershipStep, OrganizationError>)
    ensures
        r == set_member_role_decision(actor, current, role),
{
    let actor_role = match actor {
        Some(role) => role,
        None => return Err(OrganizationError::NotAMember),
    };
    require_manager(actor_role)?;
    let current_role = match current {
        Some(role) => role,
        None => return Err(OrganizationError::MemberNotFound),
    };
    require_reaches(actor_role, current_role)?;
    require_reaches(actor_role, role)?;
    if current_role == role {
        Ok(MembershipStep::Unchanged)
    } else if current_role.is_owner() {
        Ok(MembershipStep::ApplyIfAnotherOwner)
    } else {
        Ok(MembershipStep::Apply)
    }
}

/// Removing a member, or leaving when the target is the caller. Leaving is always allowed;
/// acting on somebody else needs the standing to do it.
pub open spec fn remove_member_decision(
    actor: Option<OrganizationRole>,
    current: Option<OrganizationRole>,
    target_is_actor: bool,
) -> Result<MembershipStep, OrganizationError> {
    if actor is None {
        Err(OrganizationError::NotAMember)
    } else if current is None {
        Err(OrganizationError::MemberNotFound)
    } else if !target_is_actor && (!role_manages(actor->0) || !role_reaches(
        actor->0,
        current->0,
    )) {
        Err(OrganizationError::InsufficientRole)
    } else if current->0 == OrganizationRole::Owner {
        Ok(MembershipStep::ApplyIfAnotherOwner)
    } else {
        Ok(MembershipStep::Apply)
    }
}

/// Decides a removal; see [`remove_member_decision`].
pub fn decide_remove_member(
    actor: Option<OrganizationRole>,
    current: Option<OrganizationRole>,
    target_is_actor: bool,
) -> (r: Result<MembershipStep, OrganizationError>)
    ensures
        r == remove_member_decision(actor, current, target_is_actor),
{
    let actor_role = match actor {
        Some(role) => role,
        None => return Err(OrganizationError::NotAMember),
    };
    let current_role = match current {
        Some(role) => role,
        None => return Err(OrganizationError::MemberNotFound),
    };
    if !target_is_actor {
        require_manager(actor_role)?;
        require_reaches(actor_role, current_role)?;
    }
    if current_role.is_owner() {
        Ok(MembershipStep::ApplyIfAnotherOwner)
    } else {
        Ok(MembershipStep::Apply)
    }
}

/// Who may remove whom. Leaving is always allowed to a member; removing somebody else is allowed
/// to an owner, and to an admin as long as the target is not an owner; a plain member may remove
/// nobody else. The removal of an owner is only carried out while another owner remains.
pub proof fn law_who_may_remove_whom(
    actor: Option<OrganizationRole>,
    current: Option<OrganizationRole>,
    target_is_actor: bool,
)
    ensures
        actor is None ==> remove_member_decision(actor, current, target_is_actor) == Err::<
            MembershipStep,
            OrganizationError,
        >(OrganizationError::NotAMember),
        actor is Some && current is None ==> remove_member_decision(actor, current, target_is_actor)
            == Err::<MembershipStep, OrganizationError>(OrganizationError::MemberNotFound),
        remove_member_decision(actor, current, target_is_actor) is Ok <==> (actor is Some
            && current is Some && (target_is_actor || actor == Some(OrganizationRole::Owner) || (
        actor == Some(OrganizationRole::Admin) && current != Some(OrganizationRole::Owner)))),
        actor is Some && current is Some && !(remove_member_decision(actor, current, target_is_actor) is Ok)
            ==> remove_member_decision(actor, current, target_is_actor) == Err::<
            MembershipStep,
            OrganizationError,
        >(OrganizationError::InsufficientRole),
        remove_member_decision(actor, current, target_is_actor) matches Ok(step) ==> (step
            == MembershipStep::ApplyIfAnotherOwner <==> current == Some(OrganizationRole::Owner))
            && step != MembershipStep::Unchanged,
{
}

/// Who may change whose role, and to what: an owner may make any change; an admin may change
/// the role of anyone who is not an owner, to any role but owner; a plain member may change
/// nothing. Giving a member the role it already has changes nothing.
pub proof fn law_who_may_change_a_role(
    actor: Option<OrganizationRole>,
    current: Option<OrganizationRole>,
    role: OrganizationRole,
)
    ensures
        set_member_role_decision(actor, current, role) is Ok <==> (actor is Some && current is Some
            && (actor == Some(OrganizationRole::Owner) || (actor == Some(OrganizationRole::Admin)
            && current != Some(OrganizationRole::Owner) && role != OrganizationRole::Owner))),
        set_member_role_decision(actor, current, role) matches Ok(step) ==> (step
            == MembershipStep::Unchanged <==> current == Some(role)) && (step
            == MembershipStep::ApplyIfAnotherOwner <==> (current == Some(OrganizationRole::Owner)
            && role != OrganizationRole::Owner)),
{
}

/// Who may add whom: nothing happens for an unknown account; otherwise an owner may add anyone
/// with any role, an admin may add anyone but with the owner role and may not touch an owner,
/// and a plain member may add nobody.
pub proof fn law_who_may_add_whom(
    account_found: bool,
    actor: Option<OrganizationRole>,
    requested: OrganizationRole,
    existing: Option<OrganizationRole>,
)
    ensures
        !account_found ==> add_member_decision(account_found, actor, requested, existing) == Err::<
            MembershipStep,
            OrganizationError,
        >(OrganizationError::AccountNotFound),
        add_member_decision(account_found, actor, requested, existing) is Ok <==> (account_found
            && (actor == Some(OrganizationRole::Owner) || (actor == Some(OrganizationRole::Admin)
            && requested != OrganizationRole::Owner && existing != Some(OrganizationRole::Owner)))),
        add_member_decision(account_found, actor, requested, existing) matches Ok(step) ==> (step
            == MembershipStep::Unchanged <==> existing == Some(requested)) && (existing is None
            ==> step == MembershipStep::Apply),
{
}

/// Whether a decided step is carried out, given the owner count read under the lock.
pub open spec fn goes_ahead(step: MembershipStep, owner_count: int) -> bool {
    step == MembershipStep::Apply || (step == MembershipStep::ApplyIfAnotherOwner && owner_count
        > 1)
}

/// How many owners remain after an account moves from `current` to `after` (`None`: it left).
pub open spec fn owners_after(
    owner_count: int,
    current: Option<OrganizationRole>,
    after: Option<OrganizationRole>,
) -> int {
    owner_count - (if current == Some(OrganizationRole::Owner) {
        1int
    } else {
        0
    }) + (if after == Some(OrganizationRole::Owner) {
        1int
    } else {
        0
    })
}

/// An organization always keeps at least one owner: every membership change that goes ahead,
/// whether an addition, a role change, or a removal, leaves at least one owner behind.
pub proof fn law_an_owner_always_remains(
    account_found: bool,
    actor: Option<OrganizationRole>,
    current: Option<OrganizationRole>,
    requested: OrganizationRole,
    target_is_actor: bool,
    owner_count: int,
)
    requires
        owner_count >= 1,
    ensures
        add_member_decision(account_found, actor, requested, current) matches Ok(step)
            && goes_ahead(step, owner_count) ==> owners_after(owner_count, current, Some(requested))
            >= 1,
        set_member_role_decision(actor, current, requested) matches Ok(step) && goes_ahead(
            step,
            owner_count,
        ) ==> owners_after(owner_count, current, Some(requested)) >= 1,
        remove_member_decision(actor, current, target_is_actor) matches Ok(step) && goes_ahead(
            step,
            owner_count,
        ) ==> owners_after(owner_count, current, None) >= 1,
{
}

/// Only an owner can create another owner or touch one: a change to somebody else that makes or
/// affects an owner is only ever allowed to an owner.
pub proof fn law_only_an_owner_touches_an_owner(
    account_found: bool,
    actor: Option<OrganizationRole>,
    current: Option<OrganizationRole>,
    requested: OrganizationRole,
)
    ensures
        add_member_decision(account_found, actor, requested, current) is Ok && (requested
            == OrganizationRole::Owner || current == Some(OrganizationRole::Owner)) ==> actor
            == Some(OrganizationRole::Owner),
        set_member_role_decision(actor, current, requested) is Ok && (requested
            == OrganizationRole::Owner || current == Some(OrganizationRole::Owner)) ==> actor
            == Some(OrganizationRole::Owner),
        remove_member_decision(actor, current, false) is Ok && current == Some(
            OrganizationRole::Owner,
        ) ==> actor == Some(OrganizationRole::Owner),
{
}

/// A plain member changes nobody's membership but its own: every addition and role change it
/// asks for is refused, and the only removal it may make is leaving.
pub proof fn law_a_member_manages_nothing(
    account_found: bool,
    current: Option<OrganizationRole>,
    requested: OrganizationRole,
    target_is_actor: bool,
)
    ensures
        add_member_decision(account_found, Some(OrganizationRole::Member), requested, current)
            is Err,
        set_member_role_decision(Some(OrganizationRole::Member), current, requested) is Err,
        remove_member_decision(Some(OrganizationRole::Member), current, target_is_actor) is Ok
            ==> target_is_actor,
{
}

/// The longest organization name, in characters.
pub const MAX_ORGANIZATION_NAME: usize = 120;

fn name_ok(name: &str) -> (b: bool)
    ensures
        b == chars_within(name@, 1, MAX_ORGANIZATION_NAME as int),
{
    let n = chars_of(name).len();
    1 <= n && n <= MAX_ORGANIZATION_NAME
}

/// A new organization; its creator becomes its owner.
#[derive(Debug)]
pub struct CreateOrganizationRequest {
    pub name: String,
}

impl CreateOrganizationRequest {
    /// A name of 1 to 120 characters.
    pub fn is_valid(&self) -> (b: bool)
        ensures
            b == chars_within(self.name@, 1, MAX_ORGANIZATION_NAME as int),
    {
        name_ok(self.name.as_str())
    }
}

/// A new name for an organization.
#[derive(Debug)]
pub struct RenameOrganizationRequest {
    pub name: String,
}

impl RenameOrganizationRequest {
    /// A name of 1 to 120 characters.
    pub fn is_valid(&self) -> (b: bool)
        ensures
            b == chars_within(self.name@, 1, MAX_ORGANIZATION_NAME as int),
    {
        name_ok(self.name.as_str())
    }
}

/// The name an organization is stored under: the one given, trimmed.
pub fn stored_name(name: &str) -> (r: String)
    ensures
        r@ == trim(name@),
{
    trimmed_string(name)
}

/// An account to add, addressed by email because that is what an operator knows about a
/// person. The address arrives normalised.
#[derive(Debug)]
pub struct AddOrganizationMemberRequest {
    pub email: String,
    pub role: OrganizationRole,
}

impl AddOrganizationMemberRequest {
    /// A valid address of at most 320 characters.
    pub fn is_valid(&self) -> (b: bool)
        ensures
            b == acceptable_email(self.email@),
    {
        validate_email(self.email.as_str()) && chars_of(self.email.as_str()).len() <= MAX_EMAIL_CHARS
    }
}

/// A new role for a member.
#[derive(Debug, Clone, Copy)]
pub struct UpdateOrganizationMemberRequest {
    pub role: OrganizationRole,
}

} // verus!
