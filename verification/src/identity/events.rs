//! The kinds of event the audit trail records.

use vstd::prelude::*;

verus! {

/// What an audit record is about.
#[derive(Debug, Clone, Copy, PartialEq, Eq, Structural)]
pub enum AuthEventType {
    AccountCreated,
    LoginSucceeded,
    LoginFailed,
    AccountLocked,
    Logout,
    TokenRefreshed,
    TokenReuseDetected,
    EmailVerificationSent,
    EmailVerified,
    PasswordResetRequested,
    PasswordResetCompleted,
    PasswordChanged,
    AccountStatusChanged,
    AccountUnlocked,
    AccountDeleted,
    RoleGranted,
    RoleRevoked,
    SessionsRevoked,
    OrganizationCreated,
    OrganizationRenamed,
    OrganizationDeleted,
    OrganizationMemberAdded,
    OrganizationMemberRoleChanged,
    OrganizationMemberRemoved,
    FormCreated,
    FormUpdated,
    FormDeleted,
    FormPublished,
    FormClosed,
    FormPublicIdRotated,
    SubmissionStatusChanged,
    SubmissionDeleted,
}

/// The snake-case name an event type is stored under.
pub open spec fn event_name(event: AuthEventType) -> Seq<char> {
    match event {
        AuthEventType::AccountCreated => "account_created"@,
        AuthEventType::LoginSucceeded => "login_succeeded"@,
        AuthEventType::LoginFailed => "login_failed"@,
        AuthEventType::AccountLocked => "account_locked"@,
        AuthEventType::Logout => "logout"@,
        AuthEventType::TokenRefreshed => "token_refreshed"@,
        AuthEventType::TokenReuseDetected => "token_reuse_detected"@,
        AuthEventType::EmailVerificationSent => "email_verification_sent"@,
        AuthEventType::EmailVerified => "email_verified"@,
        AuthEventType::PasswordResetRequested => "password_reset_requested"@,
        AuthEventType::PasswordResetCompleted => "password_reset_completed"@,
        AuthEventType::PasswordChanged => "password_changed"@,
        AuthEventType::AccountStatusChanged => "account_status_changed"@,
        AuthEventType::AccountUnlocked => "account_unlocked"@,
        AuthEventType::AccountDeleted => "account_deleted"@,
        AuthEventType::RoleGranted => "role_granted"@,
        AuthEventType::RoleRevoked => "role_revoked"@,
        AuthEventType::SessionsRevoked => "sessions_revoked"@,
        AuthEventType::OrganizationCreated => "organization_created"@,
        AuthEventType::OrganizationRenamed => "organization_renamed"@,
        AuthEventType::OrganizationDeleted => "organization_deleted"@,
        AuthEventType::OrganizationMemberAdded => "organization_member_added"@,
        AuthEventType::OrganizationMemberRoleChanged => "organization_member_role_changed"@,
        AuthEventType::OrganizationMemberRemoved => "organization_member_removed"@,
        AuthEventType::FormCreated => "form_created"@,
        AuthEventType::FormUpdated => "form_updated"@,
        AuthEventType::FormDeleted => "form_deleted"@,
        AuthEventType::FormPublished => "form_published"@,
        AuthEventType::FormClosed => "form_closed"@,
        AuthEventType::FormPublicIdRotated => "form_public_id_rotated"@,
        AuthEventType::SubmissionStatusChanged => "submission_status_changed"@,
        AuthEventType::SubmissionDeleted => "submission_deleted"@,
    }
}

impl AuthEventType {
    /// The snake-case name this event type is stored under.
    pub fn as_str(&self) -> (s: &'static str)
        ensures
            s@ == event_name(*self),
    {
        match self {
            AuthEventType::AccountCreated => "account_created",
            AuthEventType::LoginSucceeded => "login_succeeded",
            AuthEventType::LoginFailed => "login_failed",
            AuthEventType::AccountLocked => "account_locked",
            AuthEventType::Logout => "logout",
            AuthEventType::TokenRefreshed => "token_refreshed",
            AuthEventType::TokenReuseDetected => "token_reuse_detected",
            AuthEventType::EmailVerificationSent => "email_verification_sent",
            AuthEventType::EmailVerified => "email_verified",
            AuthEventType::PasswordResetRequested => "password_reset_requested",
            AuthEventType::PasswordResetCompleted => "password_reset_completed",
            AuthEventType::PasswordChanged => "password_changed",
            AuthEventType::AccountStatusChanged => "account_status_changed",
            AuthEventType::AccountUnlocked => "account_unlocked",
            AuthEventType::AccountDeleted => "account_deleted",
            AuthEventType::RoleGranted => "role_granted",
            AuthEventType::RoleRevoked => "role_revoked",
            AuthEventType::SessionsRevoked => "sessions_revoked",
            AuthEventType::OrganizationCreated => "organization_created",
            AuthEventType::OrganizationRenamed => "organization_renamed",
            AuthEventType::OrganizationDeleted => "organization_deleted",
            AuthEventType::OrganizationMemberAdded => "organization_member_added",
            AuthEventType::OrganizationMemberRoleChanged => "organization_member_role_changed",
            AuthEventType::OrganizationMemberRemoved => "organization_member_removed",
            AuthEventType::FormCreated => "form_created",
            AuthEventType::FormUpdated => "form_updated",
            AuthEventType::FormDeleted => "form_deleted",
            AuthEventType::FormPublished => "form_published",
            AuthEventType::FormClosed => "form_closed",
            AuthEventType::FormPublicIdRotated => "form_public_id_rotated",
            AuthEventType::SubmissionStatusChanged => "submission_status_changed",
            AuthEventType::SubmissionDeleted => "submission_deleted",
        }
    }
}

/// Where a request came from, as recorded in the trail.
#[derive(Debug, Clone)]
pub struct ClientInfo {
    pub ip_address: Option<String>,
    pub user_agent: Option<String>,
}

/// An audit record to append.
#[derive(Debug, Clone)]
pub struct AuditEntry {
    /// The account the event concerns.
    pub user_id: Option<u128>,
    /// The account that caused it.
    pub actor_user_id: Option<u128>,
    /// The organization the event concerns, for membership and form changes.
    pub organization_id: Option<u128>,
    /// The resource the event concerns: a form or a submission.
    pub target_id: Option<u128>,
    /// The address attempted or concerned, or the label of the resource.
    pub email: Option<String>,
    pub event_type: AuthEventType,
    pub ip_address: Option<String>,
    pub user_agent: Option<String>,
}

/// Something an account did to itself: the actor and the subject are the same account.
pub fn own_event(
    event_type: AuthEventType,
    user_id: Option<u128>,
    email: Option<String>,
    client: ClientInfo,
) -> (e: AuditEntry)
    ensures
        e.user_id == user_id,
        e.actor_user_id == user_id,
        e.organization_id is None,
        e.target_id is None,
        e.email == email,
        e.event_type == event_type,
        e.ip_address == client.ip_address,
        e.user_agent == client.user_agent,
{
    AuditEntry {
        user_id,
        actor_user_id: user_id,
        organization_id: None,
        target_id: None,
        email,
        event_type,
        ip_address: client.ip_address,
        user_agent: client.user_agent,
    }
}

/// An action one account takes against another. The actor is stored separately, because knowing
/// who did it is the point of the trail.
pub fn action_event(
    event_type: AuthEventType,
    actor_id: u128,
    subject_id: Option<u128>,
    email: Option<String>,
    client: ClientInfo,
) -> (e: AuditEntry)
    ensures
        e.user_id == subject_id,
        e.actor_user_id == Some(actor_id),
        e.organization_id is None,
        e.target_id is None,
        e.email == email,
        e.event_type == event_type,
        e.ip_address == client.ip_address,
        e.user_agent == client.user_agent,
{
    AuditEntry {
        user_id: subject_id,
        actor_user_id: Some(actor_id),
        organization_id: None,
        target_id: None,
        email,
        event_type,
        ip_address: client.ip_address,
        user_agent: client.user_agent,
    }
}

/// A role handed out outside the API, by the bootstrap command: attributed to nobody, and
/// without a client, because there is no session behind it.
pub fn bootstrap_grant(user_id: u128, email: String) -> (e: AuditEntry)
    ensures
        e.user_id == Some(user_id),
        e.actor_user_id is None,
        e.organization_id is None,
        e.target_id is None,
        e.email == Some(email),
        e.event_type == AuthEventType::RoleGranted,
        e.ip_address is None,
        e.user_agent is None,
{
    AuditEntry {
        user_id: Some(user_id),
        actor_user_id: None,
        organization_id: None,
        target_id: None,
        email: Some(email),
        event_type: AuthEventType::RoleGranted,
        ip_address: None,
        user_agent: None,
    }
}

/// A change to an organization or its membership, concerning the member `subject_id` if any.
pub fn organization_event(
    event_type: AuthEventType,
    organization_id: u128,
    actor_id: u128,
    subject_id: Option<u128>,
    email: Option<String>,
    client: ClientInfo,
) -> (e: AuditEntry)
    ensures
        e.user_id == subject_id,
        e.actor_user_id == Some(actor_id),
        e.organization_id == Some(organization_id),
        e.target_id is None,
        e.email == email,
        e.event_type == event_type,
        e.ip_address == client.ip_address,
        e.user_agent == client.user_agent,
{
    AuditEntry {
        user_id: subject_id,
        actor_user_id: Some(actor_id),
        organization_id: Some(organization_id),
        target_id: None,
        email,
        event_type,
        ip_address: client.ip_address,
        user_agent: client.user_agent,
    }
}

/// A change to a form or a submission, labelled with the form's name.
pub fn resource_event(
    event_type: AuthEventType,
    organization_id: u128,
    actor_id: u128,
    target_id: u128,
    label: Option<String>,
    client: ClientInfo,
) -> (e: AuditEntry)
    ensures
        e.user_id is None,
        e.actor_user_id == Some(actor_id),
        e.organization_id == Some(organization_id),
        e.target_id == Some(target_id),
        e.email == label,
        e.event_type == event_type,
        e.ip_address == client.ip_address,
        e.user_agent == client.user_agent,
{
    AuditEntry {
        user_id: None,
        actor_user_id: Some(actor_id),
        organization_id: Some(organization_id),
        target_id: Some(target_id),
        email: label,
        event_type,
        ip_address: client.ip_address,
        user_agent: client.user_agent,
    }
}

} // verus!
