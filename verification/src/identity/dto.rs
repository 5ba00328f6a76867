//! The shapes identity requests arrive in and accounts are reported in, with the field rules
//! each request is checked against.

use vstd::prelude::*;
use crate::form::validation::{html_email, validate_email};
use crate::identity::model::{UserRecord, UserStatus};
use crate::pagination::{page_bounds, served_limit, served_offset};
use crate::rbac::RoleName;
use crate::text::chars_of;

verus! {

/// The longest address accepted, in characters.
pub const MAX_EMAIL_CHARS: usize = 320;
/// The shortest new password accepted, in characters.
pub const MIN_PASSWORD_CHARS: usize = 12;
/// The longest password accepted, in characters.
pub const MAX_PASSWORD_CHARS: usize = 128;
/// The longest single-use token accepted, in characters.
pub const MAX_TOKEN_CHARS: usize = 512;

/// Whether a text has between `min` and `max` characters.
pub open spec fn chars_within(s: Seq<char>, min: int, max: int) -> bool {
    min <= s.len() <= max
}

fn within(s: &str, min: usize, max: usize) -> (b: bool)
    ensures
        b == chars_within(s@, min as int, max as int),
{
    let n = chars_of(s).len();
    min <= n && n <= max
}

/// A valid address of at most 320 characters.
pub open spec fn acceptable_email(s: Seq<char>) -> bool {
    html_email(s) && s.len() <= MAX_EMAIL_CHARS
}

fn email_ok(s: &str) -> (b: bool)
    ensures
        b == acceptable_email(s@),
{
    validate_email(s) && within(s, 0, MAX_EMAIL_CHARS)
}

/// The public projection of an account. Never carries the password hash or lock state.
#[derive(Debug, Clone)]
pub struct PublicUser {
    pub id: u128,
    pub email: String,
    pub status: UserStatus,
    pub email_verified: bool,
    pub roles: Vec<RoleName>,
    pub created_at: i64,
}

impl PublicUser {
    /// The projection of an account together with its roles.
    pub fn new(user: &UserRecord, roles: Vec<RoleName>) -> (p: Self)
        ensures
            p.id == user.id,
            p.email@ == user.email@,
            p.status == user.status,
            p.email_verified == user.email_verified_at is Some,
            p.roles == roles,
            p.created_at == user.created_at,
    {
        PublicUser {
            id: user.id,
            email: user.email.clone(),
            status: user.status,
            email_verified: user.is_email_verified(),
            roles,
            created_at: user.created_at,
        }
    }
}

/// The administrator's view of an account: [`PublicUser`] plus the operational state that a
/// self-service endpoint deliberately withholds.
#[derive(Debug, Clone)]
pub struct AdminUser {
    pub id: u128,
    pub email: String,
    pub status: UserStatus,
    pub email_verified: bool,
    pub roles: Vec<RoleName>,
    pub failed_login_attempts: i32,
    pub locked_until: Option<i64>,
    pub last_login_at: Option<i64>,
    pub created_at: i64,
}

impl AdminUser {
    /// The administrator's view of an account together with its roles.
    pub fn new(user: &UserRecord, roles: Vec<RoleName>) -> (a: Self)
        ensures
            a.id == user.id,
            a.email@ == user.email@,
            a.status == user.status,
            a.email_verified == user.email_verified_at is Some,
            a.roles == roles,
            a.failed_login_attempts == user.failed_login_attempts,
            a.locked_until == user.locked_until,
            a.last_login_at == user.last_login_at,
            a.created_at == user.created_at,
    {
        AdminUser {
            id: user.id,
            email: user.email.clone(),
            status: user.status,
            email_verified: user.is_email_verified(),
            roles,
            failed_login_attempts: user.failed_login_attempts,
            locked_until: user.locked_until,
            last_login_at: user.last_login_at,
            created_at: user.created_at,
        }
    }
}

/// A new account. The address arrives normalised.
#[derive(Debug)]
pub struct RegisterRequest {
    pub email: String,
    pub password: String,
}

impl RegisterRequest {
    /// A valid address of at most 320 characters, and a password of 12 to 128 characters.
    pub fn is_valid(&self) -> (b: bool)
        ensures
            b == (acceptable_email(self.email@) && chars_within(
                self.password@,
                MIN_PASSWORD_CHARS as int,
                MAX_PASSWORD_CHARS as int,
            )),
    {
        email_ok(self.email.as_str()) && within(
            self.password.as_str(),
            MIN_PASSWORD_CHARS,
            MAX_PASSWORD_CHARS,
        )
    }
}

/// A sign-in. The address arrives normalised.
#[derive(Debug)]
pub struct LoginRequest {
    pub email: String,
    pub password: String,
}

impl LoginRequest {
    /// A valid address of at most 320 characters, and a password of 1 to 128 characters.
    pub fn is_valid(&self) -> (b: bool)
        ensures
            b == (acceptable_email(self.email@) && chars_within(
                self.password@,
                1,
                MAX_PASSWORD_CHARS as int,
            )),
    {
        email_ok(self.email.as_str()) && within(self.password.as_str(), 1, MAX_PASSWORD_CHARS)
    }
}

/// The start of a password reset.
#[derive(Debug)]
pub struct ForgotPasswordRequest {
    pub email: String,
}

impl ForgotPasswordRequest {
    /// A valid address of at most 320 characters.
    pub fn is_valid(&self) -> (b: bool)
        ensures
            b == acceptable_email(self.email@),
    {
        email_ok(self.email.as_str())
    }
}

/// The completion of a password reset.
#[derive(Debug)]
pub struct ResetPasswordRequest {
    pub token: String,
    pub password: String,
}

impl ResetPasswordRequest {
    /// A token of 1 to 512 characters, and a password of 12 to 128 characters.
    pub fn is_valid(&self) -> (b: bool)
        ensures
            b == (chars_within(self.token@, 1, MAX_TOKEN_CHARS as int) && chars_within(
                self.password@,
                MIN_PASSWORD_CHARS as int,
                MAX_PASSWORD_CHARS as int,
            )),
    {
        within(self.token.as_str(), 1, MAX_TOKEN_CHARS) && within(
            self.password.as_str(),
            MIN_PASSWORD_CHARS,
            MAX_PASSWORD_CHARS,
        )
    }
}

/// The confirmation of an address.
#[derive(Debug)]
pub struct VerifyEmailRequest {
    pub token: String,
}

impl VerifyEmailRequest {
    /// A token of 1 to 512 characters.
    pub fn is_valid(&self) -> (b: bool)
        ensures
            b == chars_within(self.token@, 1, MAX_TOKEN_CHARS as int),
    {
        within(self.token.as_str(), 1, MAX_TOKEN_CHARS)
    }
}

/// A request for another confirmation link.
#[derive(Debug)]
pub struct ResendVerificationRequest {
    pub email: String,
}

impl ResendVerificationRequest {
    /// A valid address of at most 320 characters.
    pub fn is_valid(&self) -> (b: bool)
        ensures
            b == acceptable_email(self.email@),
    {
        email_ok(self.email.as_str())
    }
}

/// The status values an administrator may set. `pending` is deliberately excluded: it is
/// assigned by the system when verification is required, not chosen by an operator.
#[derive(Debug, Clone, Copy, PartialEq, Eq, Structural)]
pub enum AccountStatusUpdate {
    Active,
    Disabled,
}

/// The status an administrator's choice stands for.
pub open spec fn status_of_update(update: AccountStatusUpdate) -> UserStatus {
    match update {
        AccountStatusUpdate::Active => UserStatus::Active,
        AccountStatusUpdate::Disabled => UserStatus::Disabled,
    }
}

impl From<AccountStatusUpdate> for UserStatus {
    fn from(update: AccountStatusUpdate) -> (s: Self) {
        match update {
            AccountStatusUpdate::Active => UserStatus::Active,
            AccountStatusUpdate::Disabled => UserStatus::Disabled,
        }
    }
}

impl vstd::std_specs::convert::FromSpecImpl<AccountStatusUpdate> for UserStatus {
    open spec fn obeys_from_spec() -> bool {
        true
    }

    open spec fn from_spec(update: AccountStatusUpdate) -> UserStatus {
        status_of_update(update)
    }
}

/// A change of an account's status.
#[derive(Debug, Clone, Copy)]
pub struct UpdateUserStatusRequest {
    pub status: AccountStatusUpdate,
}

/// Response body for operations whose details must not be disclosed.
#[derive(Debug)]
pub struct MessageResponse {
    pub message: String,
}

impl MessageResponse {
    /// A response carrying `message`.
    pub fn new(message: String) -> (r: Self)
        ensures
            r.message@ == message@,
    {
        MessageResponse { message }
    }
}

/// The complete role set an account should end up with.
#[derive(Debug)]
pub struct UpdateUserRolesRequest {
    pub roles: Vec<RoleName>,
}

/// Deleting an account is irreversible, so the caller must echo the address back as a
/// deliberate confirmation rather than a mis-clicked identifier.
#[derive(Debug)]
pub struct DeleteAccountRequest {
    pub confirm_email: String,
}

/// The query string of the account listing.
#[derive(Debug)]
pub struct ListUsersQuery {
    pub limit: Option<u32>,
    pub offset: Option<u32>,
    /// Case-insensitive substring match on the email address.
    pub search: Option<String>,
    pub status: Option<UserStatus>,
    pub role: Option<RoleName>,
}

impl ListUsersQuery {
    /// The `(limit, offset)` this listing is served with.
    pub fn bounds(&self) -> (r: (i64, i64))
        ensures
            r.0 == served_limit(self.limit),
            r.1 == served_offset(self.offset),
    {
        page_bounds(self.limit, self.offset)
    }
}

/// How many sessions an administrator's sign-out ended.
#[derive(Debug, Clone, Copy)]
pub struct SessionsRevokedResponse {
    pub revoked: u64,
}

} // verus!
