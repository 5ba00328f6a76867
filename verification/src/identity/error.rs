//! Failures of the identity domain and the responses they become.
//!
//! Every variant maps to a response that does not reveal whether an account exists unless the
//! caller already proved it belongs to them.

use vstd::prelude::*;
use crate::error::{AppError, AppErrorView};
use crate::text::{concat, owned};

verus! {

/// Failures raised by the identity domain.
#[derive(Debug)]
pub enum IdentityError {
    EmailTaken,
    InvalidCredentials,
    AccountDisabled,
    AccountLocked,
    EmailNotVerified,
    InvalidToken,
    NotFound,
    /// An administrator tried to disable or delete their own account.
    SelfTargeted,
    /// The confirmation address does not match the account being deleted.
    ConfirmationMismatch,
    /// A role that the instance does not define.
    UnknownRole(String),
    /// The change would leave the instance without an administrator who can sign in.
    LastAdministrator,
    Internal(String),
}

/// An [`IdentityError`] with its text as characters.
pub enum IdentityErrorView {
    EmailTaken,
    InvalidCredentials,
    AccountDisabled,
    AccountLocked,
    EmailNotVerified,
    InvalidToken,
    NotFound,
    SelfTargeted,
    ConfirmationMismatch,
    UnknownRole(Seq<char>),
    LastAdministrator,
    Internal(Seq<char>),
}

impl View for IdentityError {
    type V = IdentityErrorView;

    open spec fn view(&self) -> IdentityErrorView {
        match self {
            IdentityError::EmailTaken => IdentityErrorView::EmailTaken,
            IdentityError::InvalidCredentials => IdentityErrorView::InvalidCredentials,
            IdentityError::AccountDisabled => IdentityErrorView::AccountDisabled,
            IdentityError::AccountLocked => IdentityErrorView::AccountLocked,
            IdentityError::EmailNotVerified => IdentityErrorView::EmailNotVerified,
            IdentityError::InvalidToken => IdentityErrorView::InvalidToken,
            IdentityError::NotFound => IdentityErrorView::NotFound,
            IdentityError::SelfTargeted => IdentityErrorView::SelfTargeted,
            IdentityError::ConfirmationMismatch => IdentityErrorView::ConfirmationMismatch,
            IdentityError::UnknownRole(r) => IdentityErrorView::UnknownRole(r@),
            IdentityError::LastAdministrator => IdentityErrorView::LastAdministrator,
            IdentityError::Internal(m) => IdentityErrorView::Internal(m@),
        }
    }
}

/// The message each failure displays.
pub open spec fn identity_message(e: IdentityErrorView) -> Seq<char> {
    match e {
        IdentityErrorView::EmailTaken => "email is already registered"@,
        IdentityErrorView::InvalidCredentials => "invalid credentials"@,
        IdentityErrorView::AccountDisabled => "account is disabled"@,
        IdentityErrorView::AccountLocked => "account is temporarily locked"@,
        IdentityErrorView::EmailNotVerified => "email address is not verified"@,
        IdentityErrorView::InvalidToken => "invalid or expired token"@,
        IdentityErrorView::NotFound => "account not found"@,
        IdentityErrorView::SelfTargeted => "an administrator cannot do that to their own account"@,
        IdentityErrorView::ConfirmationMismatch => "the confirmation does not match the account's email address"@,
        IdentityErrorView::UnknownRole(r) => "unknown role: "@ + r,
        IdentityErrorView::LastAdministrator => "the instance must keep at least one administrator"@,
        IdentityErrorView::Internal(_) => "internal identity error"@,
    }
}

/// The response each failure becomes.
pub open spec fn identity_app_error(e: IdentityErrorView) -> AppErrorView {
    match e {
        IdentityErrorView::EmailTaken => AppErrorView::Conflict,
        IdentityErrorView::InvalidCredentials => AppErrorView::Unauthorized,
        IdentityErrorView::AccountDisabled => AppErrorView::Forbidden,
        IdentityErrorView::AccountLocked => AppErrorView::AccountLocked,
        IdentityErrorView::EmailNotVerified => AppErrorView::Forbidden,
        IdentityErrorView::InvalidToken => AppErrorView::InvalidToken,
        IdentityErrorView::NotFound => AppErrorView::NotFound,
        IdentityErrorView::SelfTargeted => AppErrorView::Forbidden,
        IdentityErrorView::ConfirmationMismatch => AppErrorView::Validation(
            "the confirmation does not match the account's email address"@,
        ),
        IdentityErrorView::UnknownRole(r) => AppErrorView::Validation("unknown role: "@ + r),
        IdentityErrorView::LastAdministrator => AppErrorView::Conflict,
        IdentityErrorView::Internal(m) => AppErrorView::Internal(m),
    }
}

impl IdentityError {
    /// The message this failure displays.
    pub fn message(&self) -> (s: String)
        ensures
            s@ == identity_message(self@),
    {
        match self {
            IdentityError::EmailTaken => owned("email is already registered"),
            IdentityError::InvalidCredentials => owned("invalid credentials"),
            IdentityError::AccountDisabled => owned("account is disabled"),
            IdentityError::AccountLocked => owned("account is temporarily locked"),
            IdentityError::EmailNotVerified => owned("email address is not verified"),
            IdentityError::InvalidToken => owned("invalid or expired token"),
            IdentityError::NotFound => owned("account not found"),
            IdentityError::SelfTargeted => owned(
                "an administrator cannot do that to their own account",
            ),
            IdentityError::ConfirmationMismatch => owned(
                "the confirmation does not match the account's email address",
            ),
            IdentityError::UnknownRole(r) => concat("unknown role: ", r.as_str()),
            IdentityError::LastAdministrator => owned(
                "the instance must keep at least one administrator",
            ),
            IdentityError::Internal(_) => owned("internal identity error"),
        }
    }

    /// The response this failure becomes.
    pub fn into_app_error(self) -> (e: AppError)
        ensures
            e@ == identity_app_error(self@),
    {
        match self {
            IdentityError::EmailTaken => AppError::Conflict,
            IdentityError::InvalidCredentials => AppError::Unauthorized,
            IdentityError::AccountDisabled => AppError::Forbidden,
            IdentityError::AccountLocked => AppError::AccountLocked,
            IdentityError::EmailNotVerified => AppError::Forbidden,
            IdentityError::InvalidToken => AppError::InvalidToken,
            IdentityError::NotFound => AppError::NotFound,
            IdentityError::SelfTargeted => AppError::Forbidden,
            IdentityError::ConfirmationMismatch => AppError::Validation(
                owned("the confirmation does not match the account's email address"),
            ),
            IdentityError::UnknownRole(r) => AppError::Validation(concat("unknown role: ", r.as_str())),
            IdentityError::LastAdministrator => AppError::Conflict,
            IdentityError::Internal(m) => AppError::Internal(m),
        }
    }
}

} // verus!
