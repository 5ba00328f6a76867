//! Failures of authentication and the responses they become.

use vstd::prelude::*;
use crate::error::{AppError, AppErrorView};
use crate::identity::error::{IdentityError, identity_app_error, identity_message};
use crate::text::owned;

verus! {

/// Failures raised while authenticating a caller.
#[derive(Debug)]
pub enum AuthError {
    /// Credential, lockout, and account-state failures raised by the identity domain.
    Identity(IdentityError),
    /// An access or refresh token could not be trusted. Always surfaced as 401 so the client
    /// knows to authenticate again.
    InvalidToken,
    Internal(String),
}

/// The response an authentication failure becomes.
pub open spec fn auth_app_error(e: AuthError) -> AppErrorView {
    match e {
        AuthError::Identity(inner) => identity_app_error(inner@),
        AuthError::InvalidToken => AppErrorView::Unauthorized,
        AuthError::Internal(m) => AppErrorView::Internal(m@),
    }
}

impl AuthError {
    /// The response this failure becomes.
    pub fn into_app_error(self) -> (r: AppError)
        ensures
            r@ == auth_app_error(self),
    {
        match self {
            AuthError::Identity(inner) => inner.into_app_error(),
            AuthError::InvalidToken => AppError::Unauthorized,
            AuthError::Internal(m) => AppError::Internal(m),
        }
    }

    /// The message this failure displays: the identity failure's own, or the fixed text of the
    /// others.
    pub fn message(&self) -> (s: String)
        ensures
            s@ == match self {
                AuthError::Identity(inner) => identity_message(inner@),
                AuthError::InvalidToken => "invalid or expired token"@,
                AuthError::Internal(_) => "internal authentication error"@,
            },
    {
        match self {
            AuthError::Identity(inner) => inner.message(),
            AuthError::InvalidToken => owned("invalid or expired token"),
            AuthError::Internal(_) => owned("internal authentication error"),
        }
    }
}

} // verus!
