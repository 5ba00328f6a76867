//! The shapes authentication requests arrive in, and where a refresh token is taken from.

use vstd::prelude::*;
use crate::error::{AppError, AppErrorView};
use crate::identity::dto::{
    MAX_PASSWORD_CHARS, MAX_TOKEN_CHARS, MIN_PASSWORD_CHARS, chars_within,
};
use crate::text::chars_of;

verus! {

/// The token type announced to API clients.
pub const BEARER_TOKEN_TYPE: &'static str = "Bearer";

fn within(s: &str, min: usize, max: usize) -> (b: bool)
    ensures
        b == chars_within(s@, min as int, max as int),
{
    let n = chars_of(s).len();
    min <= n && n <= max
}

/// An exchange of a refresh token. API clients send the token in the body; browser clients
/// send the refresh cookie instead.
#[derive(Debug)]
pub struct RefreshRequest {
    pub refresh_token: Option<String>,
}

impl RefreshRequest {
    /// A token sent in the body has 1 to 512 characters.
    pub fn is_valid(&self) -> (b: bool)
        ensures
            b == match self.refresh_token {
                Some(t) => chars_within(t@, 1, MAX_TOKEN_CHARS as int),
                None => true,
            },
    {
        match &self.refresh_token {
            Some(t) => within(t.as_str(), 1, MAX_TOKEN_CHARS),
            None => true,
        }
    }
}

/// A password change.
#[derive(Debug)]
pub struct ChangePasswordRequest {
    pub current_password: String,
    pub new_password: String,
}

impl ChangePasswordRequest {
    /// A current password of 1 to 128 characters and a new one of 12 to 128.
    pub fn is_valid(&self) -> (b: bool)
        ensures
            b == (chars_within(self.current_password@, 1, MAX_PASSWORD_CHARS as int)
                && chars_within(
                self.new_password@,
                MIN_PASSWORD_CHARS as int,
                MAX_PASSWORD_CHARS as int,
            )),
    {
        within(self.current_password.as_str(), 1, MAX_PASSWORD_CHARS) && within(
            self.new_password.as_str(),
            MIN_PASSWORD_CHARS,
            MAX_PASSWORD_CHARS,
        )
    }
}

/// Where the refresh token comes from: the body when it carries one, otherwise the refresh
/// cookie. The answer says which, because the response follows the source: a browser that sent
/// a cookie gets cookies back and never sees the token in JavaScript. Neither is unauthorized.
pub fn refresh_token_source(body: Option<String>, cookie: Option<String>) -> (r: Result<
    (String, bool),
    AppError,
>)
    ensures
        match body {
            Some(t) => r matches Ok((token, from_cookie)) && token@ == t@ && !from_cookie,
            None => match cookie {
                Some(c) => r matches Ok((token, from_cookie)) && token@ == c@ && from_cookie,
                None => r matches Err(e) && e@ == AppErrorView::Unauthorized,
            },
        },
{
    match body {
        Some(t) => Ok((t, false)),
        None => match cookie {
            Some(c) => Ok((c, true)),
            None => Err(AppError::Unauthorized),
        },
    }
}

} // verus!
