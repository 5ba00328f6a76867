//! The cookies that carry credentials to browsers.
//!
//! Every credential cookie is `HttpOnly` (never readable by JavaScript), `SameSite=Lax` (not
//! sent on cross-site POST requests, which is the CSRF boundary), `Secure` whenever the
//! deployment is on HTTPS, and scoped to the API prefix so it is never attached to unrelated
//! paths on the same host. A `Max-Age` of zero deletes the cookie.

use vstd::prelude::*;
use crate::text::owned;

verus! {

/// The cookie that carries the access token.
pub const ACCESS_TOKEN_COOKIE: &'static str = "access_token";
/// The cookie that carries the refresh token.
pub const REFRESH_TOKEN_COOKIE: &'static str = "refresh_token";
/// The path every credential cookie is scoped to.
pub const COOKIE_PATH: &'static str = "/api/v1";

/// The `SameSite` attribute of a cookie.
#[derive(Debug, Clone, Copy, PartialEq, Eq, Structural)]
pub enum SameSite {
    Strict,
    Lax,
    /// `SameSite=None`.
    Unrestricted,
}

/// A cookie to set: its name, value, and attributes.
#[derive(Debug, Clone)]
pub struct CookieSpec {
    pub name: String,
    pub value: String,
    pub http_only: bool,
    pub secure: bool,
    pub same_site: SameSite,
    pub path: String,
    /// `Max-Age`, in seconds.
    pub max_age_seconds: i64,
}

/// A lifetime in seconds as a signed count, saturated at the largest one.
pub open spec fn seconds_saturated(seconds: u64) -> i64 {
    if seconds <= i64::MAX {
        seconds as i64
    } else {
        i64::MAX
    }
}

/// `i64::try_from(seconds).unwrap_or(i64::MAX)`.
pub fn saturating_seconds(seconds: u64) -> (r: i64)
    ensures
        r == seconds_saturated(seconds),
{
    if seconds <= 9223372036854775807u64 {
        seconds as i64
    } else {
        i64::MAX
    }
}

/// Whether a cookie has the attributes every credential cookie has.
pub open spec fn locked_down(c: CookieSpec, secure: bool) -> bool {
    &&& c.http_only
    &&& c.secure == secure
    &&& c.same_site == SameSite::Lax
    &&& c.path@ == COOKIE_PATH@
}

/// A credential cookie named `name` carrying `value` for `ttl_seconds`.
pub fn credential_cookie(name: &str, value: String, ttl_seconds: u64, secure: bool) -> (c:
    CookieSpec)
    ensures
        c.name@ == name@,
        c.value@ == value@,
        locked_down(c, secure),
        c.max_age_seconds == seconds_saturated(ttl_seconds),
{
    CookieSpec {
        name: owned(name),
        value,
        http_only: true,
        secure,
        same_site: SameSite::Lax,
        path: owned(COOKIE_PATH),
        max_age_seconds: saturating_seconds(ttl_seconds),
    }
}

/// The cookie that carries an access token.
pub fn access_cookie(token: String, ttl_seconds: u64, secure: bool) -> (c: CookieSpec)
    ensures
        c.name@ == ACCESS_TOKEN_COOKIE@,
        c.value@ == token@,
        locked_down(c, secure),
        c.max_age_seconds == seconds_saturated(ttl_seconds),
{
    credential_cookie(ACCESS_TOKEN_COOKIE, token, ttl_seconds, secure)
}

/// The cookie that carries a refresh token.
pub fn refresh_cookie(token: String, ttl_seconds: u64, secure: bool) -> (c: CookieSpec)
    ensures
        c.name@ == REFRESH_TOKEN_COOKIE@,
        c.value@ == token@,
        locked_down(c, secure),
        c.max_age_seconds == seconds_saturated(ttl_seconds),
{
    credential_cookie(REFRESH_TOKEN_COOKIE, token, ttl_seconds, secure)
}

/// Expired cookies that overwrite both stored credentials on sign-out.
pub fn removal_cookies(secure: bool) -> (r: [CookieSpec; 2])
    ensures
        r[0].name@ == ACCESS_TOKEN_COOKIE@,
        r[1].name@ == REFRESH_TOKEN_COOKIE@,
        forall|i: int|
            0 <= i < 2 ==> {
                &&& locked_down(#[trigger] r[i], secure)
                &&& r[i].value@.len() == 0
                &&& r[i].max_age_seconds == 0
            },
{
    [
        credential_cookie(ACCESS_TOKEN_COOKIE, String::new(), 0, secure),
        credential_cookie(REFRESH_TOKEN_COOKIE, String::new(), 0, secure),
    ]
}

} // verus!
