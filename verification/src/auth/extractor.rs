//! The caller of an authenticated request, and where its access token is read from.

use vstd::prelude::*;
use crate::error::{AppError, AppErrorView};
use crate::identity::administration::has_role_named;
use crate::identity::dto::PublicUser;
use crate::rbac::{RoleName, holds_role};
use crate::text::{
    ascii_lowercase, ascii_lowercased, chars_of, first_index, find_char, slice_chars, string_of,
    trim, trimmed,
};

verus! {

/// A caller that presented a valid access token and whose session is still active.
#[derive(Debug, Clone)]
pub struct AuthenticatedUser {
    pub user: PublicUser,
    /// The session this request belongs to, used to target logout and password-change
    /// revocation at the right session.
    pub session_id: u128,
}

impl AuthenticatedUser {
    /// Whether the caller holds `role`.
    pub fn has_role(&self, role: &RoleName) -> (b: bool)
        ensures
            b == has_role_named(self.user.roles@, role.name()),
    {
        holds_role(&self.user.roles, role)
    }

    /// Guard for endpoints restricted to a role: a caller without it is forbidden.
    pub fn require_role(&self, role: &RoleName) -> (r: Result<(), AppError>)
        ensures
            r is Ok <==> has_role_named(self.user.roles@, role.name()),
            r matches Err(e) ==> e@ == AppErrorView::Forbidden,
    {
        if self.has_role(role) {
            Ok(())
        } else {
            Err(AppError::Forbidden)
        }
    }
}

/// The token of an `Authorization` header value: a scheme that is `bearer` in any case, one
/// space, and a token that is not blank once trimmed.
pub open spec fn bearer_of(header: Seq<char>) -> Option<Seq<char>> {
    match first_index(header, ' ') {
        None => None,
        Some(i) => {
            let scheme = header.take(i);
            let token = trim(header.skip(i + 1));
            if ascii_lowercase(scheme) == "bearer"@ && token.len() > 0 {
                Some(token)
            } else {
                None
            }
        },
    }
}

/// Reads the bearer token out of an `Authorization` header value.
pub fn bearer_token(header: &str) -> (r: Option<String>)
    ensures
        match r {
            Some(t) => bearer_of(header@) == Some(t@),
            None => bearer_of(header@) is None,
        },
{
    let v = chars_of(header);
    let space = match find_char(&v, ' ') {
        Some(i) => i,
        None => {
            return None;
        },
    };
    assert(space < v@.len());
    let scheme = slice_chars(&v, 0, space);
    let n: usize = v.len();
    let rest = slice_chars(&v, space + 1, n);
    assert(scheme@ =~= header@.take(space as int));
    assert(rest@ =~= header@.skip(space + 1));
    let lowered = ascii_lowercased(&scheme);
    let expected = chars_of("bearer");
    let lowered_chars = chars_of(lowered.as_str());
    if lowered_chars.len() != expected.len() {
        assert(lowered@ != "bearer"@);
        return None;
    }
    let mut i: usize = 0;
    while i < expected.len()
        invariant
            lowered_chars@ == lowered@,
            lowered@ == ascii_lowercase(header@.take(space as int)),
            first_index(header@, ' ') == Some(space as int),
            expected@ == "bearer"@,
            lowered_chars@.len() == expected@.len(),
            i <= expected@.len(),
            forall|k: int| 0 <= k < i ==> lowered_chars@[k] == expected@[k],
        decreases expected@.len() - i,
    {
        if lowered_chars[i] != expected[i] {
            assert(lowered@[i as int] != "bearer"@[i as int]);
            assert(lowered@ != "bearer"@);
            assert(bearer_of(header@) is None);
            return None;
        }
        i = i + 1;
    }
    assert(lowered@ =~= "bearer"@);
    let rest_text = string_of(rest.as_slice());
    let token = trimmed(rest_text.as_str());
    if token.len() == 0 {
        return None;
    }
    Some(string_of(token.as_slice()))
}

/// Where an access token comes from: the bearer header when it carries one, otherwise the
/// dashboard cookie, so the browser flow needs no JavaScript access to the token. Neither is
/// unauthorized.
pub fn access_token_source(bearer: Option<String>, cookie: Option<String>) -> (r: Result<
    String,
    AppError,
>)
    ensures
        match bearer {
            Some(t) => r matches Ok(token) && token@ == t@,
            None => match cookie {
                Some(c) => r matches Ok(token) && token@ == c@,
                None => r matches Err(e) && e@ == AppErrorView::Unauthorized,
            },
        },
{
    match bearer {
        Some(t) => Ok(t),
        None => match cookie {
            Some(c) => Ok(c),
            None => Err(AppError::Unauthorized),
        },
    }
}

} // verus!
