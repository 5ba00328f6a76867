//! The messages the account lifecycle sends: confirmation and password-reset links.
//!
//! Links point at the web application, whose base address is configured; the raw token goes in
//! the query string and nowhere else.

use vstd::prelude::*;
use crate::queue::EmailJob;
use crate::text::{chars_of, concat, owned, push_str, string_of};

verus! {

/// A text without the slashes it ends with.
pub open spec fn without_trailing_slashes(s: Seq<char>) -> Seq<char>
    decreases s.len(),
{
    if s.len() > 0 && s.last() == '/' {
        without_trailing_slashes(s.drop_last())
    } else {
        s
    }
}

/// `str::trim_end_matches('/')`.
pub fn trim_trailing_slashes(s: &str) -> (r: String)
    ensures
        r@ == without_trailing_slashes(s@),
{
    let v = chars_of(s);
    let mut end: usize = v.len();
    assert(v@.take(end as int) =~= s@);
    while end > 0 && v[end - 1] == '/'
        invariant
            end <= v@.len(),
            v@ == s@,
            without_trailing_slashes(v@.take(end as int)) == without_trailing_slashes(s@),
        decreases end,
    {
        assert(v@.take(end as int).drop_last() =~= v@.take(end - 1));
        end = end - 1;
    }
    let mut kept: Vec<char> = Vec::new();
    let mut i: usize = 0;
    while i < end
        invariant
            end <= v@.len(),
            i <= end,
            kept@ == v@.take(i as int),
        decreases end - i,
    {
        kept.push(v[i]);
        i = i + 1;
        assert(kept@ =~= v@.take(i as int));
    }
    assert(v@.take(end as int).len() == 0 || v@.take(end as int).last() != '/');
    string_of(kept.as_slice())
}

/// `base/path?token=token`, with any slashes ending `base` dropped.
pub open spec fn token_link(base: Seq<char>, path: Seq<char>, token: Seq<char>) -> Seq<char> {
    without_trailing_slashes(base) + path + "?token="@ + token
}

fn link(base: &str, path: &str, token: &str) -> (r: String)
    ensures
        r@ == token_link(base@, path@, token@),
{
    let mut r = trim_trailing_slashes(base);
    push_str(&mut r, path);
    push_str(&mut r, "?token=");
    push_str(&mut r, token);
    r
}

/// The link that confirms an address.
pub fn verification_link(app_base_url: &str, token: &str) -> (r: String)
    ensures
        r@ == token_link(app_base_url@, "/verify-email"@, token@),
{
    link(app_base_url, "/verify-email", token)
}

/// The link that completes a password reset.
pub fn reset_link(app_base_url: &str, token: &str) -> (r: String)
    ensures
        r@ == token_link(app_base_url@, "/reset-password"@, token@),
{
    link(app_base_url, "/reset-password", token)
}

/// The message that carries a confirmation link.
pub fn verification_email(to: &str, app_base_url: &str, token: &str) -> (job: EmailJob)
    ensures
        job.to@ == to@,
        job.subject@ == "Confirm your SubmitSnap email address"@,
        job.text_body@ == "Confirm your email address by visiting:\n"@ + token_link(
            app_base_url@,
            "/verify-email"@,
            token@,
        ) + "\n"@,
{
    let target = verification_link(app_base_url, token);
    let mut body = concat("Confirm your email address by visiting:\n", target.as_str());
    push_str(&mut body, "\n");
    EmailJob {
        to: owned(to),
        subject: owned("Confirm your SubmitSnap email address"),
        text_body: body,
    }
}

/// The message that carries a password-reset link.
pub fn reset_email(to: &str, app_base_url: &str, token: &str) -> (job: EmailJob)
    ensures
        job.to@ == to@,
        job.subject@ == "Reset your SubmitSnap password"@,
        job.text_body@ == "Use this link to choose a new password:\n"@ + token_link(
            app_base_url@,
            "/reset-password"@,
            token@,
        ) + "\n\nIf you did not request this, you can ignore this message."@,
{
    let target = reset_link(app_base_url, token);
    let mut body = concat("Use this link to choose a new password:\n", target.as_str());
    push_str(&mut body, "\n\nIf you did not request this, you can ignore this message.");
    EmailJob {
        to: owned(to),
        subject: owned("Reset your SubmitSnap password"),
        text_body: body,
    }
}

} // verus!
