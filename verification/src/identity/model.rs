//! The account record and the canonical form of an email address.

use vstd::prelude::*;
use crate::text::{ascii_lower, ascii_lowercase, is_white_space, trim, trim_end, trim_start, trimmed_string};

verus! {

/// Whether an account may authenticate.
#[derive(Debug, Clone, Copy, PartialEq, Eq, Structural)]
pub enum UserStatus {
    /// Created but not yet allowed to authenticate because email verification is required.
    Pending,
    Active,
    Disabled,
}

impl UserStatus {
    /// The lower-case name this status is stored and reported under.
    pub fn as_str(&self) -> (s: &'static str)
        ensures
            s@ == user_status_name(*self),
    {
        match self {
            UserStatus::Pending => "pending",
            UserStatus::Active => "active",
            UserStatus::Disabled => "disabled",
        }
    }
}

/// The lower-case name of a status.
pub open spec fn user_status_name(status: UserStatus) -> Seq<char> {
    match status {
        UserStatus::Pending => "pending"@,
        UserStatus::Active => "active"@,
        UserStatus::Disabled => "disabled"@,
    }
}

/// A stored account. Instants are microseconds since the Unix epoch; identifiers are the 128 bits
/// of a UUID.
#[derive(Debug, Clone)]
pub struct UserRecord {
    pub id: u128,
    pub email: String,
    pub password_hash: String,
    pub status: UserStatus,
    pub email_verified_at: Option<i64>,
    pub last_login_at: Option<i64>,
    pub failed_login_attempts: i32,
    pub locked_until: Option<i64>,
    pub password_changed_at: i64,
    pub created_at: i64,
    pub updated_at: i64,
}

/// Whether a lock is still in force at `now`.
pub open spec fn lock_in_force(locked_until: Option<i64>, now: i64) -> bool {
    match locked_until {
        Some(until) => until > now,
        None => false,
    }
}

impl UserRecord {
    /// Whether the account is locked out at `now`: a lock that has run out no longer counts.
    pub fn is_locked(&self, now: i64) -> (b: bool)
        ensures
            b == lock_in_force(self.locked_until, now),
    {
        match self.locked_until {
            Some(until) => until > now,
            None => false,
        }
    }

    /// Whether the address has been confirmed.
    pub fn is_email_verified(&self) -> (b: bool)
        ensures
            b == self.email_verified_at is Some,
    {
        self.email_verified_at.is_some()
    }
}

/// What `str::to_lowercase` gives for a text: the lower-case mapping of the Unicode
/// `Lowercase` derived property, character by character, with the special cases the Unicode
/// tables define.
pub uninterp spec fn unicode_lowercase(text: Seq<char>) -> Seq<char>;

/// Whether every character is ASCII.
pub open spec fn is_ascii_text(text: Seq<char>) -> bool {
    forall|i: int| 0 <= i < text.len() ==> (#[trigger] text[i] as u32) < 128
}

/// `str::to_lowercase`. Its result is named by [`unicode_lowercase`]; the Unicode tables it
/// applies are not restated here. Of an ASCII text it states what those tables give, and what
/// the documentation's example shows: each letter `A` to `Z` becomes its small letter and every
/// other character stays.
#[verifier::external_body]
fn to_lowercase(text: &str) -> (r: String)
    ensures
        r@ == unicode_lowercase(text@),
        is_ascii_text(text@) ==> r@ == ascii_lowercase(text@),
{
    text.to_lowercase()
}

/// The canonical form of an ASCII address: trimmed, then lower-cased.
pub open spec fn ascii_normal(email: Seq<char>) -> Seq<char> {
    ascii_lowercase(trim(email))
}

/// The canonical form of an address used for every storage and lookup path: trimmed of
/// surrounding whitespace, then lower-cased.
pub fn normalize_email(email: &str) -> (r: String)
    ensures
        r@ == unicode_lowercase(trim(email@)),
        is_ascii_text(email@) ==> r@ == ascii_normal(email@),
{
    let trimmed = trimmed_string(email);
    proof {
        if is_ascii_text(email@) {
            lemma_trim_keeps_ascii(email@);
        }
    }
    to_lowercase(trimmed.as_str())
}

proof fn lemma_trim_start_is_suffix(s: Seq<char>)
    ensures
        trim_start(s).len() <= s.len(),
        trim_start(s) == s.subrange(s.len() - trim_start(s).len(), s.len() as int),
        trim_start(s).len() > 0 ==> !is_white_space(trim_start(s)[0]),
    decreases s.len(),
{
    if s.len() > 0 && is_white_space(s[0]) {
        lemma_trim_start_is_suffix(s.drop_first());
        assert(s.drop_first().subrange(
            s.drop_first().len() - trim_start(s).len(),
            s.drop_first().len() as int,
        ) =~= s.subrange(s.len() - trim_start(s).len(), s.len() as int));
    } else {
        assert(s.subrange(0, s.len() as int) =~= s);
    }
}

proof fn lemma_trim_end_is_prefix(s: Seq<char>)
    ensures
        trim_end(s).len() <= s.len(),
        trim_end(s) == s.subrange(0, trim_end(s).len() as int),
        trim_end(s).len() > 0 ==> !is_white_space(trim_end(s).last()),
    decreases s.len(),
{
    if s.len() > 0 && is_white_space(s.last()) {
        lemma_trim_end_is_prefix(s.drop_last());
        assert(s.drop_last().subrange(0, trim_end(s).len() as int) =~= s.subrange(
            0,
            trim_end(s).len() as int,
        ));
    } else {
        assert(s.subrange(0, s.len() as int) =~= s);
    }
}

/// A trimmed text is part of the text, and begins and ends with a character that is not
/// whitespace.
proof fn lemma_trim_shape(s: Seq<char>)
    ensures
        exists|a: int, b: int| 0 <= a <= b <= s.len() && trim(s) == s.subrange(a, b),
        trim(s).len() > 0 ==> !is_white_space(trim(s)[0]) && !is_white_space(trim(s).last()),
{
    lemma_trim_start_is_suffix(s);
    let t = trim_start(s);
    lemma_trim_end_is_prefix(t);
    let a = s.len() - t.len();
    let n = trim_end(t).len() as int;
    assert(trim(s) =~= s.subrange(a, a + n));
    if n > 0 {
        assert(trim(s)[0] == t[0]);
    }
}

proof fn lemma_trim_keeps_ascii(s: Seq<char>)
    requires
        is_ascii_text(s),
    ensures
        is_ascii_text(trim(s)),
{
    lemma_trim_shape(s);
    let (a, b) = choose|a: int, b: int| 0 <= a <= b <= s.len() && trim(s) == s.subrange(a, b);
    assert forall|i: int| 0 <= i < trim(s).len() implies (#[trigger] trim(s)[i] as u32) < 128 by {
        assert(trim(s)[i] == s[a + i]);
    }
}

/// A text whose ends are not whitespace is its own trim.
proof fn lemma_trim_of_trimmed(s: Seq<char>)
    requires
        s.len() > 0 ==> !is_white_space(s[0]) && !is_white_space(s.last()),
    ensures
        trim(s) == s,
{
}

/// Normalising an ASCII address twice gives what normalising it once gives, and the canonical
/// form is trimmed and lower-case: one form for every storage and lookup path.
pub proof fn law_normalizing_an_address_twice_changes_nothing(email: Seq<char>)
    requires
        is_ascii_text(email),
    ensures
        is_ascii_text(ascii_normal(email)),
        trim(ascii_normal(email)) == ascii_normal(email),
        ascii_lowercase(ascii_normal(email)) == ascii_normal(email),
        ascii_normal(ascii_normal(email)) == ascii_normal(email),
{
    lemma_trim_keeps_ascii(email);
    lemma_trim_shape(email);
    let t = trim(email);
    let n = ascii_normal(email);
    assert forall|i: int| 0 <= i < n.len() implies (#[trigger] n[i] as u32) < 128 by {
        assert(n[i] == ascii_lower(t[i]));
        assert((t[i] as u32) < 128);
    }
    if t.len() > 0 {
        assert(n[0] == ascii_lower(t[0]));
        assert(n.last() == ascii_lower(t.last()));
    }
    lemma_trim_of_trimmed(n);
    assert(ascii_lowercase(n) =~= n);
}

/// What a one-time token may be redeemed for.
#[derive(Debug, Clone, Copy, PartialEq, Eq, Structural)]
pub enum OneTimeTokenPurpose {
    EmailVerification,
    PasswordReset,
}

impl OneTimeTokenPurpose {
    /// The name a purpose is stored under.
    pub fn as_str(&self) -> (s: &'static str)
        ensures
            s@ == match *self {
                OneTimeTokenPurpose::EmailVerification => "email_verification"@,
                OneTimeTokenPurpose::PasswordReset => "password_reset"@,
            },
    {
        match self {
            OneTimeTokenPurpose::EmailVerification => "email_verification",
            OneTimeTokenPurpose::PasswordReset => "password_reset",
        }
    }
}

} // verus!
