//! The decisions of the account lifecycle: what sign-in answers at each step, which status a new
//! account starts in, and when recovery mail is sent.
//!
//! Sign-in is a sequence of lookups and checks with decisions between them. Each decision is a
//! function here; the caller performs the lookup, the password check, and the ledger update
//! that a decision asks for, and hands the result to the next one. [`login_outcome`] is the
//! whole sequence in one expression, which the laws at the end speak of.

use vstd::prelude::*;
use crate::identity::error::{IdentityError, IdentityErrorView};
use crate::identity::model::{UserRecord, UserStatus, lock_in_force};
use crate::text::{contains, contains_text, str_eq};

verus! {

/// What sign-in does before it looks at the password.
#[derive(Debug)]
pub enum LoginGate {
    /// No account has that address: spend one verification against the canary hash so the
    /// response takes as long as a real one, record a failed login, and refuse with
    /// [`IdentityError::InvalidCredentials`].
    UnknownAccount,
    /// Record a failed login against the account and refuse.
    Refuse(IdentityError),
    /// Verify the password.
    CheckPassword,
}

/// The refusal an account meets at `now` before its password is checked: a lock in force wins
/// over a disabled status; `None` lets the password be checked.
pub open spec fn gate_of(account: Option<UserRecord>, now: i64) -> Option<IdentityErrorView> {
    match account {
        None => Some(IdentityErrorView::InvalidCredentials),
        Some(user) => if lock_in_force(user.locked_until, now) {
            Some(IdentityErrorView::AccountLocked)
        } else if user.status == UserStatus::Disabled {
            Some(IdentityErrorView::AccountDisabled)
        } else {
            None
        },
    }
}

/// Decides what sign-in does with the account found for an address, before the password.
pub fn login_gate(account: Option<&UserRecord>, now: i64) -> (g: LoginGate)
    ensures
        account is None <==> g is UnknownAccount,
        g is CheckPassword <==> (account is Some && gate_of(
            match account {
                Some(u) => Some(*u),
                None => None,
            },
            now,
        ) is None),
        g matches LoginGate::Refuse(e) ==> Some(e@) == gate_of(
            match account {
                Some(u) => Some(*u),
                None => None,
            },
            now,
        ),
{
    match account {
        None => LoginGate::UnknownAccount,
        Some(user) => {
            if user.is_locked(now) {
                LoginGate::Refuse(IdentityError::AccountLocked)
            } else if user.status == UserStatus::Disabled {
                LoginGate::Refuse(IdentityError::AccountDisabled)
            } else {
                LoginGate::CheckPassword
            }
        },
    }
}

/// Whether a wrong password must first clear a lock left behind by an earlier window, so that an
/// expired lock does not count against this attempt.
pub fn clears_stale_lock(user: &UserRecord) -> (b: bool)
    ensures
        b == user.locked_until is Some,
{
    user.locked_until.is_some()
}

/// The failed-attempt count at which the ledger locks an account: the configured maximum,
/// saturated to what the ledger column holds.
pub fn lockout_threshold(max_failed_attempts: u32) -> (t: i32)
    ensures
        t as int == if max_failed_attempts <= i32::MAX {
            max_failed_attempts as int
        } else {
            i32::MAX as int
        },
{
    if max_failed_attempts <= 2147483647u32 {
        max_failed_attempts as i32
    } else {
        i32::MAX
    }
}

/// The failed-attempt ledger after one more wrong password: the count goes up by one, and once
/// it reaches `threshold` the lock is set to `lock_until`; below it the current lock stays. A
/// count already at the column's maximum cannot go up, and the store refuses the update (`None`).
pub open spec fn ledger_after_failure(
    attempts: i32,
    threshold: i32,
    locked_until: Option<i64>,
    lock_until: i64,
) -> Option<(i32, Option<i64>)> {
    if attempts == i32::MAX {
        None
    } else {
        let count = (attempts + 1) as i32;
        Some((count, if count >= threshold {
            Some(lock_until)
        } else {
            locked_until
        }))
    }
}

/// Counts one more wrong password in the ledger; see [`ledger_after_failure`].
pub fn next_ledger(attempts: i32, threshold: i32, locked_until: Option<i64>, lock_until: i64) -> (r:
    Option<(i32, Option<i64>)>)
    ensures
        r == ledger_after_failure(attempts, threshold, locked_until, lock_until),
{
    if attempts == i32::MAX {
        return None;
    }
    let count = attempts + 1;
    if count >= threshold {
        Some((count, Some(lock_until)))
    } else {
        Some((count, locked_until))
    }
}

/// The wrong password that brings the count to the threshold, with a lock that runs past now,
/// is answered that the account is locked, and every later one before the lock runs out is too.
pub proof fn law_reaching_the_threshold_locks(
    attempts: i32,
    threshold: i32,
    locked_until: Option<i64>,
    lock_until: i64,
    now: i64,
)
    requires
        attempts < i32::MAX,
        attempts + 1 >= threshold,
        lock_until > now,
    ensures
        ledger_after_failure(attempts, threshold, locked_until, lock_until) matches Some((_, lock))
            && wrong_password_answer(lock, now) == IdentityErrorView::AccountLocked,
{
}

/// The answer to a wrong password, given the lock the ledger reports after counting it, and
/// whether an `account_locked` event is to be recorded too.
pub open spec fn wrong_password_answer(locked_until: Option<i64>, now: i64) -> IdentityErrorView {
    if lock_in_force(locked_until, now) {
        IdentityErrorView::AccountLocked
    } else {
        IdentityErrorView::InvalidCredentials
    }
}

/// Decides the answer to a wrong password once the failure has been counted: the attempt that
/// reaches the threshold is told the account is locked (and the lock is recorded as an event);
/// every other one is told the credentials are invalid.
pub fn after_wrong_password(locked_until: Option<i64>, now: i64) -> (r: (IdentityError, bool))
    ensures
        r.0@ == wrong_password_answer(locked_until, now),
        r.1 == lock_in_force(locked_until, now),
{
    let locked = match locked_until {
        Some(until) => until > now,
        None => false,
    };
    if locked {
        (IdentityError::AccountLocked, true)
    } else {
        (IdentityError::InvalidCredentials, false)
    }
}

/// Whether a correct password still may not sign in because the address is unconfirmed.
pub open spec fn unverified_refused(user: UserRecord, require_verification: bool) -> bool {
    require_verification && user.email_verified_at is None
}

/// Decides the answer to a correct password.
pub fn after_right_password(user: &UserRecord, require_verification: bool) -> (r: Result<
    (),
    IdentityError,
>)
    ensures
        r is Err <==> unverified_refused(*user, require_verification),
        r matches Err(e) ==> e@ == IdentityErrorView::EmailNotVerified,
{
    if require_verification && !user.is_email_verified() {
        Err(IdentityError::EmailNotVerified)
    } else {
        Ok(())
    }
}

/// The answer of a whole sign-in: the account found for the address (if any), the time, whether
/// the password matched the stored hash, the lock the ledger reports after counting a wrong
/// password, and whether addresses must be confirmed. `None` is success.
pub open spec fn login_outcome(
    account: Option<UserRecord>,
    now: i64,
    password_matches: bool,
    locked_after_failure: Option<i64>,
    require_verification: bool,
) -> Option<IdentityErrorView> {
    match gate_of(account, now) {
        Some(refusal) => Some(refusal),
        None => if !password_matches {
            Some(wrong_password_answer(locked_after_failure, now))
        } else if unverified_refused(account->0, require_verification) {
            Some(IdentityErrorView::EmailNotVerified)
        } else {
            None
        },
    }
}

/// The status a new account starts in: pending until its address is confirmed when the
/// instance requires confirmation, active otherwise.
pub fn initial_status(require_verification: bool) -> (s: UserStatus)
    ensures
        s == if require_verification {
            UserStatus::Pending
        } else {
            UserStatus::Active
        },
{
    if require_verification {
        UserStatus::Pending
    } else {
        UserStatus::Active
    }
}

/// Whether a password reset is started for the account found for an address. Unknown and
/// disabled accounts get nothing, and the caller reports acceptance either way.
pub fn reset_is_issued(account: Option<&UserRecord>) -> (b: bool)
    ensures
        b == match account {
            Some(u) => u.status != UserStatus::Disabled,
            None => false,
        },
{
    match account {
        Some(user) => user.status != UserStatus::Disabled,
        None => false,
    }
}

/// Whether a new confirmation link is sent for the account found for an address. Unknown,
/// already confirmed, and disabled accounts get nothing, and the caller reports success either
/// way.
pub fn verification_is_resent(account: Option<&UserRecord>) -> (b: bool)
    ensures
        b == match account {
            Some(u) => u.email_verified_at is None && u.status != UserStatus::Disabled,
            None => false,
        },
{
    match account {
        Some(user) => !user.is_email_verified() && user.status != UserStatus::Disabled,
        None => false,
    }
}

/// The answer to a password change whose current password did or did not match.
pub fn change_password_check(current_matches: bool) -> (r: Result<(), IdentityError>)
    ensures
        r is Ok <==> current_matches,
        r matches Err(e) ==> e@ == IdentityErrorView::InvalidCredentials,
{
    if current_matches {
        Ok(())
    } else {
        Err(IdentityError::InvalidCredentials)
    }
}

/// The unique-violation code the database reports for a duplicate.
pub const UNIQUE_VIOLATION: &'static str = "23505";

/// Whether a database failure is a unique violation on a constraint about the email.
pub open spec fn duplicate_email(code: Option<Seq<char>>, constraint: Option<Seq<char>>) -> bool {
    match (code, constraint) {
        (Some(c), Some(k)) => c == UNIQUE_VIOLATION@ && contains_text(k, "email"@),
        _ => false,
    }
}

/// What a failed account insert means: a unique violation on a constraint about the email is the
/// address already being registered; anything else is internal.
pub fn insert_failure(code: Option<&str>, constraint: Option<&str>, description: String) -> (e:
    IdentityError)
    ensures
        duplicate_email(
            match code {
                Some(c) => Some(c@),
                None => None,
            },
            match constraint {
                Some(k) => Some(k@),
                None => None,
            },
        ) ==> e@ == IdentityErrorView::EmailTaken,
        !duplicate_email(
            match code {
                Some(c) => Some(c@),
                None => None,
            },
            match constraint {
                Some(k) => Some(k@),
                None => None,
            },
        ) ==> e@ == IdentityErrorView::Internal(description@),
{
    let duplicate = match (code, constraint) {
        (Some(c), Some(k)) => str_eq(c, UNIQUE_VIOLATION) && contains(k, "email"),
        _ => false,
    };
    if duplicate {
        IdentityError::EmailTaken
    } else {
        IdentityError::Internal(description)
    }
}

/// A sign-in for an address nobody registered is answered exactly like a wrong password for an
/// account that exists, is neither locked nor disabled, and is not locked by this failure.
pub proof fn law_unknown_address_looks_like_wrong_password(
    user: UserRecord,
    now: i64,
    any_password: bool,
    any_lock: Option<i64>,
    locked_after_failure: Option<i64>,
    require_verification: bool,
)
    requires
        !lock_in_force(user.locked_until, now),
        user.status != UserStatus::Disabled,
        !lock_in_force(locked_after_failure, now),
    ensures
        login_outcome(None, now, any_password, any_lock, require_verification) == login_outcome(
            Some(user),
            now,
            false,
            locked_after_failure,
            require_verification,
        ),
        login_outcome(None, now, any_password, any_lock, require_verification) == Some(
            IdentityErrorView::InvalidCredentials,
        ),
{
}

/// An account whose lock is in force is refused as locked, whatever password is offered.
pub proof fn law_a_locked_account_is_refused_whatever_the_password(
    user: UserRecord,
    now: i64,
    password_matches: bool,
    locked_after_failure: Option<i64>,
    require_verification: bool,
)
    requires
        lock_in_force(user.locked_until, now),
    ensures
        login_outcome(Some(user), now, password_matches, locked_after_failure, require_verification)
            == Some(IdentityErrorView::AccountLocked),
{
}

/// Sign-in succeeds only for an existing, unlocked, enabled account whose password matched and
/// whose address is confirmed when confirmation is required.
pub proof fn law_only_a_sound_sign_in_succeeds(
    account: Option<UserRecord>,
    now: i64,
    password_matches: bool,
    locked_after_failure: Option<i64>,
    require_verification: bool,
)
    ensures
        login_outcome(account, now, password_matches, locked_after_failure, require_verification)
            is None <==> {
            &&& account is Some
            &&& !lock_in_force(account->0.locked_until, now)
            &&& account->0.status != UserStatus::Disabled
            &&& password_matches
            &&& !unverified_refused(account->0, require_verification)
        },
{
}

} // verus!
