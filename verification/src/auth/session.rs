//! Refresh-token rotation and the session checks of authenticated requests.
//!
//! A refresh token is single use. Presenting one that was already exchanged means it was either
//! stolen and replayed or retried by a client whose first refresh succeeded; both revoke the
//! whole session family and are refused. Unknown, revoked, and expired tokens are refused alike.

use vstd::prelude::*;
use crate::auth::error::AuthError;
use crate::identity::events::AuthEventType;
use crate::identity::model::{UserRecord, UserStatus};

verus! {

/// A refresh token as found by its hash, with the session it belongs to. Instants are
/// microseconds since the Unix epoch.
#[derive(Debug, Clone, Copy)]
pub struct TokenLookup {
    pub token_id: u128,
    pub session_id: u128,
    pub user_id: u128,
    pub used_at: Option<i64>,
    pub token_expires_at: i64,
    pub session_revoked_at: Option<i64>,
    pub session_expires_at: i64,
}

/// The result of presenting a refresh token.
#[derive(Debug, Clone, Copy, PartialEq, Eq, Structural)]
pub enum RefreshOutcome {
    /// The token was valid, has been marked used, and a replacement was issued.
    Rotated { user_id: u128, session_id: u128 },
    /// The token had already been exchanged.
    Reused { user_id: u128, session_id: u128 },
    /// Unknown, revoked, or expired: indistinguishable to the caller.
    Invalid,
}

/// What the session store does with a presented token.
#[derive(Debug, Clone, Copy, PartialEq, Eq, Structural)]
pub enum RefreshStep {
    /// Refuse; nothing changes.
    Refuse,
    /// Report a reuse; nothing changes, so the state an attacker sees is kept.
    ReportReuse { user_id: u128, session_id: u128 },
    /// Record a replacement token for the session expiring at `replacement_expires_at`, mark the
    /// presented token used and replaced by it, and touch the session.
    Rotate { token_id: u128, session_id: u128, user_id: u128, replacement_expires_at: i64 },
}

/// The step for a token found (or not) at `now`, when the replacement would expire at
/// `requested_expiry`.
pub open spec fn refresh_step(lookup: Option<TokenLookup>, now: i64, requested_expiry: i64) -> RefreshStep {
    match lookup {
        None => RefreshStep::Refuse,
        Some(l) => if l.used_at is Some {
            RefreshStep::ReportReuse { user_id: l.user_id, session_id: l.session_id }
        } else if l.session_revoked_at is Some || l.token_expires_at <= now || l.session_expires_at
            <= now {
            RefreshStep::Refuse
        } else {
            RefreshStep::Rotate {
                token_id: l.token_id,
                session_id: l.session_id,
                user_id: l.user_id,
                replacement_expires_at: if requested_expiry < l.session_expires_at {
                    requested_expiry
                } else {
                    l.session_expires_at
                },
            }
        },
    }
}

/// Decides what a presented refresh token leads to. A used token is reported as reused before
/// anything else is looked at; a revoked session or an expired token or session is refused; a
/// replacement never outlives the session it belongs to, so rotation cannot extend a session.
pub fn decide_refresh(lookup: Option<&TokenLookup>, now: i64, requested_expiry: i64) -> (s: RefreshStep)
    ensures
        s == refresh_step(
            match lookup {
                Some(l) => Some(*l),
                None => None,
            },
            now,
            requested_expiry,
        ),
{
    match lookup {
        None => RefreshStep::Refuse,
        Some(l) => {
            if l.used_at.is_some() {
                RefreshStep::ReportReuse { user_id: l.user_id, session_id: l.session_id }
            } else if l.session_revoked_at.is_some() || l.token_expires_at <= now
                || l.session_expires_at <= now {
                RefreshStep::Refuse
            } else {
                let replacement_expires_at = if requested_expiry < l.session_expires_at {
                    requested_expiry
                } else {
                    l.session_expires_at
                };
                RefreshStep::Rotate {
                    token_id: l.token_id,
                    session_id: l.session_id,
                    user_id: l.user_id,
                    replacement_expires_at,
                }
            }
        },
    }
}

/// The presented token as the store keeps it once a step taken at `now` has been carried out:
/// rotation marks it used at `now`; refusing and reporting a reuse change nothing.
pub open spec fn presented_after(lookup: TokenLookup, step: RefreshStep, now: i64) -> TokenLookup {
    match step {
        RefreshStep::Rotate { .. } => TokenLookup { used_at: Some(now), ..lookup },
        _ => lookup,
    }
}

/// Which tokens rotate, and for how long the replacement lives: a token rotates exactly when it
/// is found, unused, its session not revoked, and neither it nor its session has expired; the
/// replacement then expires at the earlier of the requested expiry and the session's expiry, so
/// refreshing extends a sign-in up to the session's end and never beyond.
pub proof fn law_rotation_and_the_replacement_lifetime(
    lookup: Option<TokenLookup>,
    now: i64,
    requested_expiry: i64,
)
    ensures
        refresh_step(lookup, now, requested_expiry) is Rotate <==> (lookup matches Some(l) && l.used_at
            is None && l.session_revoked_at is None && l.token_expires_at > now && l.session_expires_at
            > now),
        lookup is None ==> refresh_step(lookup, now, requested_expiry) == RefreshStep::Refuse,
        refresh_step(lookup, now, requested_expiry) matches RefreshStep::Rotate {
            token_id,
            session_id,
            user_id,
            replacement_expires_at,
        } ==> lookup matches Some(l) && token_id == l.token_id && session_id == l.session_id
            && user_id == l.user_id && replacement_expires_at <= requested_expiry
            && replacement_expires_at <= l.session_expires_at && (replacement_expires_at
            == requested_expiry || replacement_expires_at == l.session_expires_at),
{
}

/// A refresh token is single use: once it has been rotated, every later presentation of it,
/// at any time and for any requested expiry, is reported as a reuse of the same session.
pub proof fn law_a_rotated_token_is_reported_reused(
    lookup: TokenLookup,
    now: i64,
    requested_expiry: i64,
    later: i64,
    later_expiry: i64,
)
    requires
        refresh_step(Some(lookup), now, requested_expiry) is Rotate,
    ensures
        refresh_step(
            Some(presented_after(lookup, refresh_step(Some(lookup), now, requested_expiry), now)),
            later,
            later_expiry,
        ) == (RefreshStep::ReportReuse { user_id: lookup.user_id, session_id: lookup.session_id }),
{
}

/// The outcome the store reports once a step has been carried out.
pub fn outcome_of(step: RefreshStep) -> (o: RefreshOutcome)
    ensures
        o == match step {
            RefreshStep::Refuse => RefreshOutcome::Invalid,
            RefreshStep::ReportReuse { user_id, session_id } => RefreshOutcome::Reused {
                user_id,
                session_id,
            },
            RefreshStep::Rotate { user_id, session_id, .. } => RefreshOutcome::Rotated {
                user_id,
                session_id,
            },
        },
{
    match step {
        RefreshStep::Refuse => RefreshOutcome::Invalid,
        RefreshStep::ReportReuse { user_id, session_id } => RefreshOutcome::Reused {
            user_id,
            session_id,
        },
        RefreshStep::Rotate { user_id, session_id, .. } => RefreshOutcome::Rotated {
            user_id,
            session_id,
        },
    }
}

/// What the authentication service does with a refresh outcome.
#[derive(Debug, Clone, Copy, PartialEq, Eq, Structural)]
pub enum RefreshAction {
    /// Issue an access token for the session, record `token_refreshed`, and hand back the
    /// replacement refresh token.
    Issue { user_id: u128, session_id: u128 },
    /// Revoke the session family, record `token_reuse_detected`, and refuse. Only that family
    /// is revoked, not every session of the account: a client retrying a refresh it already
    /// completed should not sign its owner out everywhere.
    RevokeFamily { user_id: u128, session_id: u128 },
    /// Refuse.
    Refuse,
}

/// Decides what the service does with a refresh outcome.
pub fn refresh_action(outcome: RefreshOutcome) -> (a: RefreshAction)
    ensures
        a == match outcome {
            RefreshOutcome::Rotated { user_id, session_id } => RefreshAction::Issue {
                user_id,
                session_id,
            },
            RefreshOutcome::Reused { user_id, session_id } => RefreshAction::RevokeFamily {
                user_id,
                session_id,
            },
            RefreshOutcome::Invalid => RefreshAction::Refuse,
        },
{
    match outcome {
        RefreshOutcome::Rotated { user_id, session_id } => RefreshAction::Issue {
            user_id,
            session_id,
        },
        RefreshOutcome::Reused { user_id, session_id } => RefreshAction::RevokeFamily {
            user_id,
            session_id,
        },
        RefreshOutcome::Invalid => RefreshAction::Refuse,
    }
}

/// The event recorded for an action, if any.
pub fn refresh_event(action: RefreshAction) -> (e: Option<AuthEventType>)
    ensures
        e == match action {
            RefreshAction::Issue { .. } => Some(AuthEventType::TokenRefreshed),
            RefreshAction::RevokeFamily { .. } => Some(AuthEventType::TokenReuseDetected),
            RefreshAction::Refuse => None,
        },
{
    match action {
        RefreshAction::Issue { .. } => Some(AuthEventType::TokenRefreshed),
        RefreshAction::RevokeFamily { .. } => Some(AuthEventType::TokenReuseDetected),
        RefreshAction::Refuse => None,
    }
}

/// An account may act through a session only while it exists and is not disabled; anything
/// else is an untrusted token.
pub fn check_session_user(user: Option<&UserRecord>) -> (r: Result<(), AuthError>)
    ensures
        r is Ok <==> (match user {
            Some(u) => u.status != UserStatus::Disabled,
            None => false,
        }),
        r matches Err(e) ==> e is InvalidToken,
{
    match user {
        None => Err(AuthError::InvalidToken),
        Some(u) => {
            if u.status == UserStatus::Disabled {
                Err(AuthError::InvalidToken)
            } else {
                Ok(())
            }
        },
    }
}

/// A session that the store no longer reports active is refused.
pub fn check_session_active(active: bool) -> (r: Result<(), AuthError>)
    ensures
        r is Ok <==> active,
        r matches Err(e) ==> e is InvalidToken,
{
    if active {
        Ok(())
    } else {
        Err(AuthError::InvalidToken)
    }
}

/// A refresh token that was already exchanged never yields a new session, whatever else is true
/// of it; the outcome names the family to revoke.
pub proof fn law_a_reused_refresh_token_is_refused(
    lookup: TokenLookup,
    now: i64,
    requested_expiry: i64,
)
    requires
        lookup.used_at is Some,
    ensures
        refresh_step(Some(lookup), now, requested_expiry) == (RefreshStep::ReportReuse {
            user_id: lookup.user_id,
            session_id: lookup.session_id,
        }),
{
}

/// Rotation never extends a session: a replacement expires no later than its session, and
/// none is issued for a revoked or expired session or token.
pub proof fn law_rotation_never_outlives_the_session(
    lookup: TokenLookup,
    now: i64,
    requested_expiry: i64,
)
    ensures
        refresh_step(Some(lookup), now, requested_expiry) matches RefreshStep::Rotate {
            replacement_expires_at,
            ..
        } ==> {
            &&& replacement_expires_at <= lookup.session_expires_at
            &&& replacement_expires_at <= requested_expiry
            &&& lookup.used_at is None
            &&& lookup.session_revoked_at is None
            &&& now < lookup.token_expires_at
            &&& now < lookup.session_expires_at
        },
{
}

} // verus!
