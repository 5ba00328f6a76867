use submitsnap_core::auth::cookies::{
    access_cookie, refresh_cookie, removal_cookies, SameSite, COOKIE_PATH,
};
use submitsnap_core::auth::dto::{refresh_token_source, ChangePasswordRequest, RefreshRequest};
use submitsnap_core::auth::error::AuthError;
use submitsnap_core::auth::extractor::{bearer_token, AuthenticatedUser};
use submitsnap_core::auth::session::{
    check_session_user, decide_refresh, outcome_of, refresh_action, refresh_event, RefreshAction,
    RefreshOutcome, RefreshStep, TokenLookup,
};
use submitsnap_core::auth::token::{
    check_claims, identity_of, verify_access_token, AccessClaims, AccessTokens, TokenSettings,
};
use chrono::Utc;
use uuid::Uuid;
use submitsnap_core::error::AppError;
use submitsnap_core::identity::dto::PublicUser;
use submitsnap_core::identity::events::AuthEventType;
use submitsnap_core::identity::model::{UserRecord, UserStatus};
use submitsnap_core::rbac::RoleName;
use submitsnap_core::auth::extractor::access_token_source;
use submitsnap_core::auth::session::check_session_active;

#[test]
fn credential_cookies_are_locked_down() {
    let cookie = access_cookie("token-value".to_owned(), 900, true);

    assert!(cookie.http_only);
    assert!(cookie.secure);
    assert_eq!(cookie.same_site, SameSite::Lax);
    assert_eq!(cookie.path, COOKIE_PATH);
    assert_eq!(cookie.max_age_seconds, 900);
}

#[test]
fn insecure_deployments_omit_the_secure_flag() {
    assert!(!access_cookie("token".to_owned(), 900, false).secure);
}

#[test]
fn removal_cookies_expire_immediately() {
    for cookie in removal_cookies(true) {
        assert_eq!(cookie.max_age_seconds, 0);
        assert_eq!(cookie.path, COOKIE_PATH);
    }
}

#[test]
fn refresh_cookies_carry_their_token_for_their_lifetime() {
    let cookie = refresh_cookie("r".to_owned(), u64::MAX, false);
    assert_eq!((cookie.name.as_str(), cookie.value.as_str()), ("refresh_token", "r"));
    assert_eq!(cookie.max_age_seconds, i64::MAX);
}

fn settings() -> TokenSettings {
    TokenSettings::new("submitsnap".to_owned(), "submitsnap-api".to_owned(), 900)
}

const SECRET: &str = "a-test-secret-that-is-long-enough";

fn tokens(secret: &str, ttl_seconds: u64) -> AccessTokens {
    AccessTokens::new(secret, "submitsnap".to_owned(), "submitsnap-api".to_owned(), ttl_seconds)
}

fn claims_at(exp: i64, token_type: &str) -> AccessClaims {
    AccessClaims {
        sub: Uuid::new_v4().to_string(),
        sid: Uuid::new_v4().to_string(),
        jti: Uuid::new_v4().to_string(),
        iss: "submitsnap".to_owned(),
        aud: "submitsnap-api".to_owned(),
        typ: token_type.to_owned(),
        iat: exp - 900,
        nbf: exp - 900,
        exp,
    }
}

fn encode_with_secret(claims: &AccessClaims, secret: &str) -> String {
    tokens(secret, 900).sign(claims).unwrap()
}

#[test]
fn issued_tokens_verify_and_carry_both_identifiers() {
    let service = tokens(SECRET, 900);
    let user_id = Uuid::new_v4();
    let session_id = Uuid::new_v4();

    let (token, expires_in) = service.issue(user_id.as_u128(), session_id.as_u128()).unwrap();
    let claims = service.verify(&token).unwrap();

    assert_eq!(expires_in, 900);
    assert_eq!(claims.sub, user_id.to_string());
    assert_eq!(claims.sid, session_id.to_string());
    assert_eq!(claims.typ, "access");
    assert_eq!(claims.exp - claims.iat, 900);
}

#[test]
fn tokens_signed_with_another_secret_are_rejected() {
    let other = tokens("a-different-secret-that-is-long-enough", 900);
    let token = encode_with_secret(&claims_at(Utc::now().timestamp() + 900, "access"), SECRET);

    assert!(other.verify(&token).is_err());
}

#[test]
fn tokens_from_another_audience_are_rejected() {
    let other_audience = AccessTokens::new(
        SECRET,
        "submitsnap".to_owned(),
        "another-api".to_owned(),
        900,
    );
    let token = encode_with_secret(&claims_at(Utc::now().timestamp() + 900, "access"), SECRET);

    assert!(other_audience.verify(&token).is_err());
}

#[test]
fn expired_tokens_are_rejected() {
    let service = tokens(SECRET, 900);
    let token = encode_with_secret(&claims_at(Utc::now().timestamp() - 3600, "access"), SECRET);

    assert!(service.verify(&token).is_err());
}

#[test]
fn tokens_of_another_kind_are_rejected() {
    let service = tokens(SECRET, 900);
    let token = encode_with_secret(&claims_at(Utc::now().timestamp() + 900, "refresh"), SECRET);

    assert!(service.verify(&token).is_err());
}

#[test]
fn tokens_signed_with_an_unexpected_algorithm_are_rejected() {
    // A token signed with another HMAC must not be accepted even though its claims look valid.
    let claims = claims_at(Utc::now().timestamp() + 900, "access");
    let mut object = serde_json::Map::new();
    for (name, text) in [
        ("sub", &claims.sub),
        ("sid", &claims.sid),
        ("jti", &claims.jti),
        ("iss", &claims.iss),
        ("aud", &claims.aud),
        ("typ", &claims.typ),
    ] {
        object.insert(name.to_owned(), serde_json::Value::from(text.as_str()));
    }
    for (name, number) in [("iat", claims.iat), ("nbf", claims.nbf), ("exp", claims.exp)] {
        object.insert(name.to_owned(), serde_json::Value::from(number));
    }
    let token = jsonwebtoken::encode(
        &jsonwebtoken::Header::new(jsonwebtoken::Algorithm::HS384),
        &object,
        &jsonwebtoken::EncodingKey::from_secret(SECRET.as_bytes()),
    )
    .unwrap();

    assert!(tokens(SECRET, 900).verify(&token).is_err());
}

#[test]
fn malformed_tokens_are_rejected() {
    let service = tokens(SECRET, 900);

    assert!(service.verify("not-a-jwt").is_err());
    assert!(service.verify("").is_err());
}

#[test]
fn a_verified_token_identifies_its_account_and_session() {
    let service = tokens(SECRET, 900);
    let user_id: u128 = 0x0123_4567_89ab_cdef_0123_4567_89ab_cdef;
    let session_id: u128 = 42;
    let (token, _) = service.issue(user_id, session_id).unwrap();

    assert_eq!(verify_access_token(&service, &token).unwrap(), (user_id, session_id));
    assert!(matches!(verify_access_token(&service, "not-a-jwt"), Err(AuthError::InvalidToken)));
}

#[test]
fn signing_is_a_function_of_the_claims_and_the_secret() {
    let claims = claims_at(2_000_000_000, "access");
    let first = encode_with_secret(&claims, SECRET);

    assert_eq!(first, encode_with_secret(&claims, SECRET));
    assert_ne!(first, encode_with_secret(&claims, "a-different-secret-that-is-long-enough"));
    assert_eq!(first.split('.').count(), 3);
}

#[test]
fn issuing_at_a_given_time_signs_the_claims_of_that_time() {
    let service = tokens(SECRET, 900);
    let (token, ttl) = service.issue_at(1, 2, "jti".to_owned(), 1_000).unwrap();
    let claims = settings().claims(1, 2, "jti".to_owned(), 1_000);

    assert_eq!(ttl, 900);
    assert_eq!(token, service.sign(&claims).unwrap());
}

#[test]
fn only_access_tokens_of_this_service_pass_the_claim_checks() {
    let accepted = settings().claims(1, 2, "jti".to_owned(), 1_000);
    assert!(check_claims(&settings(), accepted.clone()).is_ok());

    let mut refresh = accepted.clone();
    refresh.typ = "refresh".to_owned();
    assert!(matches!(check_claims(&settings(), refresh), Err(AuthError::InvalidToken)));

    let mut foreign = accepted.clone();
    foreign.aud = "another-api".to_owned();
    assert!(matches!(check_claims(&settings(), foreign), Err(AuthError::InvalidToken)));

    let mut stranger = accepted;
    stranger.iss = "someone-else".to_owned();
    assert!(matches!(check_claims(&settings(), stranger), Err(AuthError::InvalidToken)));
}

#[test]
fn claims_of_another_kind_identify_nobody() {
    let mut claims = settings().claims(1, 2, "jti".to_owned(), 1_000);
    claims.typ = "refresh".to_owned();
    assert!(matches!(identity_of(&claims), Err(AuthError::InvalidToken)));
}

#[test]
fn claims_with_unreadable_identifiers_are_rejected() {
    let mut claims = settings().claims(1, 2, "jti".to_owned(), 1_000);
    claims.sub = "not-a-uuid".to_owned();
    assert!(matches!(identity_of(&claims), Err(AuthError::InvalidToken)));
}

#[test]
fn expiry_saturates_at_the_end_of_time() {
    let claims = settings().claims(1, 2, "jti".to_owned(), i64::MAX - 10);
    assert_eq!(claims.exp, i64::MAX);
}

fn lookup(used: bool, revoked: bool, token_expires_at: i64, session_expires_at: i64) -> TokenLookup {
    TokenLookup {
        token_id: 1,
        session_id: 2,
        user_id: 3,
        used_at: if used { Some(0) } else { None },
        token_expires_at,
        session_revoked_at: if revoked { Some(0) } else { None },
        session_expires_at,
    }
}

#[test]
fn a_reused_refresh_token_revokes_its_family() {
    let step = decide_refresh(Some(&lookup(true, false, 100, 100)), 10, 50);
    assert_eq!(step, RefreshStep::ReportReuse { user_id: 3, session_id: 2 });
    let action = refresh_action(outcome_of(step));
    assert_eq!(action, RefreshAction::RevokeFamily { user_id: 3, session_id: 2 });
    assert_eq!(refresh_event(action), Some(AuthEventType::TokenReuseDetected));
}

#[test]
fn a_rotated_token_never_outlives_its_session() {
    let step = decide_refresh(Some(&lookup(false, false, 100, 60)), 10, 500);
    assert_eq!(
        step,
        RefreshStep::Rotate { token_id: 1, session_id: 2, user_id: 3, replacement_expires_at: 60 }
    );
    assert_eq!(outcome_of(step), RefreshOutcome::Rotated { user_id: 3, session_id: 2 });
    assert_eq!(decide_refresh(None, 10, 50), RefreshStep::Refuse);
    assert_eq!(decide_refresh(Some(&lookup(false, true, 100, 100)), 10, 50), RefreshStep::Refuse);
    assert_eq!(decide_refresh(Some(&lookup(false, false, 10, 100)), 10, 50), RefreshStep::Refuse);
}

fn account(status: UserStatus) -> UserRecord {
    UserRecord {
        id: 3,
        email: "a@b.co".to_owned(),
        password_hash: String::new(),
        status,
        email_verified_at: None,
        last_login_at: None,
        failed_login_attempts: 0,
        locked_until: None,
        password_changed_at: 0,
        created_at: 0,
        updated_at: 0,
    }
}

#[test]
fn a_disabled_account_loses_its_sessions() {
    assert!(check_session_user(Some(&account(UserStatus::Active))).is_ok());
    assert!(matches!(check_session_user(Some(&account(UserStatus::Disabled))), Err(AuthError::InvalidToken)));
    assert!(matches!(check_session_user(None), Err(AuthError::InvalidToken)));
    assert!(matches!(AuthError::InvalidToken.into_app_error(), AppError::Unauthorized));
}

#[test]
fn bearer_tokens_are_read_from_the_header() {
    assert_eq!(bearer_token("Bearer abc"), Some("abc".to_owned()));
    assert_eq!(bearer_token("bEaReR  abc  "), Some("abc".to_owned()));
    assert_eq!(bearer_token("Basic abc"), None);
    assert_eq!(bearer_token("Bearer    "), None);
    assert_eq!(bearer_token("Bearer"), None);
}

#[test]
fn roles_guard_restricted_endpoints() {
    let caller = AuthenticatedUser {
        user: PublicUser::new(&account(UserStatus::Active), vec![RoleName::user()]),
        session_id: 2,
    };
    assert!(caller.has_role(&RoleName::user()));
    assert!(matches!(caller.require_role(&RoleName::admin()), Err(AppError::Forbidden)));
}

#[test]
fn a_refresh_token_comes_from_the_body_or_the_cookie() {
    let (token, from_cookie) = refresh_token_source(Some("b".to_owned()), Some("c".to_owned())).unwrap();
    assert_eq!((token.as_str(), from_cookie), ("b", false));
    let (token, from_cookie) = refresh_token_source(None, Some("c".to_owned())).unwrap();
    assert_eq!((token.as_str(), from_cookie), ("c", true));
    assert!(matches!(refresh_token_source(None, None), Err(AppError::Unauthorized)));
    assert!(!RefreshRequest { refresh_token: Some(String::new()) }.is_valid());
    assert!(RefreshRequest { refresh_token: None }.is_valid());
    let change = ChangePasswordRequest { current_password: "x".to_owned(), new_password: "y".repeat(12) };
    assert!(change.is_valid());
}

#[test]
fn an_access_token_comes_from_the_header_or_the_cookie() {
    assert_eq!(access_token_source(Some("h".to_owned()), Some("c".to_owned())).unwrap(), "h");
    assert_eq!(access_token_source(None, Some("c".to_owned())).unwrap(), "c");
    assert!(matches!(access_token_source(None, None), Err(AppError::Unauthorized)));
    assert!(check_session_active(true).is_ok());
    assert!(matches!(check_session_active(false), Err(AuthError::InvalidToken)));
}

#[test]
fn a_token_once_rotated_is_reported_reused() {
    let fresh = lookup(false, false, 100, 100);
    let step = decide_refresh(Some(&fresh), 10, 50);
    assert!(matches!(step, RefreshStep::Rotate { .. }));

    let marked = TokenLookup { used_at: Some(10), ..fresh };
    assert_eq!(
        decide_refresh(Some(&marked), 20, 80),
        RefreshStep::ReportReuse { user_id: 3, session_id: 2 }
    );
}
