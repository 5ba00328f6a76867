//! Access tokens: what an issued token says, how it is signed, and the checks a presented one
//! must pass.
//!
//! Signing and signature checking are done by `jsonwebtoken`, pinned to HS256 with a leeway of
//! [`LEEWAY_SECONDS`]; the claims are built, read, and checked here.

use vstd::prelude::*;
use vstd::utf8::encode_utf8;
use std::collections::BTreeMap;
use jsonwebtoken::{Algorithm, DecodingKey, EncodingKey, Header, Validation};
use serde_json::Value;
use crate::auth::cookies::{saturating_seconds, seconds_saturated};
use crate::auth::error::AuthError;
use crate::auth::uuid_text::{parse_uuid, uuid_hyphenated, uuid_of_text, uuid_text};
use crate::text::owned;

verus! {

/// Distinguishes access tokens from any other JWT this service might issue, so one kind can
/// never be replayed as another.
pub const TOKEN_TYPE: &'static str = "access";

/// Tolerated clock skew between the issuer and the verifier, in seconds.
pub const LEEWAY_SECONDS: u64 = 5;

/// The claims an access token carries.
#[derive(Debug, Clone)]
pub struct AccessClaims {
    /// Account identifier.
    pub sub: String,
    /// Session identifier, checked against the session store so logout is immediate.
    pub sid: String,
    /// Unique token identifier.
    pub jti: String,
    pub iss: String,
    pub aud: String,
    /// Token kind; see [`TOKEN_TYPE`].
    pub typ: String,
    pub iat: i64,
    pub nbf: i64,
    pub exp: i64,
}

/// What a set of claims says, as plain values.
pub struct ClaimsView {
    pub sub: Seq<char>,
    pub sid: Seq<char>,
    pub jti: Seq<char>,
    pub iss: Seq<char>,
    pub aud: Seq<char>,
    pub typ: Seq<char>,
    pub iat: i64,
    pub nbf: i64,
    pub exp: i64,
}

impl View for AccessClaims {
    type V = ClaimsView;

    open spec fn view(&self) -> ClaimsView {
        ClaimsView {
            sub: self.sub@,
            sid: self.sid@,
            jti: self.jti@,
            iss: self.iss@,
            aud: self.aud@,
            typ: self.typ@,
            iat: self.iat,
            nbf: self.nbf,
            exp: self.exp,
        }
    }
}

/// Where issued tokens come from and go to, and how long they live.
#[derive(Debug, Clone)]
pub struct TokenSettings {
    pub issuer: String,
    pub audience: String,
    /// Lifetime of an access token, in seconds.
    pub ttl_seconds: i64,
}

impl TokenSettings {
    /// Settings for tokens that live `ttl_seconds`, saturated to what a signed count holds.
    pub fn new(issuer: String, audience: String, ttl_seconds: u64) -> (s: Self)
        ensures
            s.issuer@ == issuer@,
            s.audience@ == audience@,
            s.ttl_seconds == seconds_saturated(ttl_seconds),
    {
        TokenSettings { issuer, audience, ttl_seconds: saturating_seconds(ttl_seconds) }
    }

    /// The claims of a token issued at `now` (Unix seconds) for a session, with `jti` as its
    /// unique identifier. It is valid from `now` and expires `ttl_seconds` later, saturating at
    /// the end of time.
    pub fn claims(&self, user_id: u128, session_id: u128, jti: String, now: i64) -> (c:
        AccessClaims)
        ensures
            c.sub@ == uuid_hyphenated(user_id),
            c.sid@ == uuid_hyphenated(session_id),
            c.jti@ == jti@,
            c.iss@ == self.issuer@,
            c.aud@ == self.audience@,
            c.typ@ == TOKEN_TYPE@,
            c.iat == now,
            c.nbf == now,
            c.exp == if now + self.ttl_seconds > i64::MAX {
                i64::MAX as int
            } else if now + self.ttl_seconds < i64::MIN {
                i64::MIN as int
            } else {
                now + self.ttl_seconds
            },
            uuid_of_text(c.sub@) == Some(user_id),
            uuid_of_text(c.sid@) == Some(session_id),
            c@ == issued_view(*self, user_id, session_id, jti@, now),
    {
        let exp = if self.ttl_seconds > 0 && now > i64::MAX - self.ttl_seconds {
            i64::MAX
        } else if self.ttl_seconds < 0 && now < i64::MIN - self.ttl_seconds {
            i64::MIN
        } else {
            now + self.ttl_seconds
        };
        proof {
            reveal_strlit("access");
        }
        AccessClaims {
            sub: uuid_text(user_id),
            sid: uuid_text(session_id),
            jti,
            iss: self.issuer.clone(),
            aud: self.audience.clone(),
            typ: owned(TOKEN_TYPE),
            iat: now,
            nbf: now,
            exp,
        }
    }
}

/// The expiry of a token issued at `now` that lives `ttl` seconds, saturating at the ends of
/// time.
pub open spec fn expiry(now: i64, ttl: i64) -> i64 {
    if now + ttl > i64::MAX {
        i64::MAX
    } else if now + ttl < i64::MIN {
        i64::MIN
    } else {
        (now + ttl) as i64
    }
}

/// The claims of a token issued at `now` for a session, with `jti` as its identifier.
pub open spec fn issued_view(
    settings: TokenSettings,
    user_id: u128,
    session_id: u128,
    jti: Seq<char>,
    now: i64,
) -> ClaimsView {
    ClaimsView {
        sub: uuid_hyphenated(user_id),
        sid: uuid_hyphenated(session_id),
        jti,
        iss: settings.issuer@,
        aud: settings.audience@,
        typ: TOKEN_TYPE@,
        iat: now,
        nbf: now,
        exp: expiry(now, settings.ttl_seconds),
    }
}

/// The account and session that claims identify, read from their plain values.
pub open spec fn claimed_view_identity(c: ClaimsView) -> Option<(u128, u128)> {
    if c.typ != TOKEN_TYPE@ {
        None
    } else {
        match (uuid_of_text(c.sub), uuid_of_text(c.sid)) {
            (Some(user_id), Some(session_id)) => Some((user_id, session_id)),
            _ => None,
        }
    }
}

/// The account and session a set of verified claims identifies, when they are an access token
/// and both identifiers parse.
pub open spec fn claimed_identity(c: AccessClaims) -> Option<(u128, u128)> {
    claimed_view_identity(c@)
}

/// Reads the account and session out of claims whose signature, issuer, audience, and lifetime
/// have been verified. A token of another kind, or one whose identifiers do not parse, is not
/// trusted.
pub fn identity_of(claims: &AccessClaims) -> (r: Result<(u128, u128), AuthError>)
    ensures
        match claimed_identity(*claims) {
            Some(ids) => r matches Ok(got) && got == ids,
            None => r matches Err(AuthError::InvalidToken),
        },
{
    let expected = owned(TOKEN_TYPE);
    if !claims.typ.eq(&expected) {
        return Err(AuthError::InvalidToken);
    }
    let user_id = match parse_uuid(claims.sub.as_str()) {
        Some(id) => id,
        None => {
            return Err(AuthError::InvalidToken);
        },
    };
    let session_id = match parse_uuid(claims.sid.as_str()) {
        Some(id) => id,
        None => {
            return Err(AuthError::InvalidToken);
        },
    };
    Ok((user_id, session_id))
}

/// A token issued for a session identifies that session's account and the session itself
/// when it comes back.
pub proof fn law_issued_claims_identify_their_session(c: AccessClaims, user_id: u128, session_id: u128)
    requires
        c.typ@ == TOKEN_TYPE@,
        uuid_of_text(c.sub@) == Some(user_id),
        uuid_of_text(c.sid@) == Some(session_id),
    ensures
        claimed_identity(c) == Some((user_id, session_id)),
{
}

// ------------------------------------------------------------------------------------------
// Signing and verifying
// ------------------------------------------------------------------------------------------

#[verifier::external_type_specification]
#[verifier::external_body]
#[verifier::reject_recursive_types(K)]
#[verifier::reject_recursive_types(V)]
pub struct ExJsonObject<K, V>(serde_json::Map<K, V>);

#[verifier::external_type_specification]
#[verifier::external_body]
pub struct ExJsonClaim(Value);

/// The token `jsonwebtoken::encode` makes of these claims under the default header (HS256) with
/// a key made from `secret`: HMAC-SHA256 over the encoded header and claims, which depends on
/// nothing else.
pub uninterp spec fn hs256_token(claims: ClaimsView, secret: Seq<u8>) -> Seq<char>;

/// `jsonwebtoken::encode` of the claims, as a JSON object with one member per claim, under
/// `Header::default()` (HS256) and `EncodingKey::from_secret(secret)`. A token it returns is the
/// named one; a failure carries the error's text.
#[verifier::external_body]
fn jwt_encode_hs256(claims: &AccessClaims, secret: &[u8]) -> (r: Result<String, String>)
    ensures
        r matches Ok(token) ==> token@ == hs256_token(claims@, secret@),
{
    let c = claims;
    let object: BTreeMap<&str, Value> = BTreeMap::from([
        ("sub", c.sub.as_str().into()), ("sid", c.sid.as_str().into()),
        ("jti", c.jti.as_str().into()), ("iss", c.iss.as_str().into()),
        ("aud", c.aud.as_str().into()), ("typ", c.typ.as_str().into()),
        ("iat", c.iat.into()), ("nbf", c.nbf.into()), ("exp", c.exp.into()),
    ]);
    let key = EncodingKey::from_secret(secret);
    jsonwebtoken::encode(&Header::default(), &object, &key).map_err(|e| e.to_string())
}

/// `jsonwebtoken::decode` of a token's claims object, with `DecodingKey::from_secret(secret)`
/// and a validation pinned to HS256 that checks the signature, the issuer, the audience, expiry,
/// and not-before, with `leeway` seconds of clock skew. Whether a token passes depends on the
/// clock, so nothing is stated of the outcome; verified code reads the claims out of it and
/// checks the issuer and audience again.
#[verifier::external_body]
fn jwt_decode_hs256(token: &str, secret: &[u8], issuer: &str, audience: &str, leeway: u64) -> (r:
    Result<serde_json::Map<String, Value>, ()>)
{
    let mut validation = Validation::new(Algorithm::HS256);
    validation.set_issuer(&[issuer]);
    validation.set_audience(&[audience]);
    validation.leeway = leeway;
    validation.validate_nbf = true;
    validation.set_required_spec_claims(&["exp", "nbf", "iss", "aud", "sub"]);
    let key = DecodingKey::from_secret(secret);
    jsonwebtoken::decode::<serde_json::Map<String, Value>>(token, &key, &validation).map(|data| data.claims).map_err(
        |_| (),
    )
}

/// `Map::get` then `Value::as_str`: the claim `name` when it is a string. What the object holds
/// is not visible here, so nothing is stated of the result.
#[verifier::external_body]
fn claim_text(object: &serde_json::Map<String, Value>, name: &str) -> (r: Option<String>) {
    object.get(name).and_then(Value::as_str).map(str::to_owned)
}

/// `Map::get` then `Value::as_i64`: the claim `name` when it is an integer that fits.
#[verifier::external_body]
fn claim_number(object: &serde_json::Map<String, Value>, name: &str) -> (r: Option<i64>) {
    object.get(name).and_then(Value::as_i64)
}

/// The claims of a decoded token, when every one is present with its type.
fn read_claims(object: &serde_json::Map<String, Value>) -> (r: Option<AccessClaims>) {
    let sub = claim_text(object, "sub")?;
    let sid = claim_text(object, "sid")?;
    let jti = claim_text(object, "jti")?;
    let iss = claim_text(object, "iss")?;
    let aud = claim_text(object, "aud")?;
    let typ = claim_text(object, "typ")?;
    let iat = claim_number(object, "iat")?;
    let nbf = claim_number(object, "nbf")?;
    let exp = claim_number(object, "exp")?;
    Some(AccessClaims { sub, sid, jti, iss, aud, typ, iat, nbf, exp })
}

/// Whether verified claims are an access token issued by and for this service.
pub open spec fn accepts_claims(settings: TokenSettings, c: ClaimsView) -> bool {
    &&& c.iss == settings.issuer@
    &&& c.aud == settings.audience@
    &&& c.typ == TOKEN_TYPE@
}

/// The checks a decoded token's claims must pass here: issued by this service, for this
/// service, and an access token rather than any other kind.
pub fn check_claims(settings: &TokenSettings, claims: AccessClaims) -> (r: Result<
    AccessClaims,
    AuthError,
>)
    ensures
        accepts_claims(*settings, claims@) ==> r == Ok::<AccessClaims, AuthError>(claims),
        !accepts_claims(*settings, claims@) ==> r matches Err(AuthError::InvalidToken),
{
    let expected = owned(TOKEN_TYPE);
    if !claims.iss.eq(&settings.issuer) || !claims.aud.eq(&settings.audience) || !claims.typ.eq(
        &expected,
    ) {
        return Err(AuthError::InvalidToken);
    }
    Ok(claims)
}

/// The current time, in Unix seconds. Nothing is promised of it.
#[verifier::external_body]
fn unix_now() -> (r: i64) {
    chrono::Utc::now().timestamp()
}

/// A fresh random token identifier: `uuid::Uuid::new_v4()` in hyphenated form. Nothing is
/// promised of it.
#[verifier::external_body]
fn fresh_token_id() -> (r: String) {
    uuid::Uuid::new_v4().to_string()
}

/// Signs and checks access tokens with one secret.
pub struct AccessTokens {
    secret: Vec<u8>,
    settings: TokenSettings,
}

impl AccessTokens {
    /// The bytes tokens are signed with.
    pub closed spec fn secret(&self) -> Seq<u8> {
        self.secret@
    }

    /// Where the tokens come from and go to, and how long they live.
    pub closed spec fn config(&self) -> TokenSettings {
        self.settings
    }

    /// Tokens signed with the UTF-8 bytes of `secret`, for `issuer` and `audience`, living
    /// `ttl_seconds`.
    pub fn new(secret: &str, issuer: String, audience: String, ttl_seconds: u64) -> (t: Self)
        ensures
            t.secret() == encode_utf8(secret@),
            t.config().issuer@ == issuer@,
            t.config().audience@ == audience@,
            t.config().ttl_seconds == seconds_saturated(ttl_seconds),
    {
        let bytes = vstd::slice::slice_to_vec(secret.as_bytes());
        AccessTokens { secret: bytes, settings: TokenSettings::new(issuer, audience, ttl_seconds) }
    }

    /// Signs a set of claims. A failure of the signer is an internal error carrying its text.
    pub fn sign(&self, claims: &AccessClaims) -> (r: Result<String, AuthError>)
        ensures
            r matches Ok(token) ==> token@ == hs256_token(claims@, self.secret()),
            r is Err ==> r matches Err(AuthError::Internal(_)),
    {
        match jwt_encode_hs256(claims, self.secret.as_slice()) {
            Ok(token) => Ok(token),
            Err(message) => Err(AuthError::Internal(message)),
        }
    }

    /// Issues a token at `now` for a session, with `jti` as its identifier; returns it with its
    /// lifetime in seconds.
    pub fn issue_at(&self, user_id: u128, session_id: u128, jti: String, now: i64) -> (r: Result<
        (String, i64),
        AuthError,
    >)
        ensures
            r matches Ok((token, ttl)) ==> token@ == hs256_token(
                issued_view(self.config(), user_id, session_id, jti@, now),
                self.secret(),
            ) && ttl == self.config().ttl_seconds,
            r is Err ==> r matches Err(AuthError::Internal(_)),
    {
        let claims = self.settings.claims(user_id, session_id, jti, now);
        let token = self.sign(&claims)?;
        Ok((token, self.settings.ttl_seconds))
    }

    /// Issues a token now for a session, with a fresh random identifier; returns it with its
    /// lifetime in seconds.
    pub fn issue(&self, user_id: u128, session_id: u128) -> (r: Result<(String, i64), AuthError>)
        ensures
            r matches Ok((token, ttl)) ==> ttl == self.config().ttl_seconds && exists|
                jti: Seq<char>,
                now: i64,
            | token@ == hs256_token(
                issued_view(self.config(), user_id, session_id, jti, now),
                self.secret(),
            ),
            r is Err ==> r matches Err(AuthError::Internal(_)),
    {
        let now = unix_now();
        let jti = fresh_token_id();
        let ghost id = jti@;
        let r = self.issue_at(user_id, session_id, jti, now);
        proof {
            if r is Ok {
                let token = r->Ok_0.0;
                assert(token@ == hs256_token(
                    issued_view(self.config(), user_id, session_id, id, now),
                    self.secret(),
                ));
            }
        }
        r
    }

    /// Verifies signature, algorithm, issuer, audience, and lifetime, then the token kind, and
    /// returns the claims. Any failure is an untrusted token.
    pub fn verify(&self, token: &str) -> (r: Result<AccessClaims, AuthError>)
        ensures
            r matches Ok(c) ==> accepts_claims(self.config(), c@),
            r is Err ==> r matches Err(AuthError::InvalidToken),
    {
        let object = match jwt_decode_hs256(
            token,
            self.secret.as_slice(),
            self.settings.issuer.as_str(),
            self.settings.audience.as_str(),
            LEEWAY_SECONDS,
        ) {
            Ok(object) => object,
            Err(()) => {
                return Err(AuthError::InvalidToken);
            },
        };
        match read_claims(&object) {
            Some(claims) => check_claims(&self.settings, claims),
            None => Err(AuthError::InvalidToken),
        }
    }
}

/// Checks a presented access token and reads the account and session out of it: any token
/// that is accepted is an access token of this service whose identifiers parse, and these are
/// what it identifies.
pub fn verify_access_token(tokens: &AccessTokens, token: &str) -> (r: Result<
    (u128, u128),
    AuthError,
>)
    ensures
        r matches Ok(ids) ==> exists|c: ClaimsView|
            accepts_claims(tokens.config(), c) && #[trigger] claimed_view_identity(c) == Some(ids),
        r is Err ==> r matches Err(AuthError::InvalidToken),
{
    let claims = tokens.verify(token)?;
    identity_of(&claims)
}

} // verus!
