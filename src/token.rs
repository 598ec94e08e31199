//! Token service: signs claims into HS256 JSON Web Tokens and verifies
//! them, with distinct secrets for access and refresh tokens.
use vstd::prelude::*;
use vstd::string::*;
use crate::claims::{
    Claims, UserData, claims_text, claims_from_text, lemma_claims_text_injective,
    lemma_claims_text_shape, render_claims, parse_claims,
};

verus! {

/// Lifetime of an access token, in seconds (15 minutes).
pub const ACCESS_TTL_SECS: u64 = 900;

/// Lifetime of a refresh token, in seconds (24 hours).
pub const REFRESH_TTL_SECS: u64 = 86400;

/// Why a token was not accepted.
#[derive(Clone, Copy, Debug, PartialEq, Eq, Structural)]
pub enum TokenError {
    /// Its `exp` lies in the past (beyond the verifier's leeway).
    Expired,
    /// Its signature does not match the secret.
    BadSignature,
    /// It is not a well-formed token, or its claims are not ours.
    Malformed,
}

/// The token that `jsonwebtoken::encode` makes, with the default header,
/// of the JSON text `payload` under the HMAC secret `secret`.
pub uninterp spec fn jwt_of(payload: Seq<char>, secret: Seq<char>) -> Seq<char>;

/// A JSON object text with nothing around its braces.
pub open spec fn is_braced(p: Seq<char>) -> bool {
    p.len() >= 2 && p[0] == '{' && p.last() == '}'
}

/// Relies on `serde_json::value::RawValue::from_string`, which keeps a
/// valid JSON text with no surrounding whitespace verbatim, and
/// `jsonwebtoken::encode` with `Header::default()` (HS256) and
/// `EncodingKey::from_secret` on the secret's bytes. A claims text is valid
/// JSON, and HMAC signing does not fail, so such a payload is always signed.
/// The token's middle segment is the base64url form of the payload's bytes,
/// so the token determines the payload.
#[verifier::external_body]
fn sign_payload(payload: String, secret: &str) -> (r: Option<String>)
    requires
        is_braced(payload@),
    ensures
        (exists|c: Claims| #[trigger] claims_text(c) == payload@) ==> r is Some,
        r is Some ==> r->0@ == jwt_of(payload@, secret@),
        r is Some ==> forall|p: Seq<char>|
            is_braced(p) && #[trigger] jwt_of(p, secret@) == r->0@ ==> p == payload@,
{
    let raw = serde_json::value::RawValue::from_string(payload).ok()?;
    let key = jsonwebtoken::EncodingKey::from_secret(secret.as_bytes());
    jsonwebtoken::encode(&jsonwebtoken::Header::default(), &raw, &key).ok()
}

/// Relies on `jsonwebtoken::decode` with `Validation::default()` (HS256,
/// `exp` required and compared with the system clock, 60 s of leeway) and
/// `DecodingKey::from_secret` on the secret's bytes; the claims come back as
/// their raw JSON text. Whether a token passes depends on the clock, so
/// nothing is stated of the outcome.
#[verifier::external_body]
fn decode_payload(token: &str, secret: &str) -> (r: Result<String, TokenError>) {
    let key = jsonwebtoken::DecodingKey::from_secret(secret.as_bytes());
    let validation = jsonwebtoken::Validation::default();
    match jsonwebtoken::decode::<Box<serde_json::value::RawValue>>(token, &key, &validation) {
        Ok(data) => Ok(data.claims.get().to_string()),
        Err(e) => Err(
            match e.kind() {
                jsonwebtoken::errors::ErrorKind::ExpiredSignature => TokenError::Expired,
                jsonwebtoken::errors::ErrorKind::InvalidSignature => TokenError::BadSignature,
                _ => TokenError::Malformed,
            },
        ),
    }
}

/// Relies on `chrono::Utc::now` and `DateTime::timestamp`: the current time
/// in Unix seconds. `Utc::now` panics rather than return a time before the
/// epoch.
#[verifier::external_body]
pub(crate) fn unix_now() -> (r: i64)
    ensures
        r >= 0,
{
    chrono::Utc::now().timestamp()
}

/// The expiry of a token issued at `now` (Unix seconds) that lives `ttl`
/// seconds; none where `now` is before the epoch or the sum leaves `u64`.
pub open spec fn expiry_of(now: i64, ttl: u64) -> Option<u64> {
    if 0 <= now && now + ttl <= u64::MAX {
        Some((now + ttl) as u64)
    } else {
        None
    }
}

/// The token carrying `c`, signed with `secret`.
pub open spec fn token_for(c: Claims, secret: Seq<char>) -> Seq<char> {
    jwt_of(claims_text(c), secret)
}

/// The token of issue `jti` that states `user` until `ttl` seconds after
/// `now`.
pub open spec fn issued_token(
    secret: Seq<char>,
    user: UserData,
    jti: u128,
    now: i64,
    ttl: u64,
) -> Seq<char> {
    token_for(Claims { user, jti, exp: expiry_of(now, ttl)->0 }, secret)
}

pub fn expiry(now: i64, ttl: u64) -> (r: Option<u64>)
    ensures
        r == expiry_of(now, ttl),
{
    if now < 0 {
        None
    } else {
        (now as u64).checked_add(ttl)
    }
}

/// Every claims text is a braced JSON object.
pub proof fn lemma_claims_text_braced(c: Claims)
    ensures
        is_braced(claims_text(c)),
{
    lemma_claims_text_shape(c);
}

/// Issues a token of issue `jti` for `user`, valid for `ttl` seconds from
/// `now`, signed with `secret`; `None` exactly where the expiry cannot be
/// written. The token carries no other claims.
pub fn issue_token(secret: &str, user: UserData, jti: u128, now: i64, ttl: u64) -> (r: Option<String>)
    ensures
        r is Some <==> expiry_of(now, ttl) is Some,
        r is Some ==> r->0@ == issued_token(secret@, user, jti, now, ttl),
        r is Some ==> forall|d: Claims|
            #[trigger] token_for(d, secret@) == r->0@ ==> d == (Claims { user, jti, exp: expiry_of(now, ttl)->0 }),
{
    let exp = match expiry(now, ttl) {
        Some(e) => e,
        None => {
            return None;
        },
    };
    let claims = Claims { user, jti, exp };
    let payload = render_claims(&claims);
    proof {
        lemma_claims_text_braced(claims);
    }
    let r = sign_payload(payload, secret);
    proof {
        if r is Some {
            assert forall|d: Claims| #[trigger] token_for(d, secret@) == r->0@ implies d == claims by {
                lemma_claims_text_braced(d);
                lemma_claims_text_injective(d, claims);
            }
        }
    }
    r
}

/// The claims of a decoded token, given what the decoder returned: its
/// error, or the claims text, which must read as claims of this library.
pub fn claims_from_decoded(decoded: Result<String, TokenError>) -> (r: Result<Claims, TokenError>)
    ensures
        decoded is Err ==> r == Err::<Claims, TokenError>(decoded->Err_0),
        decoded is Ok ==> r == match claims_from_text(decoded->Ok_0@) {
            Some(c) => Ok::<Claims, TokenError>(c),
            None => Err(TokenError::Malformed),
        },
{
    match decoded {
        Err(e) => Err(e),
        Ok(text) => match parse_claims(text.as_str()) {
            Some(c) => Ok(c),
            None => Err(TokenError::Malformed),
        },
    }
}

/// Verifies a token against `secret` and reads its claims. What passes
/// depends on the clock; whatever passes carries claims of this library.
pub fn verify_token(token: &str, secret: &str) -> (r: Result<Claims, TokenError>)
    ensures
        r is Ok ==> exists|text: Seq<char>| claims_from_text(text) == Some(r->Ok_0),
{
    claims_from_decoded(decode_payload(token, secret))
}

/// Signing configuration: the two secrets, which differ, and the two
/// token lifetimes.
pub struct AuthConfig {
    access_secret: String,
    refresh_secret: String,
    access_ttl: u64,
    refresh_ttl: u64,
}

impl AuthConfig {
    pub closed spec fn access_key(&self) -> Seq<char> {
        self.access_secret@
    }

    pub closed spec fn refresh_key(&self) -> Seq<char> {
        self.refresh_secret@
    }

    pub closed spec fn access_lifetime(&self) -> u64 {
        self.access_ttl
    }

    pub closed spec fn refresh_lifetime(&self) -> u64 {
        self.refresh_ttl
    }

    /// A configuration with the standard lifetimes (15 minutes, 24 hours).
    /// `None` when the two secrets are the same: access and refresh tokens
    /// must never verify under each other's key.
    pub fn new(access_secret: String, refresh_secret: String) -> (r: Option<AuthConfig>)
        ensures
            r is Some <==> access_secret@ != refresh_secret@,
            r is Some ==> r->0.access_key() == access_secret@ && r->0.refresh_key()
                == refresh_secret@ && r->0.access_lifetime() == ACCESS_TTL_SECS
                && r->0.refresh_lifetime() == REFRESH_TTL_SECS,
    {
        AuthConfig::with_lifetimes(access_secret, refresh_secret, ACCESS_TTL_SECS, REFRESH_TTL_SECS)
    }

    /// A configuration with chosen lifetimes, in seconds.
    pub fn with_lifetimes(access_secret: String, refresh_secret: String, access_ttl: u64, refresh_ttl: u64) -> (r: Option<AuthConfig>)
        ensures
            r is Some <==> access_secret@ != refresh_secret@,
            r is Some ==> r->0.access_key() == access_secret@ && r->0.refresh_key()
                == refresh_secret@ && r->0.access_lifetime() == access_ttl
                && r->0.refresh_lifetime() == refresh_ttl,
    {
        if access_secret == refresh_secret {
            None
        } else {
            Some(AuthConfig { access_secret, refresh_secret, access_ttl, refresh_ttl })
        }
    }

    /// An access token of issue `jti` for `user`, issued at `now`.
    pub fn issue_access(&self, user: UserData, jti: u128, now: i64) -> (r: Option<String>)
        ensures
            r is Some <==> expiry_of(now, self.access_lifetime()) is Some,
            r is Some ==> r->0@ == issued_token(
                self.access_key(),
                user,
                jti,
                now,
                self.access_lifetime(),
            ),
            r is Some ==> forall|d: Claims|
                #[trigger] token_for(d, self.access_key()) == r->0@ ==> d == (Claims { user, jti, exp: expiry_of(now, self.access_lifetime())->0 }),
    {
        issue_token(self.access_secret.as_str(), user, jti, now, self.access_ttl)
    }

    /// A refresh token of issue `jti` for `user`, issued at `now`.
    pub fn issue_refresh(&self, user: UserData, jti: u128, now: i64) -> (r: Option<String>)
        ensures
            r is Some <==> expiry_of(now, self.refresh_lifetime()) is Some,
            r is Some ==> r->0@ == issued_token(
                self.refresh_key(),
                user,
                jti,
                now,
                self.refresh_lifetime(),
            ),
            r is Some ==> forall|d: Claims|
                #[trigger] token_for(d, self.refresh_key()) == r->0@ ==> d == (Claims { user, jti, exp: expiry_of(now, self.refresh_lifetime())->0 }),
    {
        issue_token(self.refresh_secret.as_str(), user, jti, now, self.refresh_ttl)
    }

    /// Verifies a token as an access token (under the access secret only).
    pub fn verify_access(&self, token: &str) -> (r: Result<Claims, TokenError>)
        ensures
            r is Ok ==> exists|text: Seq<char>| claims_from_text(text) == Some(r->Ok_0),
    {
        verify_token(token, self.access_secret.as_str())
    }

    /// Verifies a token as a refresh token (under the refresh secret only).
    pub fn verify_refresh(&self, token: &str) -> (r: Result<Claims, TokenError>)
        ensures
            r is Ok ==> exists|text: Seq<char>| claims_from_text(text) == Some(r->Ok_0),
    {
        verify_token(token, self.refresh_secret.as_str())
    }
}

} // verus!
