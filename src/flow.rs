//! Register, login, refresh and logout, as steps between storage calls.
//!
//! Each flow alternates decisions and storage work. The decisions are the
//! functions here: each takes what the previous storage call returned and
//! yields either the final failure or what to store or answer next. The
//! caller performs the storage calls, each atomically.
use vstd::prelude::*;
use vstd::string::*;
use crate::claims::{Claims, UserData, claims_from_text, hyphenated, random_uuid, uuid_text};
use crate::model::UserRegisterRequest;
use crate::password::{
    bcrypt_prefix, bcrypt_verdict, hash_password, password_verdict, test_password, verify_password, HASH_COST,
};
use crate::session::text_opt;
use crate::text::{contains_text, occurs_in};
use crate::token::{expiry_of, issued_token, token_for, unix_now, AuthConfig, TokenError};

verus! {

/// Why a flow stopped. Each maps to one HTTP status and one message;
/// neither says which of a user's credentials was wrong.
#[derive(Clone, Copy, Debug, PartialEq, Eq)]
pub enum AuthFailure {
    /// The password breaks the policy; the message names the rule.
    WeakPassword(&'static str),
    EmailTaken,
    UsernameTaken,
    /// Unknown email or wrong password, indistinguishably.
    InvalidCredentials,
    MissingRefreshCookie,
    MissingDeviceCookie,
    /// The refresh token presented to logout did not verify.
    InvalidRefreshToken,
    /// The refresh token presented to refresh did not verify.
    RefreshTokenRejected,
    /// No active session holds the presented refresh token.
    UnknownSession,
    /// A storage, hashing or signing failure; the message is generic.
    Internal(&'static str),
}

impl AuthFailure {
    pub open spec fn spec_status(&self) -> u16 {
        match self {
            AuthFailure::WeakPassword(_) => 400,
            AuthFailure::EmailTaken => 409,
            AuthFailure::UsernameTaken => 409,
            AuthFailure::InvalidCredentials => 401,
            AuthFailure::MissingRefreshCookie => 401,
            AuthFailure::MissingDeviceCookie => 401,
            AuthFailure::InvalidRefreshToken => 403,
            AuthFailure::RefreshTokenRejected => 403,
            AuthFailure::UnknownSession => 401,
            AuthFailure::Internal(_) => 500,
        }
    }

    pub open spec fn spec_message(&self) -> &'static str {
        match self {
            AuthFailure::WeakPassword(m) => *m,
            AuthFailure::EmailTaken => "Email already registered",
            AuthFailure::UsernameTaken => "Username taken",
            AuthFailure::InvalidCredentials => "Invalid credentials",
            AuthFailure::MissingRefreshCookie => "No refresh token cookie",
            AuthFailure::MissingDeviceCookie => "No device_id cookie",
            AuthFailure::InvalidRefreshToken => "Invalid refresh token",
            AuthFailure::RefreshTokenRejected => "Invalid refresh token JWT",
            AuthFailure::UnknownSession => "Invalid or revoked session",
            AuthFailure::Internal(m) => *m,
        }
    }

    /// The HTTP status this failure is answered with.
    pub fn status(&self) -> (r: u16)
        ensures
            r == self.spec_status(),
    {
        match self {
            AuthFailure::WeakPassword(_) => 400,
            AuthFailure::EmailTaken => 409,
            AuthFailure::UsernameTaken => 409,
            AuthFailure::InvalidCredentials => 401,
            AuthFailure::MissingRefreshCookie => 401,
            AuthFailure::MissingDeviceCookie => 401,
            AuthFailure::InvalidRefreshToken => 403,
            AuthFailure::RefreshTokenRejected => 403,
            AuthFailure::UnknownSession => 401,
            AuthFailure::Internal(_) => 500,
        }
    }

    /// The message shown to the caller.
    pub fn message(&self) -> (r: &'static str)
        ensures
            r == self.spec_message(),
    {
        match self {
            AuthFailure::WeakPassword(m) => *m,
            AuthFailure::EmailTaken => "Email already registered",
            AuthFailure::UsernameTaken => "Username taken",
            AuthFailure::InvalidCredentials => "Invalid credentials",
            AuthFailure::MissingRefreshCookie => "No refresh token cookie",
            AuthFailure::MissingDeviceCookie => "No device_id cookie",
            AuthFailure::InvalidRefreshToken => "Invalid refresh token",
            AuthFailure::RefreshTokenRejected => "Invalid refresh token JWT",
            AuthFailure::UnknownSession => "Invalid or revoked session",
            AuthFailure::Internal(m) => *m,
        }
    }
}

/// What a storage call reported when it failed.
#[derive(Debug)]
pub enum StoreError {
    /// The database refused the statement; its message (which names a
    /// violated constraint, if any).
    Database(String),
    /// Anything else: connection lost, pool exhausted, ...
    Unavailable,
}

// ---------------------------------------------------------------------------
// Cookies

/// The `SameSite` attribute of a cookie.
#[derive(Clone, Copy, Debug, PartialEq, Eq, Structural)]
pub enum SameSitePolicy {
    Strict,
    Lax,
    /// Sent on cross-site requests too (`SameSite=None`).
    NoRestriction,
}

/// A cookie to set on the response.
#[derive(Debug)]
pub struct CookieSpec {
    pub name: &'static str,
    pub value: String,
    pub max_age_secs: i64,
    pub same_site: SameSitePolicy,
    pub http_only: bool,
    pub secure: bool,
    pub path: &'static str,
    /// The cookie is to be removed from the client.
    pub removal: bool,
}

/// Name of the cookie holding the refresh token.
pub const REFRESH_COOKIE: &'static str = "jwt";

/// Name of the cookie holding the device identifier.
pub const DEVICE_COOKIE: &'static str = "device_id";

/// Lifetime of the device cookie: 365 days.
pub const DEVICE_COOKIE_SECS: i64 = 31536000;

/// The refresh cookie: http-only, secure, sent cross-site, 24 hours.
pub open spec fn is_refresh_cookie(c: CookieSpec, value: Seq<char>, removal: bool) -> bool {
    &&& c.name == REFRESH_COOKIE
    &&& c.value@ == value
    &&& c.max_age_secs == 86400
    &&& c.same_site == SameSitePolicy::NoRestriction
    &&& c.http_only && c.secure
    &&& c.path == "/"
    &&& c.removal == removal
}

/// The device cookie: http-only, secure, same-site lax, 365 days.
pub open spec fn is_device_cookie(c: CookieSpec, value: Seq<char>, removal: bool) -> bool {
    &&& c.name == DEVICE_COOKIE
    &&& c.value@ == value
    &&& c.max_age_secs == DEVICE_COOKIE_SECS
    &&& c.same_site == SameSitePolicy::Lax
    &&& c.http_only && c.secure
    &&& c.path == "/"
    &&& c.removal == removal
}

pub fn refresh_cookie(value: String, removal: bool) -> (r: CookieSpec)
    ensures
        is_refresh_cookie(r, value@, removal),
{
    CookieSpec {
        name: REFRESH_COOKIE,
        value,
        max_age_secs: 86400,
        same_site: SameSitePolicy::NoRestriction,
        http_only: true,
        secure: true,
        path: "/",
        removal,
    }
}

pub fn device_cookie(value: String, removal: bool) -> (r: CookieSpec)
    ensures
        is_device_cookie(r, value@, removal),
{
    CookieSpec {
        name: DEVICE_COOKIE,
        value,
        max_age_secs: DEVICE_COOKIE_SECS,
        same_site: SameSitePolicy::Lax,
        http_only: true,
        secure: true,
        path: "/",
        removal,
    }
}

// ---------------------------------------------------------------------------
// Register

/// A user record ready to be stored.
pub struct NewUser {
    pub email: String,
    pub username: String,
    pub full_name: String,
    pub password_hash: String,
}

/// Checks the password policy and hashes the password. Never creates a
/// session.
pub fn register_prepare(req: UserRegisterRequest) -> (r: Result<NewUser, AuthFailure>)
    ensures
        password_verdict(req.password@) is Some ==> r == Err::<NewUser, AuthFailure>(
            AuthFailure::WeakPassword(password_verdict(req.password@)->0),
        ),
        password_verdict(req.password@) is None ==> match r {
            Ok(u) => u.email@ == req.email@ && u.username@ == req.username@ && u.full_name@
                == req.full_name@ && bcrypt_verdict(req.password@, u.password_hash@) == Some(true)
                && u.password_hash@.subrange(0, 7) == bcrypt_prefix(HASH_COST),
            Err(e) => e == AuthFailure::Internal("Hash failed"),
        },
{
    if let Some(reason) = test_password(req.password.as_str()) {
        return Err(AuthFailure::WeakPassword(reason));
    }
    match hash_password(req.password.as_str(), HASH_COST) {
        Some(password_hash) => Ok(
            NewUser {
                email: req.email,
                username: req.username,
                full_name: req.full_name,
                password_hash,
            },
        ),
        None => Err(AuthFailure::Internal("Hash failed")),
    }
}

/// The outcome of storing a new user, from what the store reported. A
/// unique-constraint violation is told apart by the constraint's name.
pub open spec fn register_outcome(stored: Result<(), StoreError>) -> Result<(), AuthFailure> {
    match stored {
        Ok(_) => Ok(()),
        Err(StoreError::Database(m)) => if occurs_in("users_email_key"@, m@) {
            Err(AuthFailure::EmailTaken)
        } else if occurs_in("users_username_key"@, m@) {
            Err(AuthFailure::UsernameTaken)
        } else {
            Err(AuthFailure::Internal("Server error"))
        },
        Err(StoreError::Unavailable) => Err(AuthFailure::Internal("Server error")),
    }
}

pub fn register_complete(stored: Result<(), StoreError>) -> (r: Result<(), AuthFailure>)
    ensures
        r == register_outcome(stored),
{
    match stored {
        Ok(_) => Ok(()),
        Err(StoreError::Database(m)) => {
            if contains_text(m.as_str(), "users_email_key") {
                Err(AuthFailure::EmailTaken)
            } else if contains_text(m.as_str(), "users_username_key") {
                Err(AuthFailure::UsernameTaken)
            } else {
                Err(AuthFailure::Internal("Server error"))
            }
        },
        Err(StoreError::Unavailable) => Err(AuthFailure::Internal("Server error")),
    }
}

// ---------------------------------------------------------------------------
// Login

/// The stored credentials of the user with the presented email.
pub struct UserCredentials {
    pub id: u128,
    pub password_hash: String,
}

/// Who logs in, given the user looked up by email and the presented
/// password. Unknown email and wrong password give the same failure.
pub open spec fn authenticate_outcome(
    lookup: Result<Option<UserCredentials>, StoreError>,
    password: Seq<char>,
) -> Result<u128, AuthFailure> {
    match lookup {
        Err(_) => Err(AuthFailure::Internal("DB query error")),
        Ok(None) => Err(AuthFailure::InvalidCredentials),
        Ok(Some(u)) => match bcrypt_verdict(password, u.password_hash@) {
            Some(true) => Ok(u.id),
            Some(false) => Err(AuthFailure::InvalidCredentials),
            None => Err(AuthFailure::Internal("Password verification error")),
        },
    }
}

pub fn login_authenticate(lookup: Result<Option<UserCredentials>, StoreError>, password: &str) -> (r:
    Result<u128, AuthFailure>)
    ensures
        r == authenticate_outcome(lookup, password@),
{
    match lookup {
        Err(_) => Err(AuthFailure::Internal("DB query error")),
        Ok(None) => Err(AuthFailure::InvalidCredentials),
        Ok(Some(u)) => match verify_password(password, u.password_hash.as_str()) {
            Some(true) => Ok(u.id),
            Some(false) => Err(AuthFailure::InvalidCredentials),
            None => Err(AuthFailure::Internal("Password verification error")),
        },
    }
}

/// What a successful credential check grants: both tokens, the device they
/// are bound to, and the session row to record.
pub struct LoginGrant {
    pub user_id: u128,
    pub access_token: String,
    pub refresh_token: String,
    pub device_id: String,
    pub user_agent: Option<String>,
    pub ip_address: Option<String>,
}

/// The grant carries the two tokens of issue `jti` for `user_id`, issued at
/// `now`.
pub open spec fn grant_issued_at(
    config: &AuthConfig,
    g: LoginGrant,
    user_id: u128,
    jti: u128,
    now: i64,
) -> bool {
    &&& g.user_id == user_id
    &&& expiry_of(now, config.access_lifetime()) is Some
    &&& expiry_of(now, config.refresh_lifetime()) is Some
    &&& g.access_token@ == issued_token(
        config.access_key(),
        UserData { id: user_id },
        jti,
        now,
        config.access_lifetime(),
    )
    &&& g.refresh_token@ == issued_token(
        config.refresh_key(),
        UserData { id: user_id },
        jti,
        now,
        config.refresh_lifetime(),
    )
}

/// Lifetimes short enough that a token issued at any time from the epoch
/// on has an expiry that fits in a `u64`.
pub open spec fn lifetimes_fit(config: &AuthConfig) -> bool {
    &&& config.access_lifetime() <= u64::MAX - i64::MAX
    &&& config.refresh_lifetime() <= u64::MAX - i64::MAX
}

/// Issues the access and refresh tokens of a login at time `now` on
/// `device_id`; both carry the issue identifier `jti`. Fails exactly where
/// an expiry cannot be written.
pub fn login_issue(
    config: &AuthConfig,
    user_id: u128,
    now: i64,
    jti: u128,
    device_id: String,
    user_agent: Option<String>,
    ip_address: Option<String>,
) -> (r: Result<LoginGrant, AuthFailure>)
    ensures
        match r {
            Ok(g) => grant_issued_at(config, g, user_id, jti, now) && g.device_id@ == device_id@
                && text_opt(g.user_agent) == text_opt(user_agent) && text_opt(g.ip_address)
                == text_opt(ip_address),
            Err(e) => e == AuthFailure::Internal("Access token creation failed") || e
                == AuthFailure::Internal("Refresh token creation failed"),
        },
        expiry_of(now, config.access_lifetime()) is None ==> r == Err::<LoginGrant, AuthFailure>(
            AuthFailure::Internal("Access token creation failed"),
        ),
        expiry_of(now, config.access_lifetime()) is Some && expiry_of(
            now,
            config.refresh_lifetime(),
        ) is None ==> r == Err::<LoginGrant, AuthFailure>(
            AuthFailure::Internal("Refresh token creation failed"),
        ),
        expiry_of(now, config.access_lifetime()) is Some && expiry_of(
            now,
            config.refresh_lifetime(),
        ) is Some ==> r is Ok,
{
    let user = UserData { id: user_id };
    let access_token = match config.issue_access(user, jti, now) {
        Some(t) => t,
        None => {
            return Err(AuthFailure::Internal("Access token creation failed"));
        },
    };
    let refresh_token = match config.issue_refresh(user, jti, now) {
        Some(t) => t,
        None => {
            return Err(AuthFailure::Internal("Refresh token creation failed"));
        },
    };
    Ok(LoginGrant { user_id, access_token, refresh_token, device_id, user_agent, ip_address })
}

/// The device a login is bound to: the one the client presents, else a
/// freshly generated random identifier in UUID form.
pub fn device_id_for(cookie: Option<String>) -> (r: String)
    ensures
        match cookie {
            Some(c) => r@ == c@,
            None => exists|x: u128| r@ == hyphenated(x),
        },
{
    match cookie {
        Some(c) => c,
        None => uuid_text(random_uuid()),
    }
}

/// Issues the tokens of a login now, under a fresh random issue
/// identifier. The access token expires after the access lifetime and the
/// refresh token after the refresh lifetime, both counted from the same
/// issuing time and both naming `user_id`. Succeeds whenever the lifetimes
/// fit.
pub fn login_grant(
    config: &AuthConfig,
    user_id: u128,
    device_cookie: Option<String>,
    user_agent: Option<String>,
    ip_address: Option<String>,
) -> (r: Result<LoginGrant, AuthFailure>)
    ensures
        match r {
            Ok(g) => (exists|jti: u128, now: i64| grant_issued_at(config, g, user_id, jti, now))
                && match device_cookie {
                Some(c) => g.device_id@ == c@,
                None => exists|x: u128| g.device_id@ == hyphenated(x),
            },
            Err(e) => e == AuthFailure::Internal("Access token creation failed") || e
                == AuthFailure::Internal("Refresh token creation failed"),
        },
        lifetimes_fit(config) ==> r is Ok,
{
    let now = unix_now();
    let jti = random_uuid();
    let device_id = device_id_for(device_cookie);
    login_issue(config, user_id, now, jti, device_id, user_agent, ip_address)
}

/// What a login answers: the access token in the body, the refresh token
/// and the device identifier as cookies.
pub struct LoginReply {
    pub access_token: String,
    pub refresh_cookie: CookieSpec,
    pub device_cookie: CookieSpec,
}

/// Finishes a login once its session row has been recorded (rotated or
/// added in one atomic step).
pub fn login_complete(grant: LoginGrant, recorded: Result<(), StoreError>) -> (r: Result<
    LoginReply,
    AuthFailure,
>)
    ensures
        recorded is Err ==> r == Err::<LoginReply, AuthFailure>(
            AuthFailure::Internal("Session rotation failed"),
        ),
        recorded is Ok ==> (r matches Ok(reply) && reply.access_token@ == grant.access_token@
            && is_refresh_cookie(reply.refresh_cookie, grant.refresh_token@, false)
            && is_device_cookie(reply.device_cookie, grant.device_id@, false)),
{
    match recorded {
        Err(_) => Err(AuthFailure::Internal("Session rotation failed")),
        Ok(_) => Ok(
            LoginReply {
                access_token: grant.access_token,
                refresh_cookie: refresh_cookie(grant.refresh_token, false),
                device_cookie: device_cookie(grant.device_id, false),
            },
        ),
    }
}

// ---------------------------------------------------------------------------
// Refresh

/// The session a refresh presents: whose, on which device, with which
/// refresh token, and the issue identifier of the login that made it.
pub struct SessionKey {
    pub user_id: u128,
    pub device_id: String,
    pub refresh_token: String,
    /// Shared by the refresh token and the login's access token.
    pub token_id: u128,
}

/// The session key of a refresh, given the verification of its refresh
/// token.
pub fn refresh_key_from(token: String, device: String, verified: Result<Claims, TokenError>) -> (r:
    Result<SessionKey, AuthFailure>)
    ensures
        match verified {
            Ok(c) => r matches Ok(k) && k.user_id == c.user.id && k.token_id == c.jti
                && k.device_id@ == device@ && k.refresh_token@ == token@,
            Err(_) => r == Err::<SessionKey, AuthFailure>(AuthFailure::RefreshTokenRejected),
        },
{
    match verified {
        Ok(c) => Ok(
            SessionKey {
                user_id: c.user.id,
                device_id: device,
                refresh_token: token,
                token_id: c.jti,
            },
        ),
        Err(_) => Err(AuthFailure::RefreshTokenRejected),
    }
}

/// Starts a refresh: both cookies must be there, and the refresh token
/// must verify under the refresh secret. The key names the user and issue
/// that the verified claims state.
pub fn refresh_begin(
    config: &AuthConfig,
    refresh_cookie: Option<String>,
    device_cookie: Option<String>,
) -> (r: Result<SessionKey, AuthFailure>)
    ensures
        refresh_cookie is None ==> r == Err::<SessionKey, AuthFailure>(
            AuthFailure::MissingRefreshCookie,
        ),
        refresh_cookie is Some && device_cookie is None ==> r == Err::<SessionKey, AuthFailure>(
            AuthFailure::MissingDeviceCookie,
        ),
        refresh_cookie is Some && device_cookie is Some ==> match r {
            Ok(k) => k.refresh_token@ == refresh_cookie->0@ && k.device_id@ == device_cookie->0@
                && exists|text: Seq<char>, c: Claims|
                claims_from_text(text) == Some(c) && c.user.id == k.user_id && c.jti == k.token_id,
            Err(e) => e == AuthFailure::RefreshTokenRejected,
        },
{
    let token = match refresh_cookie {
        Some(t) => t,
        None => {
            return Err(AuthFailure::MissingRefreshCookie);
        },
    };
    let device = match device_cookie {
        Some(d) => d,
        None => {
            return Err(AuthFailure::MissingDeviceCookie);
        },
    };
    let verified = config.verify_refresh(token.as_str());
    refresh_key_from(token, device, verified)
}

/// Whether a refresh may go on, given whether the store found an active
/// session holding exactly the presented token.
pub open spec fn session_check_outcome(found: Result<bool, StoreError>) -> Result<(), AuthFailure> {
    match found {
        Ok(true) => Ok(()),
        Ok(false) => Err(AuthFailure::UnknownSession),
        Err(_) => Err(AuthFailure::Internal("DB error fetching session")),
    }
}

pub fn refresh_check_session(found: Result<bool, StoreError>) -> (r: Result<(), AuthFailure>)
    ensures
        r == session_check_outcome(found),
{
    match found {
        Ok(true) => Ok(()),
        Ok(false) => Err(AuthFailure::UnknownSession),
        Err(_) => Err(AuthFailure::Internal("DB error fetching session")),
    }
}

/// Profile fields returned with a refreshed access token.
pub struct Profile {
    pub email: String,
    pub username: String,
    pub profile_picture_url: Option<String>,
    pub subscription_plan: String,
}

/// What a refresh answers: a new access token and the user's profile. The
/// refresh token itself is not rotated.
pub struct RefreshReply {
    pub access_token: String,
    pub profile: Profile,
}

/// The issue identifier of a refreshed access token: the freshly drawn
/// one, unless it happens to equal the login's, in which case another.
pub open spec fn renewed_token_id(previous: u128, fresh: u128) -> u128 {
    if fresh != previous {
        fresh
    } else if previous == 0 {
        1
    } else {
        0
    }
}

/// No access token of issue `previous` for `user_id` is `token`: in
/// particular not the one the login handed out.
pub open spec fn differs_from_issue(
    config: &AuthConfig,
    token: Seq<char>,
    user_id: u128,
    previous: u128,
) -> bool {
    forall|e: u64|
        #[trigger] token_for(
            Claims { user: UserData { id: user_id }, jti: previous, exp: e },
            config.access_key(),
        ) != token
}

/// Issues the new access token of a refresh at time `now`, once the
/// session was found and the profile fetched. `previous` is the issue
/// identifier of the login (from the refresh token) and `fresh` a newly
/// drawn one. The new token carries a different identifier, so it differs
/// from the access token the login handed out, also within the same
/// second. Succeeds whenever the profile is there and the expiry fits.
pub fn refresh_issue(
    config: &AuthConfig,
    user_id: u128,
    previous: u128,
    fresh: u128,
    now: i64,
    profile: Result<Profile, StoreError>,
) -> (r: Result<RefreshReply, AuthFailure>)
    ensures
        profile is Err ==> r == Err::<RefreshReply, AuthFailure>(
            AuthFailure::Internal("DB error fetching user data"),
        ),
        profile is Ok ==> match r {
            Ok(reply) => expiry_of(now, config.access_lifetime()) is Some && reply.access_token@
                == issued_token(
                config.access_key(),
                UserData { id: user_id },
                renewed_token_id(previous, fresh),
                now,
                config.access_lifetime(),
            ) && reply.profile == profile->Ok_0 && differs_from_issue(
                config,
                reply.access_token@,
                user_id,
                previous,
            ),
            Err(e) => e == AuthFailure::Internal("Failed to create access token"),
        },
        profile is Ok && expiry_of(now, config.access_lifetime()) is None ==> r
            == Err::<RefreshReply, AuthFailure>(AuthFailure::Internal("Failed to create access token")),
        profile is Ok && expiry_of(now, config.access_lifetime()) is Some ==> r is Ok,
{
    let profile = match profile {
        Ok(p) => p,
        Err(_) => {
            return Err(AuthFailure::Internal("DB error fetching user data"));
        },
    };
    let jti = if fresh != previous {
        fresh
    } else if previous == 0 {
        1
    } else {
        0
    };
    match config.issue_access(UserData { id: user_id }, jti, now) {
        Some(access_token) => {
            proof {
                assert forall|e: u64|
                    #[trigger] token_for(
                        Claims { user: UserData { id: user_id }, jti: previous, exp: e },
                        config.access_key(),
                    ) != access_token@ by {}
            }
            Ok(RefreshReply { access_token, profile })
        },
        None => Err(AuthFailure::Internal("Failed to create access token")),
    }
}

/// Issues the new access token of a refresh now, for the session `key`.
/// It differs from the access token of the login that made the session.
/// Succeeds whenever the profile is there and the lifetimes fit.
pub fn refresh_finish(config: &AuthConfig, key: &SessionKey, profile: Result<Profile, StoreError>) -> (r:
    Result<RefreshReply, AuthFailure>)
    ensures
        profile is Err ==> r == Err::<RefreshReply, AuthFailure>(
            AuthFailure::Internal("DB error fetching user data"),
        ),
        profile is Ok ==> match r {
            Ok(reply) => (exists|jti: u128, now: i64|
                jti != key.token_id && expiry_of(now, config.access_lifetime()) is Some
                    && reply.access_token@ == issued_token(
                    config.access_key(),
                    UserData { id: key.user_id },
                    jti,
                    now,
                    config.access_lifetime(),
                )) && reply.profile == profile->Ok_0 && differs_from_issue(
                config,
                reply.access_token@,
                key.user_id,
                key.token_id,
            ),
            Err(e) => e == AuthFailure::Internal("Failed to create access token"),
        },
        profile is Ok && lifetimes_fit(config) ==> r is Ok,
{
    let now = unix_now();
    let fresh = random_uuid();
    refresh_issue(config, key.user_id, key.token_id, fresh, now, profile)
}

// ---------------------------------------------------------------------------
// Logout

/// What a logout does next.
#[derive(Debug)]
pub enum LogoutStep {
    /// The client presented no session to end; answered with no content
    /// and this note.
    NothingToRevoke(&'static str),
    /// Revoke every session of this user on this device.
    Revoke { user_id: u128, device_id: String },
}

/// The next step of a logout, given whether a refresh cookie was there,
/// its verification, and the device cookie. A missing cookie ends the
/// logout successfully; a refresh token that does not verify is refused.
pub fn logout_step_from(verified: Result<Claims, TokenError>, device_cookie: Option<String>) -> (r:
    Result<LogoutStep, AuthFailure>)
    ensures
        verified is Err ==> r == Err::<LogoutStep, AuthFailure>(AuthFailure::InvalidRefreshToken),
        verified is Ok && device_cookie is None ==> (r matches Ok(
            LogoutStep::NothingToRevoke(note),
        ) && note == "No device_id cookie"),
        verified is Ok && device_cookie is Some ==> (r matches Ok(
            LogoutStep::Revoke { user_id, device_id },
        ) && user_id == verified->Ok_0.user.id && device_id@ == device_cookie->0@),
{
    let claims = match verified {
        Ok(c) => c,
        Err(_) => {
            return Err(AuthFailure::InvalidRefreshToken);
        },
    };
    match device_cookie {
        None => Ok(LogoutStep::NothingToRevoke("No device_id cookie")),
        Some(device_id) => Ok(LogoutStep::Revoke { user_id: claims.user.id, device_id }),
    }
}

/// Starts a logout from the two cookies.
pub fn logout_begin(
    config: &AuthConfig,
    refresh_cookie: Option<String>,
    device_cookie: Option<String>,
) -> (r: Result<LogoutStep, AuthFailure>)
    ensures
        refresh_cookie is None ==> (r matches Ok(LogoutStep::NothingToRevoke(note)) && note
            == "No cookie"),
        refresh_cookie is Some ==> match r {
            Ok(LogoutStep::NothingToRevoke(note)) => device_cookie is None && note
                == "No device_id cookie",
            Ok(LogoutStep::Revoke { user_id, device_id }) => device_cookie is Some
                && device_id@ == device_cookie->0@ && exists|text: Seq<char>, c: Claims|
                claims_from_text(text) == Some(c) && c.user.id == user_id,
            Err(e) => e == AuthFailure::InvalidRefreshToken,
        },
{
    let token = match refresh_cookie {
        Some(t) => t,
        None => {
            return Ok(LogoutStep::NothingToRevoke("No cookie"));
        },
    };
    let verified = config.verify_refresh(token.as_str());
    logout_step_from(verified, device_cookie)
}

/// What a completed logout answers: both cookies removed.
pub struct LogoutReply {
    pub refresh_cookie: CookieSpec,
    pub device_cookie: CookieSpec,
}

/// Finishes a logout once the revocation was stored.
pub fn logout_complete(revoked: Result<(), StoreError>) -> (r: Result<LogoutReply, AuthFailure>)
    ensures
        revoked is Err ==> r == Err::<LogoutReply, AuthFailure>(
            AuthFailure::Internal("Failed to revoke session"),
        ),
        revoked is Ok ==> (r matches Ok(reply) && is_refresh_cookie(
            reply.refresh_cookie,
            Seq::empty(),
            true,
        ) && is_device_cookie(reply.device_cookie, Seq::empty(), true)),
{
    match revoked {
        Err(_) => Err(AuthFailure::Internal("Failed to revoke session")),
        Ok(_) => Ok(
            LogoutReply {
                refresh_cookie: refresh_cookie(String::new(), true),
                device_cookie: device_cookie(String::new(), true),
            },
        ),
    }
}

} // verus!
