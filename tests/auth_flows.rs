use session_auth::claims::UserData;
use session_auth::flow::{
    device_id_for, login_authenticate, login_complete, login_grant, login_issue, logout_begin,
    logout_complete, logout_step_from, refresh_begin, refresh_check_session, refresh_finish,
    refresh_issue,
    register_complete, register_prepare, AuthFailure, LoginGrant, LogoutStep, Profile,
    SameSitePolicy, StoreError, UserCredentials,
};
use session_auth::model::UserRegisterRequest;
use session_auth::password::test_password;
use session_auth::session::SessionStore;
use session_auth::text::contains_text;
use session_auth::token::{AuthConfig, TokenError};

const USER: u128 = 0x1111_2222_3333_4444_5555_6666_7777_8888;

fn config() -> AuthConfig {
    AuthConfig::new("access-secret".to_string(), "refresh-secret".to_string()).unwrap()
}

fn now() -> i64 {
    chrono::Utc::now().timestamp()
}

fn profile() -> Profile {
    Profile {
        email: "ada@example.com".to_string(),
        username: "ada".to_string(),
        profile_picture_url: None,
        subscription_plan: "free".to_string(),
    }
}

fn record(store: &mut SessionStore, g: &LoginGrant) {
    store.upsert_active_session(
        g.user_id,
        g.device_id.clone(),
        g.refresh_token.clone(),
        g.user_agent.clone(),
        g.ip_address.clone(),
        now(),
    );
}

fn refresh_passes(cfg: &AuthConfig, store: &SessionStore, token: &str, device: &str) -> Result<(), AuthFailure> {
    let key = refresh_begin(cfg, Some(token.to_string()), Some(device.to_string()))?;
    let found = store.find_active_session(key.user_id, &key.device_id, &key.refresh_token).is_some();
    refresh_check_session(Ok(found))
}

#[test]
fn password_policy_messages() {
    assert_eq!(test_password("Ab1"), Some("Password must be at least 8 characters long"));
    assert_eq!(test_password(""), Some("Password must be at least 8 characters long"));
    assert_eq!(test_password("abcdefg1"), Some("Password must include at least one uppercase letter"));
    assert_eq!(test_password("ABCDEFG1"), Some("Password must include at least one lowercase letter"));
    assert_eq!(test_password("Abcdefgh"), Some("Password must include at least one number"));
    assert_eq!(test_password("Abcdefg1"), None);
}

#[test]
fn password_length_counts_bytes() {
    // six characters, nine bytes
    assert_eq!(test_password("Ab1ééé"), None);
    // five characters, seven bytes
    assert_eq!(test_password("Ab1éé"), Some("Password must be at least 8 characters long"));
}

#[test]
fn register_without_digit_is_rejected() {
    let req = UserRegisterRequest {
        email: "ada@example.com".to_string(),
        username: "ada".to_string(),
        full_name: "Ada L".to_string(),
        password: "Password".to_string(),
    };
    let r = register_prepare(req);
    let e = r.err().unwrap();
    assert_eq!(e, AuthFailure::WeakPassword("Password must include at least one number"));
    assert_eq!(e.status(), 400);
    assert_eq!(e.message(), "Password must include at least one number");
}

#[test]
fn register_hashes_the_password() {
    let req = UserRegisterRequest {
        email: "ada@example.com".to_string(),
        username: "ada".to_string(),
        full_name: "Ada L".to_string(),
        password: "Passw0rd".to_string(),
    };
    let u = register_prepare(req).ok().unwrap();
    assert_eq!(u.email, "ada@example.com");
    assert_eq!(u.username, "ada");
    assert_eq!(u.full_name, "Ada L");
    assert_ne!(u.password_hash, "Passw0rd");
    assert!(u.password_hash.starts_with("$2b$12$"));
    assert_eq!(bcrypt::verify("Passw0rd", &u.password_hash).unwrap(), true);
}

#[test]
fn register_twice_with_same_email_is_a_conflict() {
    let dup = StoreError::Database(
        "duplicate key value violates unique constraint \"users_email_key\"".to_string(),
    );
    let e = register_complete(Err(dup)).unwrap_err();
    assert_eq!(e, AuthFailure::EmailTaken);
    assert_eq!(e.status(), 409);
    assert_eq!(e.message(), "Email already registered");
}

#[test]
fn register_outcomes() {
    assert_eq!(register_complete(Ok(())), Ok(()));
    let dup = StoreError::Database("unique constraint \"users_username_key\"".to_string());
    assert_eq!(register_complete(Err(dup)), Err(AuthFailure::UsernameTaken));
    let other = StoreError::Database("connection reset".to_string());
    assert_eq!(register_complete(Err(other)), Err(AuthFailure::Internal("Server error")));
    assert_eq!(register_complete(Err(StoreError::Unavailable)), Err(AuthFailure::Internal("Server error")));
    assert_eq!(AuthFailure::Internal("Server error").status(), 500);
}

#[test]
fn contains_text_finds_runs() {
    assert!(contains_text("abc users_email_key def", "users_email_key"));
    assert!(contains_text("x", ""));
    assert!(!contains_text("users_email_ke", "users_email_key"));
    assert!(!contains_text("", "a"));
}

#[test]
fn login_credentials_checks() {
    let digest = bcrypt::hash("Passw0rd", 4).unwrap();
    let creds = || Ok(Some(UserCredentials { id: USER, password_hash: digest.clone() }));
    assert_eq!(login_authenticate(creds(), "Passw0rd"), Ok(USER));
    let wrong = login_authenticate(creds(), "Passw0rd!").unwrap_err();
    let unknown = login_authenticate(Ok(None), "Passw0rd").unwrap_err();
    assert_eq!(wrong, AuthFailure::InvalidCredentials);
    assert_eq!(unknown, wrong);
    assert_eq!(wrong.message(), "Invalid credentials");
    assert_eq!(wrong.status(), 401);
    assert_eq!(
        login_authenticate(Err(StoreError::Unavailable), "Passw0rd"),
        Err(AuthFailure::Internal("DB query error"))
    );
    let malformed = Ok(Some(UserCredentials { id: USER, password_hash: "nope".to_string() }));
    assert_eq!(
        login_authenticate(malformed, "Passw0rd"),
        Err(AuthFailure::Internal("Password verification error"))
    );
}

#[test]
fn login_issues_tokens_with_lifetimes() {
    let cfg = config();
    let before = now();
    let g = login_grant(&cfg, USER, None, Some("agent".to_string()), None).ok().unwrap();
    let after = now();
    assert_eq!(g.user_id, USER);
    let access = cfg.verify_access(&g.access_token).unwrap();
    let refresh = cfg.verify_refresh(&g.refresh_token).unwrap();
    assert_eq!(access.user, UserData { id: USER });
    assert_eq!(refresh.user, UserData { id: USER });
    assert!(access.exp >= (before + 900) as u64 && access.exp <= (after + 900) as u64);
    assert!(refresh.exp >= (before + 86400) as u64 && refresh.exp <= (after + 86400) as u64);
    assert_eq!(refresh.exp - access.exp, 86400 - 900);
    assert_eq!(g.user_agent, Some("agent".to_string()));
}

#[test]
fn login_keeps_presented_device() {
    let cfg = config();
    let g = login_grant(&cfg, USER, Some("dev-1".to_string()), None, None).ok().unwrap();
    assert_eq!(g.device_id, "dev-1");
}

#[test]
fn fresh_device_id_is_a_uuid() {
    let d = device_id_for(None);
    assert_eq!(d.len(), 36);
    assert!(uuid::Uuid::parse_str(&d).is_ok());
    assert_ne!(device_id_for(None), d);
    assert_eq!(device_id_for(Some("mine".to_string())), "mine");
}

#[test]
fn login_issue_fails_before_epoch() {
    let cfg = config();
    let r = login_issue(&cfg, USER, -5, 1, "d".to_string(), None, None);
    assert_eq!(r.err(), Some(AuthFailure::Internal("Access token creation failed")));
}

#[test]
fn login_sets_cookies() {
    let cfg = config();
    let g = login_grant(&cfg, USER, Some("dev-1".to_string()), None, None).ok().unwrap();
    let access = g.access_token.clone();
    let refresh = g.refresh_token.clone();
    let reply = login_complete(g, Ok(())).ok().unwrap();
    assert_eq!(reply.access_token, access);
    assert_eq!(reply.refresh_cookie.name, "jwt");
    assert_eq!(reply.refresh_cookie.value, refresh);
    assert_eq!(reply.refresh_cookie.max_age_secs, 86400);
    assert_eq!(reply.refresh_cookie.same_site, SameSitePolicy::NoRestriction);
    assert!(reply.refresh_cookie.http_only && reply.refresh_cookie.secure);
    assert_eq!(reply.device_cookie.name, "device_id");
    assert_eq!(reply.device_cookie.value, "dev-1");
    assert_eq!(reply.device_cookie.max_age_secs, 365 * 24 * 60 * 60);
    assert_eq!(reply.device_cookie.same_site, SameSitePolicy::Lax);
    assert!(!reply.device_cookie.removal);
}

#[test]
fn login_fails_when_session_not_recorded() {
    let cfg = config();
    let g = login_grant(&cfg, USER, None, None, None).ok().unwrap();
    let e = login_complete(g, Err(StoreError::Unavailable)).err().unwrap();
    assert_eq!(e, AuthFailure::Internal("Session rotation failed"));
}

#[test]
fn login_then_refresh_round_trip() {
    let cfg = config();
    let mut store = SessionStore::new();
    let g = login_grant(&cfg, USER, None, None, None).ok().unwrap();
    record(&mut store, &g);
    let key = refresh_begin(&cfg, Some(g.refresh_token.clone()), Some(g.device_id.clone())).ok().unwrap();
    assert_eq!(key.user_id, USER);
    let found = store.find_active_session(key.user_id, &key.device_id, &key.refresh_token);
    assert_eq!(found.unwrap().user_id, USER);
    assert_eq!(refresh_check_session(Ok(true)), Ok(()));
    let reply = refresh_finish(&cfg, &key, Ok(profile())).ok().unwrap();
    assert_ne!(reply.access_token, g.access_token);
    assert_eq!(cfg.verify_access(&reply.access_token).unwrap().user, UserData { id: USER });
    assert_eq!(reply.profile.username, "ada");
}

#[test]
fn refresh_requires_cookies_and_valid_token() {
    let cfg = config();
    let e = refresh_begin(&cfg, None, Some("d".to_string())).err().unwrap();
    assert_eq!(e, AuthFailure::MissingRefreshCookie);
    assert_eq!(e.status(), 401);
    let e = refresh_begin(&cfg, Some("t".to_string()), None).err().unwrap();
    assert_eq!(e, AuthFailure::MissingDeviceCookie);
    let e = refresh_begin(&cfg, Some("t".to_string()), Some("d".to_string())).err().unwrap();
    assert_eq!(e, AuthFailure::RefreshTokenRejected);
    assert_eq!(e.status(), 403);
    assert_eq!(e.message(), "Invalid refresh token JWT");
    let access = cfg.issue_access(UserData { id: USER }, 9, now()).unwrap();
    let e = refresh_begin(&cfg, Some(access), Some("d".to_string())).err().unwrap();
    assert_eq!(e, AuthFailure::RefreshTokenRejected);
}

#[test]
fn refresh_outcomes_after_lookup() {
    assert_eq!(refresh_check_session(Ok(false)), Err(AuthFailure::UnknownSession));
    assert_eq!(
        refresh_check_session(Err(StoreError::Unavailable)),
        Err(AuthFailure::Internal("DB error fetching session"))
    );
    let cfg = config();
    let r = refresh_issue(&cfg, USER, 1, 2, now(), Err(StoreError::Unavailable));
    assert_eq!(r.err(), Some(AuthFailure::Internal("DB error fetching user data")));
    let r = refresh_issue(&cfg, USER, 1, 2, -1, Ok(profile()));
    assert_eq!(r.err(), Some(AuthFailure::Internal("Failed to create access token")));
}

#[test]
fn logout_then_refresh_is_unauthorized() {
    let cfg = config();
    let mut store = SessionStore::new();
    let g = login_grant(&cfg, USER, None, None, None).ok().unwrap();
    record(&mut store, &g);
    assert_eq!(refresh_passes(&cfg, &store, &g.refresh_token, &g.device_id), Ok(()));
    match logout_begin(&cfg, Some(g.refresh_token.clone()), Some(g.device_id.clone())) {
        Ok(LogoutStep::Revoke { user_id, device_id }) => {
            assert_eq!(user_id, USER);
            store.revoke(user_id, &device_id);
        }
        _ => panic!("logout should revoke"),
    }
    let reply = logout_complete(Ok(())).ok().unwrap();
    assert!(reply.refresh_cookie.removal && reply.device_cookie.removal);
    assert_eq!(reply.refresh_cookie.value, "");
    let e = refresh_passes(&cfg, &store, &g.refresh_token, &g.device_id).unwrap_err();
    assert_eq!(e, AuthFailure::UnknownSession);
    assert_eq!(e.status(), 401);
    assert_eq!(store.active_count(USER, &g.device_id), 0);
}

#[test]
fn logout_short_circuits_without_cookies() {
    let cfg = config();
    match logout_begin(&cfg, None, Some("d".to_string())) {
        Ok(LogoutStep::NothingToRevoke(note)) => assert_eq!(note, "No cookie"),
        _ => panic!("expected no-op"),
    }
    let refresh = cfg.issue_refresh(UserData { id: USER }, 9, now()).unwrap();
    match logout_begin(&cfg, Some(refresh), None) {
        Ok(LogoutStep::NothingToRevoke(note)) => assert_eq!(note, "No device_id cookie"),
        _ => panic!("expected no-op"),
    }
    let e = logout_begin(&cfg, Some("garbage".to_string()), Some("d".to_string())).err().unwrap();
    assert_eq!(e, AuthFailure::InvalidRefreshToken);
    assert_eq!(e.status(), 403);
    assert!(matches!(logout_step_from(Err(TokenError::Expired), None), Err(AuthFailure::InvalidRefreshToken)));
    let e = logout_complete(Err(StoreError::Unavailable)).err().unwrap();
    assert_eq!(e, AuthFailure::Internal("Failed to revoke session"));
}

#[test]
fn revoke_without_session_succeeds() {
    let mut store = SessionStore::new();
    store.revoke(USER, "nowhere");
    assert_eq!(store.len(), 0);
}

#[test]
fn two_devices_are_independent() {
    let cfg = config();
    let mut store = SessionStore::new();
    let a = login_grant(&cfg, USER, Some("device-a".to_string()), None, None).ok().unwrap();
    record(&mut store, &a);
    let b = login_grant(&cfg, USER, Some("device-b".to_string()), None, None).ok().unwrap();
    record(&mut store, &b);
    assert_eq!(store.len(), 2);
    assert_eq!(store.active_count(USER, "device-a"), 1);
    assert_eq!(store.active_count(USER, "device-b"), 1);
    store.revoke(USER, "device-a");
    assert_eq!(refresh_passes(&cfg, &store, &a.refresh_token, "device-a"), Err(AuthFailure::UnknownSession));
    assert_eq!(refresh_passes(&cfg, &store, &b.refresh_token, "device-b"), Ok(()));
}

#[test]
fn second_login_same_device_rotates() {
    let mut store = SessionStore::new();
    store.upsert_active_session(USER, "dev".to_string(), "t1".to_string(), None, None, 10);
    store.upsert_active_session(USER, "dev".to_string(), "t2".to_string(), Some("ua".to_string()), None, 20);
    assert_eq!(store.len(), 1);
    assert_eq!(store.active_count(USER, "dev"), 1);
    assert!(store.find_active_session(USER, "dev", "t1").is_none());
    let s = store.find_active_session(USER, "dev", "t2").unwrap();
    assert_eq!(s.created_at, 10);
    assert_eq!(s.last_used_at, 20);
    assert_eq!(s.user_agent, Some("ua".to_string()));
}

#[test]
fn login_after_logout_opens_new_row() {
    let mut store = SessionStore::new();
    store.upsert_active_session(USER, "dev".to_string(), "t1".to_string(), None, None, 10);
    store.revoke(USER, "dev");
    store.upsert_active_session(USER, "dev".to_string(), "t2".to_string(), None, None, 20);
    assert_eq!(store.len(), 2);
    assert_eq!(store.active_count(USER, "dev"), 1);
    assert!(store.find_active_session(USER, "dev", "t1").is_none());
    assert_eq!(store.find_active_session(USER, "dev", "t2").unwrap().id, 1);
}

#[test]
fn concurrent_logins_leave_one_row() {
    for (first, second) in [("t1", "t2"), ("t2", "t1")] {
        let mut store = SessionStore::new();
        store.upsert_active_session(USER, "dev".to_string(), first.to_string(), None, None, 5);
        store.upsert_active_session(USER, "dev".to_string(), second.to_string(), None, None, 5);
        assert_eq!(store.len(), 1);
        assert_eq!(store.active_count(USER, "dev"), 1);
        assert!(store.find_active_session(USER, "dev", second).is_some());
        assert!(store.find_active_session(USER, "dev", first).is_none());
    }
}

#[test]
fn sessions_of_other_users_are_untouched() {
    let mut store = SessionStore::new();
    store.upsert_active_session(1, "dev".to_string(), "a".to_string(), None, None, 1);
    store.upsert_active_session(2, "dev".to_string(), "b".to_string(), None, None, 1);
    store.revoke(1, "dev");
    assert!(store.find_active_session(2, "dev", "b").is_some());
    assert!(store.find_active_session(1, "dev", "b").is_none());
    assert!(store.find_active_session(2, "dev", "a").is_none());
}

#[test]
fn refresh_in_same_second_gives_new_token() {
    let cfg = config();
    let t = now();
    let g = login_issue(&cfg, USER, t, 77, "dev".to_string(), None, None).ok().unwrap();
    let key = refresh_begin(&cfg, Some(g.refresh_token.clone()), Some("dev".to_string())).ok().unwrap();
    assert_eq!(key.token_id, 77);
    // even when the fresh identifier drawn equals the login's
    let reply = refresh_issue(&cfg, key.user_id, key.token_id, 77, t, Ok(profile())).ok().unwrap();
    assert_ne!(reply.access_token, g.access_token);
    let c = cfg.verify_access(&reply.access_token).unwrap();
    assert_eq!(c.user, UserData { id: USER });
    assert_eq!(c.exp, (t + 900) as u64);
    assert_ne!(c.jti, 77);
    let other = refresh_issue(&cfg, key.user_id, key.token_id, 5, t, Ok(profile())).ok().unwrap();
    assert_eq!(cfg.verify_access(&other.access_token).unwrap().jti, 5);
}

#[test]
fn login_tokens_share_issue_id() {
    let cfg = config();
    let g = login_grant(&cfg, USER, None, None, None).ok().unwrap();
    let a = cfg.verify_access(&g.access_token).unwrap();
    let r = cfg.verify_refresh(&g.refresh_token).unwrap();
    assert_eq!(a.jti, r.jti);
    let g2 = login_grant(&cfg, USER, None, None, None).ok().unwrap();
    assert_ne!(cfg.verify_access(&g2.access_token).unwrap().jti, a.jti);
}

#[test]
fn logout_keeps_short_message() {
    let e = AuthFailure::InvalidRefreshToken;
    assert_eq!(e.message(), "Invalid refresh token");
    assert_eq!(e.status(), 403);
}

#[test]
fn register_digest_records_cost() {
    let req = UserRegisterRequest {
        email: "b@example.com".to_string(),
        username: "b".to_string(),
        full_name: "B".to_string(),
        password: "Passw0rd".to_string(),
    };
    let u = register_prepare(req).ok().unwrap();
    assert_eq!(u.password_hash.len(), 60);
    assert_eq!(&u.password_hash[0..7], "$2b$12$");
}
