use session_auth::claims::{parse_claims, render_claims, Claims, UserData};
use session_auth::gate::{bearer_token, gate_admit, gate_identify, GateRejection, RequestContext};
use session_auth::model::{SubscriptionData, SubscriptionPlan, SubscriptionStatus};
use session_auth::text::same_text;
use session_auth::flow::StoreError;
use session_auth::token::{
    claims_from_decoded, expiry, issue_token, verify_token, AuthConfig, TokenError, ACCESS_TTL_SECS,
    REFRESH_TTL_SECS,
};

const USER: u128 = 0x0123_4567_89ab_cdef_0123_4567_89ab_cdef;

fn config() -> AuthConfig {
    AuthConfig::new("access-secret".to_string(), "refresh-secret".to_string()).unwrap()
}

fn now() -> i64 {
    chrono::Utc::now().timestamp()
}

#[test]
fn claims_text_has_the_serialized_shape() {
    let c = Claims { user: UserData { id: USER }, jti: 0xff, exp: 1700000000 };
    let text = render_claims(&c);
    assert_eq!(
        text,
        "{\"user\":{\"id\":\"01234567-89ab-cdef-0123-456789abcdef\"},\"jti\":\"00000000-0000-0000-0000-0000000000ff\",\"exp\":1700000000}"
    );
    assert_eq!(parse_claims(&text), Some(c));
}

#[test]
fn claims_round_trip_edge_values() {
    for exp in [0u64, 9, 10, u64::MAX] {
        for id in [0u128, u128::MAX, USER] {
            let c = Claims { user: UserData { id }, jti: id ^ 5, exp };
            assert_eq!(parse_claims(&render_claims(&c)), Some(c));
        }
    }
}

#[test]
fn claims_text_matches_serde_json() {
    let c = Claims { user: UserData { id: USER }, jti: 1, exp: 42 };
    let v: serde_json::Value = serde_json::from_str(&render_claims(&c)).unwrap();
    assert_eq!(v["user"]["id"], "01234567-89ab-cdef-0123-456789abcdef");
    assert_eq!(v["jti"], "00000000-0000-0000-0000-000000000001");
    assert_eq!(v["exp"], 42);
}

#[test]
fn parse_claims_rejects_other_texts() {
    let head = "{\"user\":{\"id\":\"01234567-89ab-cdef-0123-456789abcdef\"},\"jti\":\"00000000-0000-0000-0000-000000000001\",\"exp\":";
    assert!(parse_claims(&format!("{}15}}", head)).is_some());
    assert_eq!(parse_claims(&format!("{}015}}", head)), None);
    assert_eq!(parse_claims(&format!("{}1a}}", head)), None);
    assert_eq!(parse_claims(&format!("{}18446744073709551616}}", head)), None);
    assert_eq!(parse_claims(&format!("{}18446744073709551615}}", head)).unwrap().exp, u64::MAX);
    let bad_id = head.replace("abcdef\"", "abcdeg\"");
    assert_eq!(parse_claims(&format!("{}15}}", bad_id)), None);
    assert_eq!(parse_claims("{\"user\":{\"id\":\"01234567-89ab-cdef-0123-456789abcdef\"},\"exp\":15}"), None);
    assert_eq!(parse_claims(""), None);
    assert_eq!(parse_claims("{}"), None);
}

#[test]
fn expiry_adds_lifetime() {
    assert_eq!(expiry(1000, 900), Some(1900));
    assert_eq!(expiry(-1, 900), None);
    assert_eq!(expiry(i64::MAX, u64::MAX), None);
    assert_eq!(issue_token("s", UserData { id: 1 }, 0, -1, 900), None);
}

#[test]
fn issued_token_verifies_with_its_claims() {
    let t = now();
    let token = issue_token("k1", UserData { id: USER }, 3, t, 900).unwrap();
    let c = verify_token(&token, "k1").unwrap();
    assert_eq!(c, Claims { user: UserData { id: USER }, jti: 3, exp: (t + 900) as u64 });
    assert_eq!(verify_token(&token, "k2"), Err(TokenError::BadSignature));
    assert_eq!(verify_token("not-a-token", "k1"), Err(TokenError::Malformed));
}

#[test]
fn token_is_decodable_by_jsonwebtoken_with_typed_claims() {
    let t = now();
    let token = issue_token("k1", UserData { id: USER }, 3, t, 900).unwrap();
    let data = jsonwebtoken::decode::<serde_json::Value>(
        &token,
        &jsonwebtoken::DecodingKey::from_secret(b"k1"),
        &jsonwebtoken::Validation::default(),
    )
    .unwrap();
    assert_eq!(data.claims["user"]["id"], "01234567-89ab-cdef-0123-456789abcdef");
    assert_eq!(data.claims["exp"], (t + 900) as u64);
    assert_eq!(data.claims["jti"], "00000000-0000-0000-0000-000000000003");
}

#[test]
fn expired_token_is_reported_expired() {
    let t = now();
    let token = issue_token("k1", UserData { id: USER }, 3, t - 2000, 900).unwrap();
    assert_eq!(verify_token(&token, "k1"), Err(TokenError::Expired));
}

#[test]
fn decoded_claims_text_is_checked() {
    assert_eq!(claims_from_decoded(Err(TokenError::Expired)), Err(TokenError::Expired));
    assert_eq!(claims_from_decoded(Ok("{\"exp\":1}".to_string())), Err(TokenError::Malformed));
    let text = render_claims(&Claims { user: UserData { id: 7 }, jti: 8, exp: 99 });
    assert_eq!(claims_from_decoded(Ok(text)), Ok(Claims { user: UserData { id: 7 }, jti: 8, exp: 99 }));
}

#[test]
fn config_requires_distinct_secrets() {
    assert!(AuthConfig::new("same".to_string(), "same".to_string()).is_none());
    assert!(AuthConfig::new("a".to_string(), "b".to_string()).is_some());
}

#[test]
fn access_and_refresh_lifetimes() {
    let cfg = config();
    let t = now();
    let access = cfg.issue_access(UserData { id: USER }, 9, t).unwrap();
    let refresh = cfg.issue_refresh(UserData { id: USER }, 9, t).unwrap();
    assert_eq!(cfg.verify_access(&access).unwrap().exp, (t as u64) + ACCESS_TTL_SECS);
    assert_eq!(cfg.verify_refresh(&refresh).unwrap().exp, (t as u64) + REFRESH_TTL_SECS);
    assert_eq!(ACCESS_TTL_SECS, 15 * 60);
    assert_eq!(REFRESH_TTL_SECS, 24 * 60 * 60);
}

#[test]
fn keys_are_not_interchangeable() {
    let cfg = config();
    let t = now();
    let access = cfg.issue_access(UserData { id: USER }, 9, t).unwrap();
    let refresh = cfg.issue_refresh(UserData { id: USER }, 9, t).unwrap();
    assert_eq!(cfg.verify_access(&refresh), Err(TokenError::BadSignature));
    assert_eq!(cfg.verify_refresh(&access), Err(TokenError::BadSignature));
}

#[test]
fn bearer_token_needs_the_prefix() {
    assert_eq!(bearer_token("Bearer abc.def"), Some("abc.def".to_string()));
    assert_eq!(bearer_token("Bearer "), Some(String::new()));
    assert_eq!(bearer_token("bearer abc"), None);
    assert_eq!(bearer_token("Bearer"), None);
    assert_eq!(bearer_token("Basic abc"), None);
}

#[test]
fn gate_rejects_refresh_signed_token() {
    let cfg = config();
    let refresh = cfg.issue_refresh(UserData { id: USER }, 9, now()).unwrap();
    let r = gate_identify(&cfg, Some(format!("Bearer {}", refresh)));
    assert_eq!(r, Err(GateRejection::InvalidToken));
    assert_eq!(GateRejection::InvalidToken.status(), 401);
    assert_eq!(GateRejection::InvalidToken.message(), "Invalid or expired token");
}

#[test]
fn gate_rejects_expired_access_token() {
    let cfg = config();
    let access = cfg.issue_access(UserData { id: USER }, 9, now() - 1000).unwrap();
    let r = gate_identify(&cfg, Some(format!("Bearer {}", access)));
    assert_eq!(r, Err(GateRejection::InvalidToken));
    assert_eq!(r.unwrap_err().status(), 401);
}

#[test]
fn gate_requires_bearer_header() {
    let cfg = config();
    assert_eq!(gate_identify(&cfg, None), Err(GateRejection::MissingToken));
    assert_eq!(gate_identify(&cfg, Some("Token x".to_string())), Err(GateRejection::MissingToken));
    assert_eq!(GateRejection::MissingToken.status(), 401);
    assert_eq!(GateRejection::MissingToken.message(), "Missing Bearer token");
}

#[test]
fn gate_admits_with_identity_and_entitlement() {
    let cfg = config();
    let access = cfg.issue_access(UserData { id: USER }, 9, now()).unwrap();
    let user = gate_identify(&cfg, Some(format!("Bearer {}", access))).unwrap();
    assert_eq!(user, UserData { id: USER });
    let sub = SubscriptionData {
        plan: SubscriptionPlan::Pro,
        status: SubscriptionStatus::Active,
        ends_at: None,
    };
    assert_eq!(gate_admit(user, Ok(sub)), Ok(RequestContext { user, subscription: sub }));
    let failed = gate_admit(user, Err(StoreError::Unavailable));
    assert_eq!(failed, Err(GateRejection::EntitlementUnavailable));
    assert_eq!(GateRejection::EntitlementUnavailable.status(), 500);
}

#[test]
fn plan_names_decode() {
    assert_eq!(SubscriptionPlan::from_name("free"), Some(SubscriptionPlan::Free));
    assert_eq!(SubscriptionPlan::from_name("pro"), Some(SubscriptionPlan::Pro));
    assert_eq!(SubscriptionPlan::from_name("hacker"), Some(SubscriptionPlan::Hacker));
    assert_eq!(SubscriptionPlan::from_name("Pro"), None);
    assert_eq!(SubscriptionPlan::from_name(""), None);
}

#[test]
fn status_names_decode() {
    assert_eq!(SubscriptionStatus::from_name("active"), Some(SubscriptionStatus::Active));
    assert_eq!(SubscriptionStatus::from_name("canceled"), Some(SubscriptionStatus::Canceled));
    assert_eq!(SubscriptionStatus::from_name("incomplete"), Some(SubscriptionStatus::Incomplete));
    assert_eq!(SubscriptionStatus::from_name("past_due"), Some(SubscriptionStatus::PastDue));
    assert_eq!(SubscriptionStatus::from_name("unpaid"), Some(SubscriptionStatus::Unpaid));
    assert_eq!(SubscriptionStatus::from_name("pastdue"), None);
}

#[test]
fn same_text_compares_whole_texts() {
    assert!(same_text("abc", "abc"));
    assert!(same_text("", ""));
    assert!(!same_text("abc", "ab"));
    assert!(!same_text("ab", "abc"));
    assert!(!same_text("abc", "abd"));
}
