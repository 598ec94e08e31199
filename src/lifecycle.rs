//! Laws of the session lifecycle, stated over the flows' decisions and the
//! session table: NoSession -> Active on login, Active -> Active on a
//! second login (rotation), Active -> Revoked on logout, for good.
use vstd::prelude::*;
use crate::claims::UserData;
use crate::flow::{AuthFailure, session_check_outcome};
use crate::session::{
    SessionView,
    found_session, lemma_login_leaves_one_active, lemma_logout_ends_refresh,
    lemma_two_devices_independent, revoked_all, sessions_wf, upserted,
};
use crate::token::{issued_token, AuthConfig};

verus! {

/// A login followed at once by a refresh with the cookies it set passes
/// the session check, and the session found belongs to the same user.
/// (That the refreshed access token differs from the login's is stated by
/// `refresh_issue`.)
pub proof fn lemma_login_then_refresh(
    config: &AuthConfig,
    rows: Seq<SessionView>,
    user_id: u128,
    jti: u128,
    device: Seq<char>,
    user_agent: Option<Seq<char>>,
    ip_address: Option<Seq<char>>,
    login_at: i64,
)
    requires
        sessions_wf(rows),
    ensures
        ({
            let token = issued_token(
                config.refresh_key(),
                UserData { id: user_id },
                jti,
                login_at,
                config.refresh_lifetime(),
            );
            let table = upserted(rows, user_id, device, token, user_agent, ip_address, login_at);
            &&& session_check_outcome(Ok(found_session(table, user_id, device, token) is Some))
                == Ok::<(), AuthFailure>(())
            &&& found_session(table, user_id, device, token)->0.user_id == user_id
        }),
{
    let token = issued_token(
        config.refresh_key(),
        UserData { id: user_id },
        jti,
        login_at,
        config.refresh_lifetime(),
    );
    lemma_login_leaves_one_active(rows, user_id, device, token, user_agent, ip_address, login_at);
}

/// After a logout, a refresh with the same cookies fails as an unknown
/// session (401), whatever token it presents.
pub proof fn lemma_refresh_after_logout_fails(
    rows: Seq<SessionView>,
    user_id: u128,
    device: Seq<char>,
    token: Seq<char>,
)
    ensures
        session_check_outcome(
            Ok(found_session(revoked_all(rows, user_id, device), user_id, device, token) is Some),
        ) == Err::<(), AuthFailure>(AuthFailure::UnknownSession),
        AuthFailure::UnknownSession.spec_status() == 401,
{
    lemma_logout_ends_refresh(rows, user_id, device, token);
}

/// Logins on two devices, then a logout on the first: the first device's
/// refresh fails, the second's still passes.
pub proof fn lemma_logout_spares_other_device(
    rows: Seq<SessionView>,
    user_id: u128,
    device_a: Seq<char>,
    device_b: Seq<char>,
    token_a: Seq<char>,
    token_b: Seq<char>,
    user_agent: Option<Seq<char>>,
    ip_address: Option<Seq<char>>,
    now: i64,
)
    requires
        sessions_wf(rows),
        device_a != device_b,
    ensures
        ({
            let r1 = upserted(rows, user_id, device_a, token_a, user_agent, ip_address, now);
            let r2 = upserted(r1, user_id, device_b, token_b, user_agent, ip_address, now);
            let r3 = revoked_all(r2, user_id, device_a);
            &&& session_check_outcome(Ok(found_session(r3, user_id, device_a, token_a) is Some))
                == Err::<(), AuthFailure>(AuthFailure::UnknownSession)
            &&& session_check_outcome(Ok(found_session(r3, user_id, device_b, token_b) is Some))
                == Ok::<(), AuthFailure>(())
        }),
{
    lemma_two_devices_independent(
        rows,
        user_id,
        device_a,
        device_b,
        token_a,
        token_b,
        user_agent,
        ip_address,
        now,
    );
}

} // verus!
