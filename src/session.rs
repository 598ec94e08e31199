//! Per-(user, device) sessions: the table model, its operations, and an
//! in-memory store that performs them. At most one row per (user, device)
//! is active; a login on the same device rotates that row in place, a login
//! on a new device adds a row, and revocation is never undone.
use vstd::prelude::*;

verus! {

/// One session row.
#[derive(Debug)]
pub struct UserSession {
    /// The row's identifier, which is its position in the table.
    pub id: u128,
    pub user_id: u128,
    pub device_id: String,
    /// The refresh token currently bound to this session.
    pub refresh_token: String,
    /// Last-known client details (diagnostic only).
    pub user_agent: Option<String>,
    pub ip_address: Option<String>,
    /// Unix seconds.
    pub created_at: i64,
    pub last_used_at: i64,
    pub revoked: bool,
}

/// A session row as a mathematical value.
pub struct SessionView {
    pub id: u128,
    pub user_id: u128,
    pub device_id: Seq<char>,
    pub refresh_token: Seq<char>,
    pub user_agent: Option<Seq<char>>,
    pub ip_address: Option<Seq<char>>,
    pub created_at: i64,
    pub last_used_at: i64,
    pub revoked: bool,
}

pub open spec fn text_opt(o: Option<String>) -> Option<Seq<char>> {
    match o {
        Some(s) => Some(s@),
        None => None,
    }
}

impl View for UserSession {
    type V = SessionView;

    open spec fn view(&self) -> SessionView {
        SessionView {
            id: self.id,
            user_id: self.user_id,
            device_id: self.device_id@,
            refresh_token: self.refresh_token@,
            user_agent: text_opt(self.user_agent),
            ip_address: text_opt(self.ip_address),
            created_at: self.created_at,
            last_used_at: self.last_used_at,
            revoked: self.revoked,
        }
    }
}

/// The row is the active session of `user` on `device`.
pub open spec fn is_live(r: SessionView, user: u128, device: Seq<char>) -> bool {
    !r.revoked && r.user_id == user && r.device_id == device
}

pub open spec fn has_live(rows: Seq<SessionView>, user: u128, device: Seq<char>) -> bool {
    exists|i: int| 0 <= i < rows.len() && #[trigger] is_live(rows[i], user, device)
}

/// The number of active rows of `user` on `device`.
pub open spec fn live_count(rows: Seq<SessionView>, user: u128, device: Seq<char>) -> nat
    decreases rows.len(),
{
    if rows.len() == 0 {
        0
    } else {
        live_count(rows.drop_last(), user, device) + if is_live(rows.last(), user, device) {
            1nat
        } else {
            0nat
        }
    }
}

/// No two active rows share a (user, device).
pub open spec fn sessions_wf(rows: Seq<SessionView>) -> bool {
    forall|i: int, j: int|
        0 <= i < rows.len() && 0 <= j < rows.len() && i != j && #[trigger] is_live(
            rows[i],
            rows[j].user_id,
            rows[j].device_id,
        ) ==> !#[trigger] is_live(rows[j], rows[j].user_id, rows[j].device_id)
}

/// A row after a login on its device: new token and client details.
pub open spec fn rotated(
    r: SessionView,
    token: Seq<char>,
    user_agent: Option<Seq<char>>,
    ip_address: Option<Seq<char>>,
    now: i64,
) -> SessionView {
    SessionView { refresh_token: token, user_agent, ip_address, last_used_at: now, ..r }
}

/// A fresh active row, appended at position `id`.
pub open spec fn fresh_row(
    id: int,
    user: u128,
    device: Seq<char>,
    token: Seq<char>,
    user_agent: Option<Seq<char>>,
    ip_address: Option<Seq<char>>,
    now: i64,
) -> SessionView {
    SessionView {
        id: id as u128,
        user_id: user,
        device_id: device,
        refresh_token: token,
        user_agent,
        ip_address,
        created_at: now,
        last_used_at: now,
        revoked: false,
    }
}

/// The table after a login of `user` on `device`: the active row of that
/// pair is rotated if there is one, else a new row is added.
pub open spec fn upserted(
    rows: Seq<SessionView>,
    user: u128,
    device: Seq<char>,
    token: Seq<char>,
    user_agent: Option<Seq<char>>,
    ip_address: Option<Seq<char>>,
    now: i64,
) -> Seq<SessionView> {
    if has_live(rows, user, device) {
        Seq::new(
            rows.len(),
            |i: int|
                if is_live(rows[i], user, device) {
                    rotated(rows[i], token, user_agent, ip_address, now)
                } else {
                    rows[i]
                },
        )
    } else {
        rows.push(fresh_row(rows.len() as int, user, device, token, user_agent, ip_address, now))
    }
}

/// The table after a logout of `user` on `device`: every row of that pair
/// is revoked.
pub open spec fn revoked_all(rows: Seq<SessionView>, user: u128, device: Seq<char>) -> Seq<
    SessionView,
> {
    Seq::new(
        rows.len(),
        |i: int|
            if rows[i].user_id == user && rows[i].device_id == device {
                SessionView { revoked: true, ..rows[i] }
            } else {
                rows[i]
            },
    )
}

/// The row accepts this presented refresh token.
pub open spec fn accepts(r: SessionView, user: u128, device: Seq<char>, token: Seq<char>) -> bool {
    is_live(r, user, device) && r.refresh_token == token
}

pub open spec fn has_accepting(
    rows: Seq<SessionView>,
    user: u128,
    device: Seq<char>,
    token: Seq<char>,
) -> bool {
    exists|i: int| 0 <= i < rows.len() && #[trigger] accepts(rows[i], user, device, token)
}

/// The active session that a refresh with (`user`, `device`, `token`)
/// finds: only a non-revoked row holding exactly that token.
pub open spec fn found_session(
    rows: Seq<SessionView>,
    user: u128,
    device: Seq<char>,
    token: Seq<char>,
) -> Option<SessionView> {
    if has_accepting(rows, user, device, token) {
        Some(
            rows[choose|i: int| 0 <= i < rows.len() && #[trigger] accepts(rows[i], user, device, token)],
        )
    } else {
        None
    }
}

// ---------------------------------------------------------------------------
// Facts about the table model

proof fn lemma_live_count_prefix_wf(rows: Seq<SessionView>, user: u128, device: Seq<char>)
    requires
        forall|i: int, j: int|
            0 <= i < rows.len() && 0 <= j < rows.len() && i != j && #[trigger] is_live(
                rows[i],
                user,
                device,
            ) ==> !#[trigger] is_live(rows[j], user, device),
    ensures
        live_count(rows, user, device) == if has_live(rows, user, device) {
            1nat
        } else {
            0nat
        },
    decreases rows.len(),
{
    if rows.len() > 0 {
        let p = rows.drop_last();
        assert forall|i: int, j: int|
            0 <= i < p.len() && 0 <= j < p.len() && i != j && #[trigger] is_live(
                p[i],
                user,
                device,
            ) implies !#[trigger] is_live(p[j], user, device) by {
            assert(p[i] == rows[i] && p[j] == rows[j]);
        }
        lemma_live_count_prefix_wf(p, user, device);
        if has_live(p, user, device) {
            let k = choose|k: int| 0 <= k < p.len() && #[trigger] is_live(p[k], user, device);
            assert(rows[k] == p[k]);
        }
        if is_live(rows.last(), user, device) {
            assert(is_live(rows[rows.len() - 1], user, device));
        }
        if has_live(rows, user, device) {
            let k = choose|k: int| 0 <= k < rows.len() && #[trigger] is_live(rows[k], user, device);
            if k < rows.len() - 1 {
                assert(p[k] == rows[k]);
            }
        }
    }
}

/// In a well-formed table each (user, device) has at most one active row.
pub proof fn lemma_live_count(rows: Seq<SessionView>, user: u128, device: Seq<char>)
    requires
        sessions_wf(rows),
    ensures
        live_count(rows, user, device) == if has_live(rows, user, device) {
            1nat
        } else {
            0nat
        },
{
    assert forall|i: int, j: int|
        0 <= i < rows.len() && 0 <= j < rows.len() && i != j && #[trigger] is_live(
            rows[i],
            user,
            device,
        ) implies !#[trigger] is_live(rows[j], user, device) by {
        if is_live(rows[j], user, device) {
            assert(is_live(rows[i], rows[j].user_id, rows[j].device_id));
            assert(is_live(rows[j], rows[j].user_id, rows[j].device_id));
        }
    }
    lemma_live_count_prefix_wf(rows, user, device);
}

/// A login keeps the table well formed.
pub proof fn lemma_upserted_wf(
    rows: Seq<SessionView>,
    user: u128,
    device: Seq<char>,
    token: Seq<char>,
    user_agent: Option<Seq<char>>,
    ip_address: Option<Seq<char>>,
    now: i64,
)
    requires
        sessions_wf(rows),
    ensures
        sessions_wf(upserted(rows, user, device, token, user_agent, ip_address, now)),
{
    let r = upserted(rows, user, device, token, user_agent, ip_address, now);
    if has_live(rows, user, device) {
        assert forall|i: int, j: int|
            0 <= i < r.len() && 0 <= j < r.len() && i != j && #[trigger] is_live(
                r[i],
                r[j].user_id,
                r[j].device_id,
            ) implies !#[trigger] is_live(r[j], r[j].user_id, r[j].device_id) by {
            assert(is_live(rows[i], rows[j].user_id, rows[j].device_id));
            assert(is_live(rows[j], rows[j].user_id, rows[j].device_id) ==> !is_live(
                rows[j],
                rows[j].user_id,
                rows[j].device_id,
            ));
        }
    } else {
        assert forall|i: int, j: int|
            0 <= i < r.len() && 0 <= j < r.len() && i != j && #[trigger] is_live(
                r[i],
                r[j].user_id,
                r[j].device_id,
            ) implies !#[trigger] is_live(r[j], r[j].user_id, r[j].device_id) by {
            if i < rows.len() && j < rows.len() {
                assert(r[i] == rows[i] && r[j] == rows[j]);
            } else if i == rows.len() {
                assert(r[j] == rows[j]);
                assert(!is_live(rows[j], user, device));
            } else {
                assert(r[i] == rows[i]);
                assert(!is_live(rows[i], user, device));
            }
        }
    }
}

/// A logout keeps the table well formed.
pub proof fn lemma_revoked_all_wf(rows: Seq<SessionView>, user: u128, device: Seq<char>)
    requires
        sessions_wf(rows),
    ensures
        sessions_wf(revoked_all(rows, user, device)),
{
    let r = revoked_all(rows, user, device);
    assert forall|i: int, j: int|
        0 <= i < r.len() && 0 <= j < r.len() && i != j && #[trigger] is_live(
            r[i],
            r[j].user_id,
            r[j].device_id,
        ) implies !#[trigger] is_live(r[j], r[j].user_id, r[j].device_id) by {
        assert(is_live(rows[i], rows[j].user_id, rows[j].device_id));
    }
}

/// After a login of `user` on `device` that device has exactly one active
/// session, it holds the token just issued, and a refresh presenting that
/// token finds it. A row is added only where the device had no active row.
pub proof fn lemma_login_leaves_one_active(
    rows: Seq<SessionView>,
    user: u128,
    device: Seq<char>,
    token: Seq<char>,
    user_agent: Option<Seq<char>>,
    ip_address: Option<Seq<char>>,
    now: i64,
)
    requires
        sessions_wf(rows),
    ensures
        ({
            let r = upserted(rows, user, device, token, user_agent, ip_address, now);
            &&& sessions_wf(r)
            &&& live_count(r, user, device) == 1
            &&& forall|i: int|
                0 <= i < r.len() && #[trigger] is_live(r[i], user, device) ==> r[i].refresh_token
                    == token
            &&& found_session(r, user, device, token) is Some
            &&& found_session(r, user, device, token)->0.user_id == user
            &&& r.len() == if has_live(rows, user, device) {
                rows.len()
            } else {
                rows.len() + 1
            }
        }),
{
    let r = upserted(rows, user, device, token, user_agent, ip_address, now);
    lemma_upserted_wf(rows, user, device, token, user_agent, ip_address, now);
    let k: int = if has_live(rows, user, device) {
        choose|k: int| 0 <= k < rows.len() && #[trigger] is_live(rows[k], user, device)
    } else {
        rows.len() as int
    };
    assert(accepts(r[k], user, device, token));
    assert(is_live(r[k], user, device));
    lemma_live_count(r, user, device);
    assert forall|i: int| 0 <= i < r.len() && #[trigger] is_live(r[i], user, device) implies r[i].refresh_token
        == token by {
        if i < rows.len() && !has_live(rows, user, device) {
            assert(r[i] == rows[i]);
        }
    }
}

/// A second login on the same device rotates its session in place: the
/// table does not grow, the device still has exactly one active session,
/// and the token of the first login no longer refreshes.
pub proof fn lemma_second_login_rotates(
    rows: Seq<SessionView>,
    user: u128,
    device: Seq<char>,
    first: Seq<char>,
    second: Seq<char>,
    user_agent: Option<Seq<char>>,
    ip_address: Option<Seq<char>>,
    now1: i64,
    now2: i64,
)
    requires
        sessions_wf(rows),
    ensures
        ({
            let r1 = upserted(rows, user, device, first, user_agent, ip_address, now1);
            let r2 = upserted(r1, user, device, second, user_agent, ip_address, now2);
            &&& r2.len() == r1.len()
            &&& live_count(r2, user, device) == 1
            &&& found_session(r2, user, device, second) is Some
            &&& first != second ==> found_session(r2, user, device, first) is None
        }),
{
    let r1 = upserted(rows, user, device, first, user_agent, ip_address, now1);
    lemma_login_leaves_one_active(rows, user, device, first, user_agent, ip_address, now1);
    lemma_login_leaves_one_active(r1, user, device, second, user_agent, ip_address, now2);
    assert(has_live(r1, user, device) == (live_count(r1, user, device) == 1)) by {
        lemma_live_count(r1, user, device);
    }
}

/// After a logout of `user` on `device`, that device has no active session
/// and no refresh token is accepted for it.
pub proof fn lemma_logout_ends_refresh(
    rows: Seq<SessionView>,
    user: u128,
    device: Seq<char>,
    token: Seq<char>,
)
    ensures
        !has_live(revoked_all(rows, user, device), user, device),
        found_session(revoked_all(rows, user, device), user, device, token) is None,
{
    let r = revoked_all(rows, user, device);
    if has_accepting(r, user, device, token) {
        let k = choose|k: int| 0 <= k < r.len() && #[trigger] accepts(r[k], user, device, token);
        assert(!is_live(r[k], user, device));
    }
}

/// A logout on one device leaves every other device's sessions as they
/// were: a refresh there succeeds after it exactly when it did before.
pub proof fn lemma_logout_keeps_other_devices(
    rows: Seq<SessionView>,
    user: u128,
    device: Seq<char>,
    other: Seq<char>,
    token: Seq<char>,
)
    requires
        device != other,
    ensures
        found_session(revoked_all(rows, user, device), user, other, token) is Some
            <==> found_session(rows, user, other, token) is Some,
{
    let r = revoked_all(rows, user, device);
    if has_accepting(r, user, other, token) {
        let k = choose|k: int| 0 <= k < r.len() && #[trigger] accepts(r[k], user, other, token);
        assert(accepts(rows[k], user, other, token));
    }
    if has_accepting(rows, user, other, token) {
        let k = choose|k: int| 0 <= k < rows.len() && #[trigger] accepts(rows[k], user, other, token);
        assert(accepts(r[k], user, other, token));
    }
}

/// Logins of one user on two devices give two independent sessions: each
/// device has its own active session, and logging out of the first leaves
/// the second able to refresh.
pub proof fn lemma_two_devices_independent(
    rows: Seq<SessionView>,
    user: u128,
    device_a: Seq<char>,
    device_b: Seq<char>,
    token_a: Seq<char>,
    token_b: Seq<char>,
    user_agent: Option<Seq<char>>,
    ip_address: Option<Seq<char>>,
    now: i64,
)
    requires
        sessions_wf(rows),
        device_a != device_b,
    ensures
        ({
            let r1 = upserted(rows, user, device_a, token_a, user_agent, ip_address, now);
            let r2 = upserted(r1, user, device_b, token_b, user_agent, ip_address, now);
            let r3 = revoked_all(r2, user, device_a);
            &&& live_count(r2, user, device_a) == 1
            &&& live_count(r2, user, device_b) == 1
            &&& found_session(r2, user, device_a, token_a) is Some
            &&& found_session(r3, user, device_a, token_a) is None
            &&& found_session(r3, user, device_b, token_b) is Some
        }),
{
    let r1 = upserted(rows, user, device_a, token_a, user_agent, ip_address, now);
    let r2 = upserted(r1, user, device_b, token_b, user_agent, ip_address, now);
    lemma_login_leaves_one_active(rows, user, device_a, token_a, user_agent, ip_address, now);
    lemma_login_leaves_one_active(r1, user, device_b, token_b, user_agent, ip_address, now);
    let k = choose|k: int| 0 <= k < r1.len() && #[trigger] accepts(r1[k], user, device_a, token_a);
    assert(accepts(r2[k], user, device_a, token_a));
    assert(has_live(r2, user, device_a));
    lemma_live_count(r2, user, device_a);
    lemma_logout_ends_refresh(r2, user, device_a, token_a);
    lemma_logout_keeps_other_devices(r2, user, device_a, device_b, token_b);
}

/// Two logins of the same user on the same device, applied atomically in
/// either order, end with exactly one active session for the device,
/// holding the token of whichever login came last, and add at most one row.
pub proof fn lemma_concurrent_logins(
    rows: Seq<SessionView>,
    user: u128,
    device: Seq<char>,
    token1: Seq<char>,
    token2: Seq<char>,
    user_agent: Option<Seq<char>>,
    ip_address: Option<Seq<char>>,
    now: i64,
)
    requires
        sessions_wf(rows),
    ensures
        ({
            let a = upserted(
                upserted(rows, user, device, token1, user_agent, ip_address, now),
                user,
                device,
                token2,
                user_agent,
                ip_address,
                now,
            );
            let b = upserted(
                upserted(rows, user, device, token2, user_agent, ip_address, now),
                user,
                device,
                token1,
                user_agent,
                ip_address,
                now,
            );
            &&& live_count(a, user, device) == 1
            &&& live_count(b, user, device) == 1
            &&& forall|i: int|
                0 <= i < a.len() && #[trigger] is_live(a[i], user, device) ==> a[i].refresh_token
                    == token2
            &&& forall|i: int|
                0 <= i < b.len() && #[trigger] is_live(b[i], user, device) ==> b[i].refresh_token
                    == token1
            &&& a.len() == b.len()
            &&& a.len() <= rows.len() + 1
        }),
{
    let a1 = upserted(rows, user, device, token1, user_agent, ip_address, now);
    let b1 = upserted(rows, user, device, token2, user_agent, ip_address, now);
    lemma_login_leaves_one_active(rows, user, device, token1, user_agent, ip_address, now);
    lemma_login_leaves_one_active(rows, user, device, token2, user_agent, ip_address, now);
    lemma_login_leaves_one_active(a1, user, device, token2, user_agent, ip_address, now);
    lemma_login_leaves_one_active(b1, user, device, token1, user_agent, ip_address, now);
    lemma_live_count(a1, user, device);
    lemma_live_count(b1, user, device);
}

// ---------------------------------------------------------------------------
// In-memory store

fn copy_text_opt(o: &Option<String>) -> (r: Option<String>)
    ensures
        text_opt(r) == text_opt(*o),
{
    match o {
        Some(s) => Some(s.clone()),
        None => None,
    }
}

/// A session table held in memory. Every operation is one atomic step on
/// the table, as the storage layer's conditional writes are.
pub struct SessionStore {
    rows: Vec<UserSession>,
}

impl View for SessionStore {
    type V = Seq<SessionView>;

    closed spec fn view(&self) -> Seq<SessionView> {
        self.rows@.map_values(|r: UserSession| r@)
    }
}

impl SessionStore {
    /// The store's invariant: no two active rows share a (user, device).
    pub open spec fn wf(&self) -> bool {
        sessions_wf(self@)
    }

    /// An empty table.
    pub fn new() -> (r: SessionStore)
        ensures
            r.wf(),
            r@ == Seq::<SessionView>::empty(),
    {
        let r = SessionStore { rows: Vec::new() };
        assert(r@ =~= Seq::<SessionView>::empty());
        r
    }

    /// The number of rows, active or revoked.
    pub fn len(&self) -> (r: usize)
        ensures
            r == self@.len(),
    {
        self.rows.len()
    }

    /// The number of active rows of `user_id` on `device_id`.
    pub fn active_count(&self, user_id: u128, device_id: &str) -> (r: usize)
        ensures
            r == live_count(self@, user_id, device_id@),
    {
        let device = device_id.to_owned();
        let ghost rows = self@;
        let mut count: usize = 0;
        let mut i: usize = 0;
        while i < self.rows.len()
            invariant
                rows == self@,
                rows.len() == self.rows@.len(),
                i <= rows.len(),
                device@ == device_id@,
                count == live_count(rows.subrange(0, i as int), user_id, device_id@),
                count <= i,
            decreases rows.len() - i,
        {
            let row = &self.rows[i];
            assert(rows.subrange(0, i + 1).drop_last() =~= rows.subrange(0, i as int));
            assert(rows[i as int] == row@);
            if !row.revoked && row.user_id == user_id && row.device_id == device {
                count = count + 1;
            }
            i = i + 1;
        }
        assert(rows.subrange(0, rows.len() as int) =~= rows);
        count
    }

    /// Records a login of `user_id` on `device_id`: rotates that pair's
    /// active row to the new refresh token and client details if there is
    /// one, else adds an active row.
    pub fn upsert_active_session(
        &mut self,
        user_id: u128,
        device_id: String,
        refresh_token: String,
        user_agent: Option<String>,
        ip_address: Option<String>,
        now: i64,
    )
        requires
            old(self).wf(),
        ensures
            final(self).wf(),
            final(self)@ == upserted(
                old(self)@,
                user_id,
                device_id@,
                refresh_token@,
                text_opt(user_agent),
                text_opt(ip_address),
                now,
            ),
    {
        let ghost rows = self@;
        let ghost goal = upserted(
            rows,
            user_id,
            device_id@,
            refresh_token@,
            text_opt(user_agent),
            text_opt(ip_address),
            now,
        );
        proof {
            lemma_upserted_wf(rows, user_id, device_id@, refresh_token@, text_opt(user_agent), text_opt(ip_address), now);
        }
        let n = self.rows.len();
        let mut i: usize = 0;
        while i < n
            invariant
                n == self.rows@.len(),
                rows == self@,
                rows == old(self)@,
                rows.len() == n,
                i <= n,
                sessions_wf(rows),
                sessions_wf(goal),
                goal == upserted(
                    rows,
                    user_id,
                    device_id@,
                    refresh_token@,
                    text_opt(user_agent),
                    text_opt(ip_address),
                    now,
                ),
                forall|j: int| 0 <= j < i ==> !#[trigger] is_live(rows[j], user_id, device_id@),
            decreases n - i,
        {
            assert(rows[i as int] == self.rows@[i as int]@);
            if !self.rows[i].revoked && self.rows[i].user_id == user_id && self.rows[i].device_id
                == device_id {
                let row = UserSession {
                    id: self.rows[i].id,
                    user_id,
                    device_id: self.rows[i].device_id.clone(),
                    refresh_token,
                    user_agent,
                    ip_address,
                    created_at: self.rows[i].created_at,
                    last_used_at: now,
                    revoked: false,
                };
                proof {
                    assert(is_live(rows[i as int], user_id, device_id@));
                    assert forall|j: int| 0 <= j < n && j != i implies !#[trigger] is_live(
                        rows[j],
                        user_id,
                        device_id@,
                    ) by {
                        if is_live(rows[j], user_id, device_id@) {
                            assert(is_live(rows[i as int], rows[j].user_id, rows[j].device_id));
                        }
                    }
                }
                self.rows.set(i, row);
                assert(self@ =~= goal);
                return;
            }
            i = i + 1;
        }
        let row = UserSession {
            id: n as u128,
            user_id,
            device_id,
            refresh_token,
            user_agent,
            ip_address,
            created_at: now,
            last_used_at: now,
            revoked: false,
        };
        self.rows.push(row);
        assert(self@ =~= goal);
    }

    /// The active session of `user_id` on `device_id` that holds exactly
    /// `refresh_token`, if any.
    pub fn find_active_session(&self, user_id: u128, device_id: &str, refresh_token: &str) -> (r:
        Option<&UserSession>)
        requires
            self.wf(),
        ensures
            match r {
                Some(s) => found_session(self@, user_id, device_id@, refresh_token@) == Some(s@),
                None => found_session(self@, user_id, device_id@, refresh_token@) is None,
            },
    {
        let device = device_id.to_owned();
        let token = refresh_token.to_owned();
        let ghost rows = self@;
        let mut i: usize = 0;
        while i < self.rows.len()
            invariant
                rows == self@,
                rows.len() == self.rows@.len(),
                i <= rows.len(),
                device@ == device_id@,
                token@ == refresh_token@,
                sessions_wf(rows),
                forall|j: int| 0 <= j < i ==> !#[trigger] accepts(rows[j], user_id, device_id@, refresh_token@),
            decreases rows.len() - i,
        {
            let row = &self.rows[i];
            assert(rows[i as int] == row@);
            if !row.revoked && row.user_id == user_id && row.device_id == device
                && row.refresh_token == token {
                proof {
                    assert(accepts(rows[i as int], user_id, device_id@, refresh_token@));
                    let k = choose|k: int|
                        0 <= k < rows.len() && #[trigger] accepts(rows[k], user_id, device_id@, refresh_token@);
                    if k != i {
                        assert(is_live(rows[k], rows[i as int].user_id, rows[i as int].device_id));
                        assert(is_live(rows[i as int], rows[i as int].user_id, rows[i as int].device_id));
                    }
                }
                return Some(row);
            }
            i = i + 1;
        }
        None
    }

    /// Records a logout of `user_id` on `device_id`: every row of the pair is
    /// revoked. Succeeds whether or not there was such a row.
    pub fn revoke(&mut self, user_id: u128, device_id: &str)
        requires
            old(self).wf(),
        ensures
            final(self).wf(),
            final(self)@ == revoked_all(old(self)@, user_id, device_id@),
    {
        let device = device_id.to_owned();
        let ghost rows = self@;
        let ghost goal = revoked_all(rows, user_id, device_id@);
        proof {
            lemma_revoked_all_wf(rows, user_id, device_id@);
        }
        let n = self.rows.len();
        let mut i: usize = 0;
        while i < n
            invariant
                n == self.rows@.len(),
                rows.len() == n,
                i <= n,
                device@ == device_id@,
                sessions_wf(goal),
                goal == revoked_all(rows, user_id, device_id@),
                forall|j: int| 0 <= j < i ==> #[trigger] self@[j] == goal[j],
                forall|j: int| i <= j < n ==> #[trigger] self@[j] == rows[j],
                sessions_wf(self@),
            decreases n - i,
        {
            assert(self@[i as int] == self.rows@[i as int]@);
            if self.rows[i].user_id == user_id && self.rows[i].device_id == device {
                let row = UserSession {
                    id: self.rows[i].id,
                    user_id: self.rows[i].user_id,
                    device_id: self.rows[i].device_id.clone(),
                    refresh_token: self.rows[i].refresh_token.clone(),
                    user_agent: copy_text_opt(&self.rows[i].user_agent),
                    ip_address: copy_text_opt(&self.rows[i].ip_address),
                    created_at: self.rows[i].created_at,
                    last_used_at: self.rows[i].last_used_at,
                    revoked: true,
                };
                let ghost before = self@;
                self.rows.set(i, row);
                proof {
                    let after = self@;
                    assert(after[i as int] == goal[i as int]);
                    assert forall|j: int| 0 <= j < n && j != i implies #[trigger] after[j] == before[j] by {
                    }
                    assert forall|a: int, b: int|
                        0 <= a < after.len() && 0 <= b < after.len() && a != b && #[trigger] is_live(
                            after[a],
                            after[b].user_id,
                            after[b].device_id,
                        ) implies !#[trigger] is_live(after[b], after[b].user_id, after[b].device_id) by {
                        if b != i {
                            assert(is_live(before[a], before[b].user_id, before[b].device_id));
                        }
                    }
                }
            }
            i = i + 1;
        }
        assert(self@ =~= goal);
    }
}

} // verus!
