//! The login-session table for the native device flow.
//!
//! Starting a login begins a device authorization with the identity provider and
//! stashes its device code (plus the token endpoint to poll and the caller's
//! client state) under a fresh session code returned to the client. Polling looks
//! the session back up by that code, checks that the client state matches, and
//! polls the provider. Sessions are short-lived and only matter mid-login, so
//! they are kept in memory: a restart just means that the user logs in again.
use std::time::{Duration, Instant};
use vstd::prelude::*;

use crate::clock::{elapsed_since, instant, is_instant, is_time_since, nanos_of};
use crate::table::Table;
use crate::text::same_text;

verus! {

/// A login in progress. Times are nanoseconds since the table was made.
#[derive(Debug)]
pub struct Session {
    pub device_code: String,
    pub token_endpoint: String,
    pub client_state: String,
    pub expires_at: u128,
}

impl Session {
    pub open spec fn is_live(&self, now: u128) -> bool {
        now < self.expires_at
    }

    /// Whether the session is live at `now`.
    pub fn live_at(&self, now: u128) -> (r: bool)
        ensures
            r == self.is_live(now),
    {
        now < self.expires_at
    }
}

/// The sessions that are still live at `now`.
pub open spec fn live(m: Map<Seq<char>, Session>, now: u128) -> Map<Seq<char>, Session> {
    Map::new(|k: Seq<char>| m.contains_key(k) && m[k].is_live(now), |k: Seq<char>| m[k])
}

/// When a session that starts at `now` and lives for `ttl` nanoseconds expires:
/// at the end of the clock's range, where it would live beyond it.
pub open spec fn expiry(now: u128, ttl: nat) -> u128 {
    if now + ttl > u128::MAX {
        u128::MAX
    } else {
        (now + ttl) as u128
    }
}

/// What a poll for a session finds at `now`: its device code and token endpoint,
/// where it is live and the client state matches.
pub open spec fn found(
    m: Map<Seq<char>, Session>,
    session_code: Seq<char>,
    client_state: Seq<char>,
    now: u128,
) -> Option<(String, String)> {
    if live(m, now).contains_key(session_code) && m[session_code].client_state@ == client_state {
        Some((m[session_code].device_code, m[session_code].token_endpoint))
    } else {
        None
    }
}

/// The sessions by their session code.
#[derive(Debug)]
pub struct Sessions {
    started: Instant,
    table: Table<Session>,
}

impl View for Sessions {
    type V = Map<Seq<char>, Session>;

    closed spec fn view(&self) -> Map<Seq<char>, Session> {
        self.table@
    }
}

impl Sessions {
    pub closed spec fn wf(&self) -> bool {
        self.table.wf()
    }

    /// When the table was made: where its clock starts.
    pub closed spec fn origin(&self) -> Instant {
        self.started
    }

    /// An empty table.
    pub fn new() -> (r: Self)
        ensures
            r.wf(),
            r@ == Map::<Seq<char>, Session>::empty(),
            is_instant(r.origin()),
    {
        Sessions { started: instant(), table: Table::new() }
    }

    /// The time on this table's clock: the nanoseconds of the time measured since
    /// it was made. Nothing is claimed of the measure.
    pub fn now(&self) -> (r: u128)
        ensures
            is_time_since(self.origin(), r),
            exists|elapsed: Duration| r == #[trigger] nanos_of(elapsed),
    {
        elapsed_since(&self.started).as_nanos()
    }

    /// Drop the sessions that are not live at `now`.
    pub fn sweep(&mut self, now: u128)
        requires
            old(self).wf(),
        ensures
            final(self).wf(),
            final(self).origin() == old(self).origin(),
            final(self)@ == live(old(self)@, now),
    {
        let keep = |s: &Session| -> (r: bool)
            ensures
                r == s.is_live(now),
        { s.live_at(now) };
        self.table.retain(keep);
    }

    /// Record a session that starts at `now` and lives for `ttl`, and drop the
    /// expired ones.
    pub fn insert_at(
        &mut self,
        session_code: String,
        device_code: String,
        token_endpoint: String,
        client_state: String,
        ttl: Duration,
        now: u128,
    )
        requires
            old(self).wf(),
        ensures
            final(self).wf(),
            final(self).origin() == old(self).origin(),
            final(self)@ == live(old(self)@, now).insert(
                session_code@,
                (Session {
                    device_code,
                    token_endpoint,
                    client_state,
                    expires_at: expiry(now, nanos_of(ttl)),
                }),
            ),
    {
        self.sweep(now);
        let expires_at: u128 = now.saturating_add(ttl.as_nanos());
        self.table.insert(
            session_code,
            Session { device_code, token_endpoint, client_state, expires_at },
        );
    }

    /// Record a session that starts now and lives for `ttl`.
    pub fn insert(
        &mut self,
        session_code: String,
        device_code: String,
        token_endpoint: String,
        client_state: String,
        ttl: Duration,
    )
        requires
            old(self).wf(),
        ensures
            final(self).wf(),
            final(self).origin() == old(self).origin(),
            exists|now: u128|
                is_time_since(old(self).origin(), now) && final(self)@ == (#[trigger] live(
                    old(self)@,
                    now,
                )).insert(
                    session_code@,
                    (Session {
                        device_code,
                        token_endpoint,
                        client_state,
                        expires_at: expiry(now, nanos_of(ttl)),
                    }),
                ),
    {
        let now: u128 = self.now();
        self.insert_at(session_code, device_code, token_endpoint, client_state, ttl, now);
    }

    /// The `(device_code, token_endpoint)` of a session that is live at `now` and
    /// whose `client_state` matches. Expired sessions are dropped.
    pub fn resolve_at(&mut self, session_code: &str, client_state: &str, now: u128) -> (r: Option<
        (String, String),
    >)
        requires
            old(self).wf(),
        ensures
            final(self).wf(),
            final(self).origin() == old(self).origin(),
            final(self)@ == live(old(self)@, now),
            r == found(old(self)@, session_code@, client_state@, now),
    {
        self.sweep(now);
        match self.table.get(session_code) {
            Some(s) => if same_text(s.client_state.as_str(), client_state) {
                Some((s.device_code.clone(), s.token_endpoint.clone()))
            } else {
                None
            },
            None => None,
        }
    }

    /// The `(device_code, token_endpoint)` for a live session whose
    /// `client_state` matches. `None` if the session is unknown, expired, or the
    /// client state does not match (which binds the poll to the caller that
    /// started it).
    pub fn resolve(&mut self, session_code: &str, client_state: &str) -> (r: Option<
        (String, String),
    >)
        requires
            old(self).wf(),
        ensures
            final(self).wf(),
            final(self).origin() == old(self).origin(),
            exists|now: u128|
                is_time_since(old(self).origin(), now) && (#[trigger] live(old(self)@, now))
                    == final(self)@ && r == found(
                    old(self)@,
                    session_code@,
                    client_state@,
                    now,
                ),
    {
        let now: u128 = self.now();
        self.resolve_at(session_code, client_state, now)
    }

    /// Forget a session.
    pub fn remove(&mut self, session_code: &str)
        requires
            old(self).wf(),
        ensures
            final(self).wf(),
            final(self).origin() == old(self).origin(),
            final(self)@ == old(self)@.remove(session_code@),
    {
        let _gone = self.table.remove(session_code);
    }
}

/// A session resolves, with the client state it was started with, from its start
/// until it expires, to what it was started with.
pub proof fn live_session_resolves(
    m: Map<Seq<char>, Session>,
    session_code: Seq<char>,
    session: Session,
    started: u128,
    now: u128,
)
    requires
        now < session.expires_at,
    ensures
        found(
            live(m, started).insert(session_code, session),
            session_code,
            session.client_state@,
            now,
        ) == Some((session.device_code, session.token_endpoint)),
{
}

/// A session resolves for no other client state than its own, at no time.
pub proof fn other_client_state_never_resolves(
    m: Map<Seq<char>, Session>,
    session_code: Seq<char>,
    client_state: Seq<char>,
    now: u128,
)
    requires
        m.contains_key(session_code) ==> m[session_code].client_state@ != client_state,
    ensures
        found(m, session_code, client_state, now) is None,
{
}

/// An expired session does not resolve, whether or not it was swept.
pub proof fn expired_session_never_resolves(
    m: Map<Seq<char>, Session>,
    session_code: Seq<char>,
    client_state: Seq<char>,
    now: u128,
)
    requires
        m.contains_key(session_code) ==> m[session_code].expires_at <= now,
    ensures
        found(m, session_code, client_state, now) is None,
{
}

/// A session without a lifetime is expired from the start.
pub proof fn session_without_lifetime_is_expired(now: u128, later: u128)
    requires
        now <= later,
    ensures
        expiry(now, 0) <= later,
{
}

/// A removed session does not resolve; another session is not affected.
pub proof fn removed_session_never_resolves(
    m: Map<Seq<char>, Session>,
    session_code: Seq<char>,
    other: Seq<char>,
    client_state: Seq<char>,
    now: u128,
)
    ensures
        found(m.remove(session_code), session_code, client_state, now) is None,
        other != session_code ==> found(m.remove(session_code), other, client_state, now) == found(
            m,
            other,
            client_state,
            now,
        ),
{
}

/// Sweeping the table never changes what a later poll finds: only sessions that
/// could not resolve any more are dropped.
pub proof fn sweeping_changes_no_poll(
    m: Map<Seq<char>, Session>,
    swept: u128,
    session_code: Seq<char>,
    client_state: Seq<char>,
    now: u128,
)
    requires
        swept <= now,
    ensures
        found(live(m, swept), session_code, client_state, now) == found(
            m,
            session_code,
            client_state,
            now,
        ),
{
}

/// Recording a session leaves the polls for the others as they are.
pub proof fn recording_leaves_the_other_sessions(
    m: Map<Seq<char>, Session>,
    session_code: Seq<char>,
    session: Session,
    started: u128,
    other: Seq<char>,
    client_state: Seq<char>,
    now: u128,
)
    requires
        started <= now,
        other != session_code,
    ensures
        found(live(m, started).insert(session_code, session), other, client_state, now) == found(
            m,
            other,
            client_state,
            now,
        ),
{
}

/// A poll finds a session that is there, live and polled with its own client state, as
/// it was recorded; and nothing else.
pub proof fn poll_finds_the_session(
    m: Map<Seq<char>, Session>,
    session_code: Seq<char>,
    client_state: Seq<char>,
    now: u128,
)
    ensures
        found(m, session_code, client_state, now) is Some <==> m.contains_key(session_code) && now
            < m[session_code].expires_at && m[session_code].client_state@ == client_state,
        found(m, session_code, client_state, now) matches Some((device_code, token_endpoint))
            ==> device_code == m[session_code].device_code && token_endpoint
            == m[session_code].token_endpoint,
{
}

/// What is swept is what has expired, and nothing else.
pub proof fn only_expired_sessions_are_swept(
    m: Map<Seq<char>, Session>,
    now: u128,
    session_code: Seq<char>,
)
    ensures
        live(m, now).contains_key(session_code) <==> m.contains_key(session_code) && now
            < m[session_code].expires_at,
        live(m, now).contains_key(session_code) ==> live(m, now)[session_code] == m[session_code],
{
}

/// A session lives as long as it was given: no shorter and no longer, but that nothing
/// lives beyond the clock's range.
pub proof fn session_lives_its_time(now: u128, ttl: nat)
    ensures
        now + ttl <= u128::MAX ==> expiry(now, ttl) == now + ttl,
        now + ttl > u128::MAX ==> expiry(now, ttl) == u128::MAX,
{
}

}
