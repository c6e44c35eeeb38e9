//! Server-side sessions and logins in flight.
use vstd::prelude::*;

use crate::table::Table;

verus! {

/// The seconds that a login may stay in flight.
pub const PENDING_TTL: i64 = 600;

/// A logged-in user. Times are seconds since the Unix epoch.
#[derive(Debug)]
pub struct Session {
    pub token: String,
    pub user_name: String,
    pub sub: String,
    pub expires_at: i64,
}

/// A login in flight.
#[derive(Debug)]
pub struct Pending {
    pub verifier: String,
    pub expires_at: i64,
}

impl Session {
    fn live_at(&self, now: i64) -> (r: bool)
        ensures
            r == (self.expires_at > now),
    {
        self.expires_at > now
    }
}

impl Pending {
    fn live_at(&self, now: i64) -> (r: bool)
        ensures
            r == (self.expires_at > now),
    {
        self.expires_at > now
    }
}

/// The sessions that are still live at `now`.
pub open spec fn live_sessions(m: Map<Seq<char>, Session>, now: i64) -> Map<Seq<char>, Session> {
    Map::new(|k: Seq<char>| m.contains_key(k) && m[k].expires_at > now, |k: Seq<char>| m[k])
}

/// The logins that are still live at `now`.
pub open spec fn live_pending(m: Map<Seq<char>, Pending>, now: i64) -> Map<Seq<char>, Pending> {
    Map::new(|k: Seq<char>| m.contains_key(k) && m[k].expires_at > now, |k: Seq<char>| m[k])
}

/// The time `secs` after `now`, or the end of the clock's range where that lies
/// beyond it.
pub open spec fn after(now: i64, secs: int) -> i64 {
    if now + secs > i64::MAX {
        i64::MAX
    } else {
        (now + secs) as i64
    }
}

/// The time `secs` after `now`, or the end of the clock's range where that lies
/// beyond it.
pub fn later(now: i64, secs: i64) -> (r: i64)
    requires
        secs >= 0,
    ensures
        r == after(now, secs as int),
{
    if now > i64::MAX - secs {
        i64::MAX
    } else {
        now + secs
    }
}

/// What a store holds.
#[verifier::ext_equal]
pub struct StoreView {
    /// Sessions by their id.
    pub sessions: Map<Seq<char>, Session>,
    /// Logins in flight by their state.
    pub pending: Map<Seq<char>, Pending>,
}

/// The store after a login started.
pub open spec fn with_login(
    v: StoreView,
    state: Seq<char>,
    verifier: String,
    now: i64,
) -> StoreView {
    StoreView {
        pending: live_pending(v.pending, now).insert(
            state,
            Pending { verifier, expires_at: after(now, PENDING_TTL as int) },
        ),
        ..v
    }
}

/// The verifier of a login that is in flight at `now`.
pub open spec fn verifier_of(v: StoreView, state: Seq<char>, now: i64) -> Option<String> {
    if v.pending.contains_key(state) && v.pending[state].expires_at > now {
        Some(v.pending[state].verifier)
    } else {
        None
    }
}

/// The store after a login was taken up.
pub open spec fn without_login(v: StoreView, state: Seq<char>) -> StoreView {
    StoreView { pending: v.pending.remove(state), ..v }
}

/// The store after a session was created.
pub open spec fn with_session(v: StoreView, id: Seq<char>, session: Session, now: i64) -> StoreView {
    StoreView { sessions: live_sessions(v.sessions, now).insert(id, session), ..v }
}

/// The store after a session was removed.
pub open spec fn without_session(v: StoreView, id: Seq<char>) -> StoreView {
    StoreView { sessions: v.sessions.remove(id), ..v }
}

/// The `(token, user_name, sub)` of a session that is live at `now`.
pub open spec fn session_of(v: StoreView, id: Seq<char>, now: i64) -> Option<
    (String, String, String),
> {
    if v.sessions.contains_key(id) && v.sessions[id].expires_at > now {
        Some((v.sessions[id].token, v.sessions[id].user_name, v.sessions[id].sub))
    } else {
        None
    }
}

/// The sessions and the logins in flight.
#[derive(Debug)]
pub struct Store {
    sessions: Table<Session>,
    pending: Table<Pending>,
}

impl View for Store {
    type V = StoreView;

    closed spec fn view(&self) -> StoreView {
        StoreView { sessions: self.sessions@, pending: self.pending@ }
    }
}

impl Store {
    pub closed spec fn wf(&self) -> bool {
        self.sessions.wf() && self.pending.wf()
    }

    /// A store without sessions and logins.
    pub fn new() -> (r: Self)
        ensures
            r.wf(),
            r@.sessions == Map::<Seq<char>, Session>::empty(),
            r@.pending == Map::<Seq<char>, Pending>::empty(),
    {
        Store { sessions: Table::new(), pending: Table::new() }
    }

    /// Record a login that starts at `now`, and drop the expired ones.
    pub fn start_login(&mut self, state: String, verifier: String, now: i64)
        requires
            old(self).wf(),
        ensures
            final(self).wf(),
            final(self)@ == with_login(old(self)@, state@, verifier, now),
    {
        let keep = |p: &Pending| -> (r: bool)
            ensures
                r == (p.expires_at > now),
        { p.live_at(now) };
        self.pending.retain(keep);
        let expires_at: i64 = later(now, PENDING_TTL);
        self.pending.insert(state, Pending { verifier, expires_at });
    }

    /// The verifier of a login that is in flight at `now`. A login can be taken
    /// up once.
    pub fn take_pending(&mut self, state: &str, now: i64) -> (r: Option<String>)
        requires
            old(self).wf(),
        ensures
            final(self).wf(),
            final(self)@ == without_login(old(self)@, state@),
            r == verifier_of(old(self)@, state@, now),
    {
        match self.pending.remove(state) {
            Some(p) => if p.expires_at > now {
                Some(p.verifier)
            } else {
                None
            },
            None => None,
        }
    }

    /// Record a session, and drop those that are expired at `now`.
    pub fn create(&mut self, id: String, session: Session, now: i64)
        requires
            old(self).wf(),
        ensures
            final(self).wf(),
            final(self)@ == with_session(old(self)@, id@, session, now),
    {
        let keep = |s: &Session| -> (r: bool)
            ensures
                r == (s.expires_at > now),
        { s.live_at(now) };
        self.sessions.retain(keep);
        self.sessions.insert(id, session);
    }

    /// Returns `(token, user_name, sub)` for a session that is live at `now`.
    pub fn get(&self, id: &str, now: i64) -> (r: Option<(String, String, String)>)
        requires
            self.wf(),
        ensures
            r == session_of(self@, id@, now),
    {
        match self.sessions.get(id) {
            Some(s) => if s.live_at(now) {
                Some((s.token.clone(), s.user_name.clone(), s.sub.clone()))
            } else {
                None
            },
            None => None,
        }
    }

    /// Forget a session.
    pub fn remove(&mut self, id: &str)
        requires
            old(self).wf(),
        ensures
            final(self).wf(),
            final(self)@ == without_session(old(self)@, id@),
    {
        let _gone = self.sessions.remove(id);
    }
}

/// A login can be taken up with its state until its time is over.
pub proof fn started_login_can_be_taken_up(
    v: StoreView,
    state: Seq<char>,
    verifier: String,
    now: i64,
    later: i64,
)
    requires
        later < after(now, PENDING_TTL as int),
    ensures
        verifier_of(with_login(v, state, verifier, now), state, later) == Some(verifier),
{
}

/// A login cannot be taken up once its time is over.
pub proof fn expired_login_is_gone(
    v: StoreView,
    state: Seq<char>,
    verifier: String,
    now: i64,
    later: i64,
)
    requires
        later >= after(now, PENDING_TTL as int),
    ensures
        verifier_of(with_login(v, state, verifier, now), state, later) is None,
{
}

/// A login can be taken up once only.
pub proof fn login_is_taken_up_once(v: StoreView, state: Seq<char>, now: i64)
    ensures
        verifier_of(without_login(v, state), state, now) is None,
{
}

/// A session is found until it expires.
pub proof fn created_session_is_found(
    v: StoreView,
    id: Seq<char>,
    session: Session,
    now: i64,
    later: i64,
)
    ensures
        session_of(with_session(v, id, session, now), id, later) == if session.expires_at > later {
            Some((session.token, session.user_name, session.sub))
        } else {
            None
        },
{
}

/// A removed session is not found.
pub proof fn removed_session_is_gone(v: StoreView, id: Seq<char>, now: i64)
    ensures
        session_of(without_session(v, id), id, now) is None,
{
}

/// Dropping expired sessions and logins changes nothing that is found from then
/// on.
pub proof fn dropping_the_expired_is_not_seen(
    v: StoreView,
    id: Seq<char>,
    session: Session,
    state: Seq<char>,
    verifier: String,
    now: i64,
    other: Seq<char>,
    later: i64,
)
    requires
        now <= later,
    ensures
        other != id ==> session_of(with_session(v, id, session, now), other, later) == session_of(
            v,
            other,
            later,
        ),
        other != state ==> verifier_of(with_login(v, state, verifier, now), other, later)
            == verifier_of(v, other, later),
{
}

/// Taking up a login takes that one away, and leaves the others to be taken up; it
/// touches no session.
pub proof fn taking_up_leaves_the_others(
    v: StoreView,
    state: Seq<char>,
    other: Seq<char>,
    later: i64,
)
    ensures
        !without_login(v, state).pending.contains_key(state),
        other != state ==> {
            &&& without_login(v, state).pending.contains_key(other) == v.pending.contains_key(other)
            &&& v.pending.contains_key(other) ==> without_login(v, state).pending[other]
                == v.pending[other]
            &&& verifier_of(without_login(v, state), other, later) == verifier_of(v, other, later)
        },
        without_login(v, state).sessions == v.sessions,
{
}

/// A login in flight has the verifier that it was recorded with while its time is not
/// over, and none from then on.
pub proof fn login_in_flight_has_its_verifier(v: StoreView, state: Seq<char>, now: i64)
    ensures
        v.pending.contains_key(state) && now < v.pending[state].expires_at ==> verifier_of(
            v,
            state,
            now,
        ) == Some(v.pending[state].verifier),
        v.pending.contains_key(state) && v.pending[state].expires_at <= now ==> verifier_of(
            v,
            state,
            now,
        ) is None,
        !v.pending.contains_key(state) ==> verifier_of(v, state, now) is None,
{
}

/// Starting a login puts it in flight for ten minutes, and leaves the others, and the
/// sessions, as they are.
pub proof fn started_login_is_in_flight_for_ten_minutes(
    v: StoreView,
    state: Seq<char>,
    verifier: String,
    now: i64,
    other: Seq<char>,
    later: i64,
)
    requires
        now <= later,
    ensures
        later < now + 600 && later < i64::MAX ==> verifier_of(
            with_login(v, state, verifier, now),
            state,
            later,
        ) == Some(verifier),
        now + 600 <= later ==> verifier_of(with_login(v, state, verifier, now), state, later)
            is None,
        other != state ==> verifier_of(with_login(v, state, verifier, now), other, later)
            == verifier_of(v, other, later),
        with_login(v, state, verifier, now).sessions == v.sessions,
{
}

/// A session that is in the store is found, with its token, user name and subject,
/// until it expires; one that is not there is not.
pub proof fn session_is_found_as_it_was_recorded(v: StoreView, id: Seq<char>, now: i64)
    ensures
        v.sessions.contains_key(id) && now < v.sessions[id].expires_at ==> session_of(v, id, now)
            == Some((v.sessions[id].token, v.sessions[id].user_name, v.sessions[id].sub)),
        v.sessions.contains_key(id) && v.sessions[id].expires_at <= now ==> session_of(v, id, now)
            is None,
        !v.sessions.contains_key(id) ==> session_of(v, id, now) is None,
{
}

/// Creating or removing a session leaves the other sessions, and the logins in flight,
/// as they are.
pub proof fn sessions_do_not_disturb_each_other(
    v: StoreView,
    id: Seq<char>,
    session: Session,
    now: i64,
    other: Seq<char>,
    later: i64,
)
    requires
        now <= later,
        other != id,
    ensures
        session_of(with_session(v, id, session, now), other, later) == session_of(v, other, later),
        session_of(without_session(v, id), other, later) == session_of(v, other, later),
        with_session(v, id, session, now).pending == v.pending,
        without_session(v, id).pending == v.pending,
        with_session(v, id, session, now).sessions.contains_key(id),
        with_session(v, id, session, now).sessions[id] == session,
        !without_session(v, id).sessions.contains_key(id),
{
}

/// What is swept is what has expired, and nothing else.
pub proof fn only_the_expired_are_swept(
    sessions: Map<Seq<char>, Session>,
    pending: Map<Seq<char>, Pending>,
    now: i64,
    k: Seq<char>,
)
    ensures
        live_sessions(sessions, now).contains_key(k) <==> sessions.contains_key(k) && now
            < sessions[k].expires_at,
        live_sessions(sessions, now).contains_key(k) ==> live_sessions(sessions, now)[k]
            == sessions[k],
        live_pending(pending, now).contains_key(k) <==> pending.contains_key(k) && now
            < pending[k].expires_at,
        live_pending(pending, now).contains_key(k) ==> live_pending(pending, now)[k] == pending[k],
{
}

/// A later time is as many seconds later, where the clock's range allows.
pub proof fn later_is_that_many_seconds_later(now: i64, secs: int)
    requires
        i64::MIN <= now + secs,
    ensures
        now + secs <= i64::MAX ==> after(now, secs) == now + secs,
        now + secs > i64::MAX ==> after(now, secs) == i64::MAX,
{
}

}
