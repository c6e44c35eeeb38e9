//! What the browser is answered.
use serde_json::Value;
use vstd::prelude::*;

use crate::encoding::{
    are_drawn, base64url, draw_bytes, draw_number, id_from, id_of, is_drawn,
};
use crate::json::{json_text, members, object_value, text_value, value_text, Json};
use crate::text::{
    after_prefix, chars_of, opt_text, push_signed_decimal, signed_decimal, strip_prefix,
    trim_range, trimmed,
};
use crate::web::authsvc::Issued;
use crate::web::oidc::{challenge_of, code_challenge, verifier_from};
use crate::web::sessions::{
    after, later, session_of, verifier_of, with_login, with_session, without_login,
    without_session, Session, Store, StoreView,
};

verus! {

/// The name of the session cookie, with the sign before its value.
pub const COOKIE_PREFIX: &'static str = "kw_session=";

/// What follows the value of the session cookie.
pub const COOKIE_ATTRIBUTES: &'static str =
    "; HttpOnly; Secure; SameSite=Lax; Path=/; Max-Age=";

/// Where the browser is sent after a login that failed.
pub const LOGIN_FAILED: &'static str = "/?login=failed";

/// The seconds that a session lives whose token says no later end.
pub const SESSION_SECS: i64 = 3600;

/// An answer that sends the browser elsewhere, and may set a cookie.
#[derive(Debug)]
pub struct Redirect {
    pub location: String,
    pub set_cookie: Option<String>,
}

/// Where a redirect goes and what cookie it sets.
pub open spec fn redirects(r: Redirect, location: Seq<char>, set_cookie: Option<Seq<char>>) -> bool {
    r.location@ == location && opt_text(r.set_cookie) == set_cookie
}

/// The answer to a login that failed.
pub fn login_failed() -> (r: Redirect)
    ensures
        redirects(r, LOGIN_FAILED@, None),
{
    Redirect { location: LOGIN_FAILED.to_owned(), set_cookie: None }
}

/// Where the first semicolon of a text is, or its end.
pub open spec fn first_semicolon(s: Seq<char>) -> int
    decreases s.len(),
{
    if s.len() == 0 || s[0] == ';' {
        0
    } else {
        1 + first_semicolon(s.drop_first())
    }
}

/// The value of the first of a cookie header's parts that starts with a prefix.
/// Parts are separated by semicolons, and the white space around them is dropped.
pub open spec fn cookie_value(header: Seq<char>, prefix: Seq<char>) -> Option<Seq<char>>
    decreases header.len(),
{
    let i = first_semicolon(header);
    match after_prefix(trimmed(header.take(i)), prefix) {
        Some(value) => Some(value),
        None => if 0 <= i < header.len() {
            cookie_value(header.skip(i + 1), prefix)
        } else {
            None
        },
    }
}

/// The session id in the text of a cookie header.
pub open spec fn session_id_of(header: Option<&str>) -> Option<Seq<char>> {
    match header {
        Some(text) => cookie_value(text@, COOKIE_PREFIX@),
        None => None,
    }
}

proof fn lemma_first_semicolon(s: Seq<char>, i: int)
    requires
        0 <= i <= s.len(),
        forall|k: int| 0 <= k < i ==> s[k] != ';',
        i < s.len() ==> s[i] == ';',
    ensures
        first_semicolon(s) == i,
    decreases s.len(),
{
    if i > 0 {
        lemma_first_semicolon(s.drop_first(), i - 1);
    }
}

/// The session id in the text of a cookie header.
pub fn session_id(header: Option<&str>) -> (r: Option<String>)
    ensures
        opt_text(r) == session_id_of(header),
{
    let text = match header {
        Some(text) => text,
        None => {
            return None;
        },
    };
    let a = chars_of(text);
    let mut from: usize = 0;
    assert(text@.skip(0) =~= text@);
    loop
        invariant
            a@ == text@,
            from <= a@.len(),
            cookie_value(text@, COOKIE_PREFIX@) == cookie_value(
                text@.skip(from as int),
                COOKIE_PREFIX@,
            ),
            header == Some(text),
        decreases a@.len() - from,
    {
        let ghost rest = text@.skip(from as int);
        let mut to: usize = from;
        while to < a.len() && a[to] != ';'
            invariant
                a@ == text@,
                from <= to <= a@.len(),
                forall|k: int| from <= k < to ==> a@[k] != ';',
            decreases a@.len() - to,
        {
            to += 1;
        }
        proof {
            lemma_first_semicolon(rest, to - from);
            assert(rest.take(to - from) =~= a@.subrange(from as int, to as int));
        }
        let (lo, hi) = trim_range(&a, from, to);
        let part = text.substring_char(lo, hi);
        match strip_prefix(part, COOKIE_PREFIX) {
            Some(value) => {
                return Some(value);
            },
            None => {},
        }
        if to == a.len() {
            return None;
        }
        assert(rest.skip(to - from + 1) =~= text@.skip(to + 1));
        from = to + 1;
    }
}

/// A cookie that holds a session id for a time.
pub open spec fn cookie_text(id: Seq<char>, max_age: i64) -> Seq<char> {
    COOKIE_PREFIX@ + id + COOKIE_ATTRIBUTES@ + signed_decimal(max_age as int)
}

/// The cookie that holds a session id for `max_age` seconds.
pub fn session_cookie(id: &str, max_age: i64) -> (r: String)
    ensures
        r@ == cookie_text(id@, max_age),
{
    let mut s = COOKIE_PREFIX.to_owned();
    s.append(id);
    s.append(COOKIE_ATTRIBUTES);
    push_signed_decimal(&mut s, max_age);
    s
}

/// The cookie that clears the session.
pub fn clear_cookie() -> (r: String)
    ensures
        r@ == cookie_text(""@, 0),
{
    session_cookie("", 0)
}

/// The session of a request, by its cookie header: `(token, user_name, sub)`.
pub open spec fn request_session(v: StoreView, header: Option<&str>, now: i64) -> Option<
    (String, String, String),
> {
    match session_id_of(header) {
        Some(id) => session_of(v, id, now),
        None => None,
    }
}

/// The session of a request, by its cookie header: `(token, user_name, sub)`.
pub fn session(store: &Store, header: Option<&str>, now: i64) -> (r: Option<
    (String, String, String),
>)
    requires
        store.wf(),
    ensures
        r == request_session(store@, header, now),
{
    match session_id(header) {
        Some(id) => store.get(id.as_str(), now),
        None => None,
    }
}

/// What a login is begun with.
#[derive(Debug)]
pub struct LoginBegun {
    pub state: String,
    pub challenge: String,
}

/// A login that was begun at `now` from a drawn number and drawn bytes: its state
/// stands for the number, its verifier for the bytes, and the challenge is that
/// of the verifier.
pub open spec fn begun(
    v: StoreView,
    w: StoreView,
    x: u128,
    bytes: [u8; 32],
    now: i64,
    r: LoginBegun,
) -> bool {
    &&& r.state@ == id_of(x)
    &&& r.challenge@ == challenge_of(base64url(bytes@))
    &&& exists|verifier: String|
        verifier@ == base64url(bytes@) && w == #[trigger] with_login(v, id_of(x), verifier, now)
}

/// Begin a login at `now` from a drawn number and drawn bytes.
pub fn begin_login_with(store: &mut Store, x: u128, bytes: &[u8; 32], now: i64) -> (r: LoginBegun)
    requires
        old(store).wf(),
    ensures
        final(store).wf(),
        begun(old(store)@, final(store)@, x, *bytes, now, r),
{
    let state = id_from(x);
    let verifier = verifier_from(bytes);
    let challenge = code_challenge(verifier.as_str());
    store.start_login(state.clone(), verifier, now);
    LoginBegun { state, challenge }
}

/// Begin a login at `now`.
pub fn begin_login(store: &mut Store, now: i64) -> (r: LoginBegun)
    requires
        old(store).wf(),
    ensures
        final(store).wf(),
        exists|x: u128, bytes: [u8; 32]|
            is_drawn(x) && are_drawn(bytes) && #[trigger] begun(
                old(store)@,
                final(store)@,
                x,
                bytes,
                now,
                r,
            ),
{
    let x: u128 = draw_number();
    let bytes = draw_bytes();
    begin_login_with(store, x, &bytes, now)
}

/// What the browser comes back with from the provider.
#[derive(Debug)]
pub struct Callback {
    pub code: Option<String>,
    pub state: Option<String>,
    pub error: Option<String>,
}

/// How a callback goes on.
#[derive(Debug)]
pub enum CallbackStep {
    /// The answer.
    Answer(Redirect),
    /// Exchange the code, with the verifier of the login.
    Exchange { code: String, verifier: String },
}

/// The login that a callback takes up: a code and the state of a login in flight,
/// and no error.
pub fn take_callback(store: &mut Store, q: Callback, now: i64) -> (r: CallbackStep)
    requires
        old(store).wf(),
    ensures
        final(store).wf(),
        match (q.error, q.code, q.state) {
            (None, Some(code), Some(state)) => {
                &&& final(store)@ == without_login(old(store)@, state@)
                &&& match verifier_of(old(store)@, state@, now) {
                    Some(verifier) => r == (CallbackStep::Exchange { code, verifier }),
                    None => r matches CallbackStep::Answer(x) && redirects(x, LOGIN_FAILED@, None),
                }
            },
            _ => {
                &&& final(store)@ == old(store)@
                &&& r matches CallbackStep::Answer(x) && redirects(x, LOGIN_FAILED@, None)
            },
        },
{
    match (q.error, q.code, q.state) {
        (None, Some(code), Some(state)) => match store.take_pending(state.as_str(), now) {
            Some(verifier) => CallbackStep::Exchange { code, verifier },
            None => CallbackStep::Answer(login_failed()),
        },
        _ => CallbackStep::Answer(login_failed()),
    }
}

/// When the session of an issued token ends: with the token, or an hour from now
/// where that is over.
pub open spec fn session_end(expires_at: i64, now: i64) -> i64 {
    if expires_at > now {
        expires_at
    } else {
        after(now, SESSION_SECS as int)
    }
}

/// The seconds from `now` to the end of a session.
pub open spec fn seconds_left(end: i64, now: i64) -> i64 {
    if end - now <= 0 {
        0
    } else if end - now > i64::MAX {
        i64::MAX
    } else {
        (end - now) as i64
    }
}

/// The seconds from `now` to the end of a session.
pub fn max_age(end: i64, now: i64) -> (r: i64)
    ensures
        r == seconds_left(end, now),
{
    if end <= now {
        0
    } else if now < 0 && end > i64::MAX + now {
        i64::MAX
    } else {
        end - now
    }
}

/// The session that an issued token opens at `now`.
pub open spec fn opened(issued: Issued, now: i64) -> Session {
    Session {
        token: issued.token,
        user_name: issued.user_name,
        sub: issued.user_id,
        expires_at: session_end(issued.expires_at, now),
    }
}

/// Open a session at `now` whose id stands for the number `x`.
pub fn open_session(store: &mut Store, issued: Issued, x: u128, now: i64) -> (r: Redirect)
    requires
        old(store).wf(),
    ensures
        final(store).wf(),
        final(store)@ == with_session(old(store)@, id_of(x), opened(issued, now), now),
        redirects(
            r,
            "/"@,
            Some(cookie_text(id_of(x), seconds_left(session_end(issued.expires_at, now), now))),
        ),
{
    let exp: i64 = if issued.expires_at > now {
        issued.expires_at
    } else {
        later(now, SESSION_SECS)
    };
    let sid = id_from(x);
    let cookie = session_cookie(sid.as_str(), max_age(exp, now));
    store.create(
        sid,
        Session {
            token: issued.token,
            user_name: issued.user_name,
            sub: issued.user_id,
            expires_at: exp,
        },
        now,
    );
    Redirect { location: "/".to_owned(), set_cookie: Some(cookie) }
}

/// Finish a callback at `now` once the code was exchanged for a token of the auth
/// service.
pub fn finish_callback(store: &mut Store, exchanged: Result<Issued, String>, now: i64) -> (r:
    Redirect)
    requires
        old(store).wf(),
    ensures
        final(store).wf(),
        match exchanged {
            Ok(issued) => exists|x: u128|
                is_drawn(x) && final(store)@ == with_session(
                    old(store)@,
                    #[trigger] id_of(x),
                    opened(issued, now),
                    now,
                ) && redirects(
                    r,
                    "/"@,
                    Some(
                        cookie_text(
                            id_of(x),
                            seconds_left(session_end(issued.expires_at, now), now),
                        ),
                    ),
                ),
            Err(_) => final(store)@ == old(store)@ && redirects(r, LOGIN_FAILED@, None),
        },
{
    match exchanged {
        Ok(issued) => {
            let x: u128 = draw_number();
            open_session(store, issued, x, now)
        },
        Err(_) => login_failed(),
    }
}

/// Log out: the session is over, and its cookie is cleared.
pub fn logout(store: &mut Store, header: Option<&str>) -> (r: Redirect)
    requires
        old(store).wf(),
    ensures
        final(store).wf(),
        redirects(r, "/"@, Some(cookie_text(""@, 0))),
        match session_id_of(header) {
            Some(id) => final(store)@ == without_session(old(store)@, id),
            None => final(store)@ == old(store)@,
        },
{
    if let Some(id) = session_id(header) {
        store.remove(id.as_str());
    }
    Redirect { location: "/".to_owned(), set_cookie: Some(clear_cookie()) }
}

/// What is answered to a call of the API.
#[derive(Debug)]
pub enum Reply {
    /// A JSON document.
    Document(String),
    /// The caller has no session.
    NotLoggedIn,
}

/// What a user is told of themselves.
pub open spec fn user_json(user_name: Seq<char>, sub: Seq<char>) -> Json {
    Json::Object(map!["sub"@ => Json::Text(sub), "user_name"@ => Json::Text(user_name)])
}

/// Who the caller is.
pub fn me(store: &Store, header: Option<&str>, now: i64) -> (r: Reply)
    requires
        store.wf(),
    ensures
        match request_session(store@, header, now) {
            Some((_, user_name, sub)) => r matches Reply::Document(text) && text@ == json_text(
                user_json(user_name@, sub@),
            ),
            None => r is NotLoggedIn,
        },
{
    match session(store, header, now) {
        Some((_, user_name, sub)) => {
            let mut list: Vec<(String, Value)> = Vec::new();
            list.push(("sub".to_owned(), text_value(sub.as_str())));
            list.push(("user_name".to_owned(), text_value(user_name.as_str())));
            proof {
                reveal_with_fuel(members, 3);
            }
            Reply::Document(value_text(&object_value(list)))
        },
        None => Reply::NotLoggedIn,
    }
}

/// The token to list the caller's repositories with.
pub fn repos_token(store: &Store, header: Option<&str>, now: i64) -> (r: Option<String>)
    requires
        store.wf(),
    ensures
        match request_session(store@, header, now) {
            Some((token, _, _)) => r == Some(token),
            None => r is None,
        },
{
    match session(store, header, now) {
        Some((token, _, _)) => Some(token),
        None => None,
    }
}

}
