//! What holds of logins and sessions from the browser's side.
use vstd::prelude::*;

use crate::encoding::{base64url, id_of};
use crate::json::{member_of, Json};
use crate::text::{
    after_prefix, decimal_value, hex_digits, is_white, lemma_hex_digits_len,
    other_texts_have_no_prefix, prefix_is_taken_off, signed_decimal, signed_decimal_reads_back,
    trimmed, trimmed_end, trimmed_start, white_space_around_is_trimmed,
};
use crate::web::authsvc::Issued;
use crate::web::oidc::challenge_of;
use crate::web::pages::{
    begun, cookie_text, cookie_value, first_semicolon, opened, request_session, seconds_left,
    session_end, session_id_of, user_json, LoginBegun, COOKIE_ATTRIBUTES, COOKIE_PREFIX,
};
use crate::web::sessions::{
    after, started_login_is_in_flight_for_ten_minutes, taking_up_leaves_the_others, verifier_of,
    with_login, with_session, without_login, without_session, StoreView, PENDING_TTL,
};

verus! {

/// The callback of a login that was begun is bound to it: with its state, and
/// while its time is not over, it is exchanged with the verifier whose challenge
/// the login was begun with, and it can be taken up once only.
pub proof fn callback_is_bound_to_its_login(
    v: StoreView,
    w: StoreView,
    x: u128,
    bytes: [u8; 32],
    now: i64,
    r: LoginBegun,
    later: i64,
)
    requires
        begun(v, w, x, bytes, now, r),
        later < after(now, PENDING_TTL as int),
    ensures
        verifier_of(w, r.state@, later) matches Some(verifier) && challenge_of(verifier@)
            == r.challenge@,
        verifier_of(without_login(w, r.state@), r.state@, later) is None,
{
}

proof fn lemma_hex_chars(x: nat, width: nat, i: int)
    requires
        0 <= i < width,
    ensures
        hex_digits(x, width).len() == width,
        !is_white(hex_digits(x, width)[i]),
        hex_digits(x, width)[i] != ';',
    decreases width,
{
    lemma_hex_digits_len(x / 16, (width - 1) as nat);
    if i < width - 1 {
        lemma_hex_chars(x / 16, (width - 1) as nat, i);
    }
}

proof fn lemma_no_semicolon(s: Seq<char>)
    requires
        forall|i: int| 0 <= i < s.len() ==> s[i] != ';',
    ensures
        first_semicolon(s) == s.len(),
    decreases s.len(),
{
    if s.len() > 0 {
        lemma_no_semicolon(s.drop_first());
    }
}

proof fn lemma_semicolon_after(s: Seq<char>, t: Seq<char>)
    requires
        forall|i: int| 0 <= i < s.len() ==> s[i] != ';',
    ensures
        first_semicolon(s + seq![';'] + t) == s.len(),
    decreases s.len(),
{
    let all = s + seq![';'] + t;
    if s.len() > 0 {
        assert(all.drop_first() =~= s.drop_first() + seq![';'] + t);
        lemma_semicolon_after(s.drop_first(), t);
    }
}

/// The part of a cookie header that holds a session id.
pub open spec fn session_part(x: u128) -> Seq<char> {
    COOKIE_PREFIX@ + id_of(x)
}

proof fn lemma_session_part(x: u128, space: bool)
    ensures
        ({
            let s = if space {
                seq![' '] + session_part(x)
            } else {
                session_part(x)
            };
            &&& first_semicolon(s) == s.len()
            &&& after_prefix(trimmed(s), COOKIE_PREFIX@) == Some(id_of(x))
        }),
{
    let p = session_part(x);
    let id = id_of(x);
    reveal_strlit("kw_session=");
    lemma_hex_chars(x as nat, 32, 31);
    assert forall|i: int| 0 <= i < p.len() implies p[i] != ';' && !is_white(p[i]) by {
        if i >= COOKIE_PREFIX@.len() {
            lemma_hex_chars(x as nat, 32, i - COOKIE_PREFIX@.len());
        }
    }
    assert(trimmed_start(p) == p);
    if space {
        let s = seq![' '] + p;
        assert(s.drop_first() =~= p);
        lemma_no_semicolon(s);
    } else {
        lemma_no_semicolon(p);
    }
}

/// The session cookie that a session was opened with is read back from a cookie
/// header that holds it alone.
pub proof fn session_cookie_reads_back(x: u128)
    ensures
        cookie_value(session_part(x), COOKIE_PREFIX@) == Some(id_of(x)),
{
    lemma_session_part(x, false);
    let p = session_part(x);
    assert(p.take(p.len() as int) =~= p);
}

/// The session cookie is read back from a cookie header in which another cookie
/// comes first.
pub proof fn session_cookie_reads_back_after_another(x: u128, other: Seq<char>)
    requires
        forall|i: int| 0 <= i < other.len() ==> other[i] != ';',
        after_prefix(trimmed(other), COOKIE_PREFIX@) is None,
    ensures
        cookie_value(other + seq![';', ' '] + session_part(x), COOKIE_PREFIX@) == Some(id_of(x)),
{
    lemma_session_part(x, true);
    let s = seq![' '] + session_part(x);
    let all = other + seq![';', ' '] + session_part(x);
    assert(all =~= other + seq![';'] + s);
    lemma_semicolon_after(other, s);
    assert(all.take(other.len() as int) =~= other);
    assert(all.skip(other.len() as int + 1) =~= s);
    assert(s.take(s.len() as int) =~= s);
    reveal_with_fuel(cookie_value, 3);
}

/// A session that was opened is the session of a request with its cookie, until
/// it ends.
pub proof fn opened_session_is_the_callers(
    v: StoreView,
    issued: Issued,
    x: u128,
    now: i64,
    header: &str,
    later: i64,
)
    requires
        header@ == session_part(x),
    ensures
        request_session(
            with_session(v, id_of(x), opened(issued, now), now),
            Some(header),
            later,
        ) == if session_end(issued.expires_at, now) > later {
            Some((issued.token, issued.user_name, issued.user_id))
        } else {
            None
        },
{
    session_cookie_reads_back(x);
}

/// After a logout, a request with the same cookie has no session.
pub proof fn logged_out_session_is_gone(v: StoreView, header: &str, id: Seq<char>, now: i64)
    requires
        session_id_of(Some(header)) == Some(id),
    ensures
        request_session(without_session(v, id), Some(header), now) is None,
{
}

/// A session that was opened is live, and its cookie lives as long: with its
/// token, where that has not expired.
pub proof fn opened_session_is_live(issued: Issued, now: i64)
    requires
        0 <= now < i64::MAX,
    ensures
        opened(issued, now).expires_at > now,
        seconds_left(session_end(issued.expires_at, now), now) == session_end(
            issued.expires_at,
            now,
        ) - now,
        issued.expires_at > now ==> opened(issued, now).expires_at == issued.expires_at,
{
}

/// The part of a cookie header that comes first decides, where the prefix stands in
/// front of a value in it: the value is read, whatever parts come after.
pub proof fn first_cookie_with_the_prefix_is_read(
    part: Seq<char>,
    prefix: Seq<char>,
    value: Seq<char>,
    rest: Seq<char>,
)
    requires
        forall|i: int| 0 <= i < part.len() ==> part[i] != ';',
        trimmed(part) == prefix + value,
    ensures
        cookie_value(part, prefix) == Some(value),
        cookie_value(part + seq![';'] + rest, prefix) == Some(value),
{
    let all = part + seq![';'] + rest;
    lemma_no_semicolon(part);
    lemma_semicolon_after(part, rest);
    assert(part.take(part.len() as int) =~= part);
    assert(all.take(part.len() as int) =~= part);
    prefix_is_taken_off(trimmed(part), prefix, value);
}

/// A part of a cookie header without the prefix is passed over: what is read is what
/// is read from the parts after it, and nothing where there are none.
pub proof fn other_cookies_are_passed_over(part: Seq<char>, prefix: Seq<char>, rest: Seq<char>)
    requires
        forall|i: int| 0 <= i < part.len() ==> part[i] != ';',
        forall|value: Seq<char>| trimmed(part) != #[trigger] (prefix + value),
    ensures
        cookie_value(part, prefix) is None,
        cookie_value(part + seq![';'] + rest, prefix) == cookie_value(rest, prefix),
{
    let all = part + seq![';'] + rest;
    lemma_no_semicolon(part);
    lemma_semicolon_after(part, rest);
    assert(part.take(part.len() as int) =~= part);
    assert(all.take(part.len() as int) =~= part);
    assert(all.skip(part.len() as int + 1) =~= rest);
    other_texts_have_no_prefix(trimmed(part), prefix);
}

/// Cookies in front of the rest of a header, with a semicolon and a space behind each.
pub open spec fn in_front(others: Seq<Seq<char>>, rest: Seq<char>) -> Seq<char>
    decreases others.len(),
{
    if others.len() == 0 {
        rest
    } else {
        others[0] + seq![';', ' '] + in_front(others.drop_first(), rest)
    }
}

/// A cookie of another name: no semicolon, and not the prefix at its start.
pub open spec fn is_other_cookie(cookie: Seq<char>, prefix: Seq<char>) -> bool {
    &&& forall|i: int| 0 <= i < cookie.len() ==> cookie[i] != ';'
    &&& forall|value: Seq<char>| trimmed(cookie) != #[trigger] (prefix + value)
}

proof fn lemma_first_semicolon_at(s: Seq<char>)
    ensures
        0 <= first_semicolon(s) <= s.len(),
    decreases s.len(),
{
    if s.len() > 0 && s[0] != ';' {
        lemma_first_semicolon_at(s.drop_first());
    }
}

proof fn lemma_leading_space(s: Seq<char>, prefix: Seq<char>)
    ensures
        cookie_value(seq![' '] + s, prefix) == cookie_value(s, prefix),
{
    let t = seq![' '] + s;
    let i = first_semicolon(s);
    lemma_first_semicolon_at(s);
    assert(t.drop_first() =~= s);
    assert(first_semicolon(t) == 1 + i);
    assert(t.take(i + 1).drop_first() =~= s.take(i));
    assert(trimmed_start(t.take(i + 1)) == trimmed_start(s.take(i)));
    if i < s.len() {
        assert(t.skip(i + 2) =~= s.skip(i + 1));
    }
}

proof fn lemma_in_front(others: Seq<Seq<char>>, rest: Seq<char>, prefix: Seq<char>)
    requires
        forall|i: int| 0 <= i < others.len() ==> is_other_cookie(#[trigger] others[i], prefix),
    ensures
        cookie_value(in_front(others, rest), prefix) == cookie_value(rest, prefix),
    decreases others.len(),
{
    if others.len() > 0 {
        let more = in_front(others.drop_first(), rest);
        assert(is_other_cookie(others[0], prefix));
        other_cookies_are_passed_over(others[0], prefix, seq![' '] + more);
        assert(in_front(others, rest) =~= others[0] + seq![';'] + (seq![' '] + more));
        lemma_leading_space(more, prefix);
        assert forall|i: int| 0 <= i < others.drop_first().len() implies is_other_cookie(
            #[trigger] others.drop_first()[i],
            prefix,
        ) by {
            assert(others.drop_first()[i] == others[i + 1]);
        }
        lemma_in_front(others.drop_first(), rest, prefix);
    }
}

/// The session cookie is read back wherever it stands in the header, with any cookies
/// of other names in front of it and anything behind it.
pub proof fn session_cookie_is_found_anywhere(x: u128, others: Seq<Seq<char>>, behind: Seq<char>)
    requires
        forall|i: int|
            0 <= i < others.len() ==> is_other_cookie(#[trigger] others[i], COOKIE_PREFIX@),
    ensures
        cookie_value(in_front(others, COOKIE_PREFIX@ + id_of(x)), COOKIE_PREFIX@) == Some(
            id_of(x),
        ),
        cookie_value(
            in_front(others, COOKIE_PREFIX@ + id_of(x) + seq![';'] + behind),
            COOKIE_PREFIX@,
        ) == Some(id_of(x)),
{
    let p = session_part(x);
    lemma_session_part(x, false);
    lemma_hex_chars(x as nat, 32, 31);
    reveal_strlit("kw_session=");
    assert forall|i: int| 0 <= i < p.len() implies p[i] != ';' && !is_white(p[i]) by {
        if i >= COOKIE_PREFIX@.len() {
            lemma_hex_chars(x as nat, 32, i - COOKIE_PREFIX@.len());
        }
    }
    assert(trimmed(p) == p) by {
        white_space_around_is_trimmed(seq![], p, seq![]);
        assert(seq![] + p + seq![] =~= p);
    }
    first_cookie_with_the_prefix_is_read(p, COOKIE_PREFIX@, id_of(x), behind);
    lemma_in_front(others, p, COOKIE_PREFIX@);
    lemma_in_front(others, p + seq![';'] + behind, COOKIE_PREFIX@);
}

/// A header with cookies of other names only, or no header, holds no session id, so
/// the request has no session.
pub proof fn no_session_cookie_no_session(
    v: StoreView,
    others: Seq<Seq<char>>,
    last: Seq<char>,
    header: &str,
    now: i64,
)
    requires
        forall|i: int|
            0 <= i < others.len() ==> is_other_cookie(#[trigger] others[i], COOKIE_PREFIX@),
        is_other_cookie(last, COOKIE_PREFIX@),
        header@ == in_front(others, last),
    ensures
        session_id_of(Some(header)) is None,
        session_id_of(None) is None,
        request_session(v, Some(header), now) is None,
        request_session(v, None, now) is None,
{
    lemma_in_front(others, last, COOKIE_PREFIX@);
    other_cookies_are_passed_over(last, COOKIE_PREFIX@, seq![]);
}

/// A request with the cookie of a session in the store, among any other cookies, has
/// that session, with its token, user name and subject, until it ends; and the session
/// of no other id.
pub proof fn request_has_the_session_of_its_cookie(
    v: StoreView,
    x: u128,
    others: Seq<Seq<char>>,
    header: &str,
    now: i64,
)
    requires
        forall|i: int|
            0 <= i < others.len() ==> is_other_cookie(#[trigger] others[i], COOKIE_PREFIX@),
        header@ == in_front(others, COOKIE_PREFIX@ + id_of(x)),
    ensures
        session_id_of(Some(header)) == Some(id_of(x)),
        v.sessions.contains_key(id_of(x)) && now < v.sessions[id_of(x)].expires_at
            ==> request_session(v, Some(header), now) == Some(
            (
                v.sessions[id_of(x)].token,
                v.sessions[id_of(x)].user_name,
                v.sessions[id_of(x)].sub,
            ),
        ),
        !v.sessions.contains_key(id_of(x)) || now >= v.sessions[id_of(x)].expires_at
            ==> request_session(v, Some(header), now) is None,
{
    session_cookie_is_found_anywhere(x, others, seq![]);
}

/// What the browser keeps of a cookie, up to its first semicolon, is the prefix and
/// the session id; what is told after the last sign is the time that it is kept.
pub proof fn cookie_carries_the_id_and_the_age(x: u128, max_age: i64)
    ensures
        cookie_text(id_of(x), max_age).take(first_semicolon(cookie_text(id_of(x), max_age)))
            == COOKIE_PREFIX@ + id_of(x),
        max_age >= 0 ==> exists|head: Seq<char>, age: Seq<char>|
            cookie_text(id_of(x), max_age) == #[trigger] (head + seq!['='] + age) && decimal_value(
                age,
            ) == max_age,
        forall|other: i64|
            cookie_text(id_of(x), max_age) == #[trigger] cookie_text(id_of(x), other) ==> max_age
                == other,
{
    let c = cookie_text(id_of(x), max_age);
    let p = session_part(x);
    lemma_session_part(x, false);
    reveal_strlit("; HttpOnly; Secure; SameSite=Lax; Path=/; Max-Age=");
    reveal_strlit("kw_session=");
    lemma_hex_chars(x as nat, 32, 31);
    assert forall|i: int| 0 <= i < p.len() implies p[i] != ';' by {
        if i >= COOKIE_PREFIX@.len() {
            lemma_hex_chars(x as nat, 32, i - COOKIE_PREFIX@.len());
        }
    }
    let a = COOKIE_ATTRIBUTES@;
    let tail = a.skip(1) + signed_decimal(max_age as int);
    assert(c =~= p + seq![';'] + tail);
    lemma_semicolon_after(p, tail);
    assert(c.take(p.len() as int) =~= p);
    signed_decimal_reads_back(max_age as int);
    let head = p + a.drop_last();
    assert(a.last() == '=');
    assert(c =~= head + seq!['='] + signed_decimal(max_age as int));
    assert forall|other: i64| c == #[trigger] cookie_text(id_of(x), other) implies max_age
        == other by {
        let d = cookie_text(id_of(x), other);
        let k = (p + a).len() as int;
        assert(c.skip(k) =~= signed_decimal(max_age as int));
        assert(d.skip(k) =~= signed_decimal(other as int));
        signed_decimal_reads_back(other as int);
    }
}

/// A session lasts as long as its token, where that has not expired yet, and an hour
/// otherwise.
pub proof fn session_lasts_as_its_token(issued: Issued, now: i64)
    requires
        now <= i64::MAX - 3600,
    ensures
        issued.expires_at > now ==> opened(issued, now).expires_at == issued.expires_at,
        issued.expires_at <= now ==> opened(issued, now).expires_at == now + 3600,
        opened(issued, now).token == issued.token,
        opened(issued, now).user_name == issued.user_name,
        opened(issued, now).sub == issued.user_id,
        0 <= now ==> seconds_left(opened(issued, now).expires_at, now) == opened(
            issued,
            now,
        ).expires_at - now,
{
}

/// The seconds that are left lead to the end, or are none once it has come.
pub proof fn seconds_left_lead_to_the_end(end: i64, now: i64)
    ensures
        end <= now ==> seconds_left(end, now) == 0,
        now < end && end - now <= i64::MAX ==> now + seconds_left(end, now) == end,
{
}

/// A login that was begun leaves those in flight as they are, and the sessions; its
/// callback, and no other, finds its verifier.
pub proof fn begun_login_leaves_the_others(
    v: StoreView,
    w: StoreView,
    x: u128,
    bytes: [u8; 32],
    now: i64,
    r: LoginBegun,
    other: Seq<char>,
    later: i64,
)
    requires
        begun(v, w, x, bytes, now, r),
        now <= later,
    ensures
        r.state@ == id_of(x),
        other != r.state@ ==> verifier_of(w, other, later) == verifier_of(v, other, later),
        w.sessions == v.sessions,
        later < now + 600 && later < i64::MAX ==> (verifier_of(w, r.state@, later) matches Some(
            verifier,
        ) && verifier@
            == base64url(bytes@)),
        now + 600 <= later ==> verifier_of(w, r.state@, later) is None,
{
    let verifier = choose|verifier: String|
        verifier@ == base64url(bytes@) && w == #[trigger] with_login(v, id_of(x), verifier, now);
    started_login_is_in_flight_for_ten_minutes(v, id_of(x), verifier, now, other, later);
}

/// Two logins in flight are both taken up, in either order, each with its own
/// verifier.
pub proof fn logins_in_flight_do_not_disturb_each_other(
    v: StoreView,
    a: Seq<char>,
    b: Seq<char>,
    first: i64,
    second: i64,
)
    requires
        a != b,
        v.pending.contains_key(a),
        v.pending.contains_key(b),
        first < v.pending[a].expires_at,
        second < v.pending[b].expires_at,
    ensures
        verifier_of(v, a, first) == Some(v.pending[a].verifier),
        verifier_of(without_login(v, a), b, second) == Some(v.pending[b].verifier),
{
    taking_up_leaves_the_others(v, a, b, second);
}

/// What a user is told of themselves is their user name and their subject, and nothing
/// else.
pub proof fn user_is_told_name_and_subject(user_name: Seq<char>, sub: Seq<char>, member: Seq<char>)
    ensures
        member_of(user_json(user_name, sub), "user_name"@) == Some(Json::Text(user_name)),
        member_of(user_json(user_name, sub), "sub"@) == Some(Json::Text(sub)),
        member != "user_name"@ && member != "sub"@ ==> member_of(user_json(user_name, sub), member)
            is None,
{
    reveal_strlit("user_name");
    reveal_strlit("sub");
    assert("user_name"@.len() != "sub"@.len());
}

}
