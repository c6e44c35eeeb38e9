//! What the calls of the web frontend come to, one after another.
use vstd::prelude::*;
use vstd::utf8::*;

use crate::auth::dexlogin::form_of;
use crate::auth::service::UserToken;
use crate::encoding::{
    are_drawn, base64url, base64url_reads_back, id_of, is_drawn, lemma_base64url_len, sha256,
    unbase64url,
};
use crate::json::{json_text, member_of, Json};
use crate::text::{decimal_value, signed_decimal, signed_decimal_reads_back};
use crate::web::authsvc::{
    bearer, external_request, is_header_text, issued, scoped, AuthClient, ExternalRequest, Issued,
};
use crate::web::logins::{
    cookie_carries_the_id_and_the_age, in_front, is_other_cookie,
    request_has_the_session_of_its_cookie, session_cookie_is_found_anywhere,
    user_is_told_name_and_subject,
};
use crate::web::lore::{
    add_repo, binary_of, from_hex, hex, hex_reads_back, pair_at, repo_scope,
    summary_shows_the_repository, LoreClient, RepoScope, RepoSummary, Repository,
};
use crate::web::oidc::{
    challenge_is_the_digest, code_challenge, code_verifier, discovery_ignores_trailing_slashes,
    login_asks_with_its_own_state, random_state, url_with_query, verifier_from, Oidc,
};
use crate::web::pages::{
    begin_login, begin_login_with, begun, clear_cookie, cookie_text, finish_callback,
    first_semicolon, login_failed, logout, max_age, me, open_session, repos_token, session,
    session_cookie, session_id, session_id_of, take_callback, user_json, Callback, CallbackStep,
    LoginBegun, Redirect, Reply, COOKIE_PREFIX,
};
use crate::web::sessions::{
    later, login_in_flight_has_its_verifier, session_is_found_as_it_was_recorded,
    sessions_do_not_disturb_each_other, started_login_is_in_flight_for_ten_minutes,
    taking_up_leaves_the_others, with_login, Session, Store,
};

verus! {

/// A login that was started is taken up with its verifier, within ten minutes and once.
pub proof fn started_login_is_taken_up(
    start: &mut Store,
    state: String,
    verifier: String,
    now: i64,
    take: &mut Store,
    asked: &str,
    later: i64,
    r: Option<String>,
)
    requires
        call_ensures(Store::start_login, (start, state, verifier, now), ()),
        call_ensures(Store::take_pending, (take, asked, later), r),
        old(take)@ == final(start)@,
        asked@ == state@,
        now <= later < i64::MAX,
    ensures
        later < now + 600 ==> r == Some(verifier),
        now + 600 <= later ==> r is None,
        !final(take)@.pending.contains_key(state@),
        final(take)@.sessions == old(start)@.sessions,
{
    started_login_is_in_flight_for_ten_minutes(
        old(start)@,
        state@,
        verifier,
        now,
        state@,
        later,
    );
    taking_up_leaves_the_others(old(take)@, state@, state@, later);
}

/// Taking up one login leaves another to be taken up, with the verifier that was recorded
/// for it.
pub proof fn two_logins_are_both_taken_up(
    first: &mut Store,
    a: &str,
    at: i64,
    x: Option<String>,
    second: &mut Store,
    b: &str,
    later: i64,
    y: Option<String>,
)
    requires
        call_ensures(Store::take_pending, (first, a, at), x),
        call_ensures(Store::take_pending, (second, b, later), y),
        old(second)@ == final(first)@,
        a@ != b@,
        old(first)@.pending.contains_key(a@),
        at < old(first)@.pending[a@].expires_at,
        old(first)@.pending.contains_key(b@),
        later < old(first)@.pending[b@].expires_at,
    ensures
        x == Some(old(first)@.pending[a@].verifier),
        y == Some(old(first)@.pending[b@].verifier),
        final(second)@.sessions == old(first)@.sessions,
{
    login_in_flight_has_its_verifier(old(first)@, a@, at);
    taking_up_leaves_the_others(old(first)@, a@, b@, later);
    login_in_flight_has_its_verifier(old(second)@, b@, later);
    taking_up_leaves_the_others(old(second)@, b@, a@, later);
}

/// A callback with a code and the state of a login in flight, and no error, goes on with
/// that code and the verifier of that login, and leaves the other logins in flight and the
/// sessions as they are. Any other callback is answered as a login that failed, and one
/// without a code or a state, or with an error, takes nothing up.
pub proof fn callback_goes_on_with_its_own_login(
    store: &mut Store,
    q: Callback,
    now: i64,
    r: CallbackStep,
    other: Seq<char>,
)
    requires
        call_ensures(take_callback, (store, q, now), r),
    ensures
        q.error is None && q.code is Some && q.state is Some ==> {
            let state = q.state->Some_0@;
            &&& old(store)@.pending.contains_key(state) && now
                < old(store)@.pending[state].expires_at ==> r == (CallbackStep::Exchange {
                code: q.code->Some_0,
                verifier: old(store)@.pending[state].verifier,
            })
            &&& !old(store)@.pending.contains_key(state) || old(store)@.pending[state].expires_at
                <= now ==> (r matches CallbackStep::Answer(x) && is_failed_login(x))
            &&& !final(store)@.pending.contains_key(state)
            &&& other != state ==> final(store)@.pending.contains_key(other)
                == old(store)@.pending.contains_key(other) && (old(store)@.pending.contains_key(
                other,
            ) ==> final(store)@.pending[other] == old(store)@.pending[other])
        },
        q.error is Some || q.code is None || q.state is None ==> final(store)@ == old(store)@ && (
        r matches CallbackStep::Answer(x) && is_failed_login(x)),
        final(store)@.sessions == old(store)@.sessions,
{
    if let Some(state) = q.state {
        login_in_flight_has_its_verifier(old(store)@, state@, now);
        taking_up_leaves_the_others(old(store)@, state@, other, now);
    }
}

/// The answer to a login that failed: back to the start, as such, without a cookie.
pub open spec fn is_failed_login(r: Redirect) -> bool {
    r.location@ == "/?login=failed"@ && r.set_cookie is None
}

/// A login that was begun is taken up by the callback with its state, within ten minutes,
/// with the verifier of which the browser was given the challenge.
pub proof fn begun_login_is_exchanged_with_its_verifier(
    begin: &mut Store,
    x: u128,
    bytes: &[u8; 32],
    now: i64,
    begun: LoginBegun,
    take: &mut Store,
    q: Callback,
    later: i64,
    r: CallbackStep,
)
    requires
        call_ensures(begin_login_with, (begin, x, bytes, now), begun),
        call_ensures(take_callback, (take, q, later), r),
        old(take)@ == final(begin)@,
        q.error is None,
        q.code is Some,
        q.state matches Some(state) && state@ == begun.state@,
        now <= later < i64::MAX,
    ensures
        later < now + 600 ==> (r matches CallbackStep::Exchange { code, verifier } && code
            == q.code->Some_0 && unbase64url(begun.challenge@) == Some(
            sha256(encode_utf8(verifier@)),
        ) && verifier@ == base64url(bytes@)),
        now + 600 <= later ==> (r matches CallbackStep::Answer(x) && is_failed_login(x)),
        begun.state@ == id_of(x),
{
    let verifier = choose|verifier: String|
        verifier@ == base64url(bytes@) && final(begin)@
            == #[trigger] with_login(old(begin)@, id_of(x), verifier, now);
    started_login_is_in_flight_for_ten_minutes(
        old(begin)@,
        id_of(x),
        verifier,
        now,
        id_of(x),
        later,
    );
    challenge_is_the_digest(verifier@, verifier@);
}

/// A session that was opened is that of a request with the cookie that was set, among any
/// other cookies, until it ends: with its token, or an hour later where that is over.
pub proof fn opened_session_is_found_by_its_cookie(
    store: &mut Store,
    issued: Issued,
    x: u128,
    now: i64,
    redirect: Redirect,
    found: &Store,
    others: Seq<Seq<char>>,
    header: &str,
    later: i64,
    r: Option<(String, String, String)>,
)
    requires
        call_ensures(open_session, (store, issued, x, now), redirect),
        call_ensures(session, (found, Some(header), later), r),
        found@ == final(store)@,
        forall|i: int|
            0 <= i < others.len() ==> is_other_cookie(#[trigger] others[i], COOKIE_PREFIX@),
        redirect.set_cookie matches Some(cookie) && header@ == in_front(
            others,
            cookie@.take(first_semicolon(cookie@)),
        ),
        now <= i64::MAX - 3600,
    ensures
        redirect.location@ == "/"@,
        ({
            let end = if issued.expires_at > now {
                issued.expires_at as int
            } else {
                now + 3600
            };
            &&& later < end ==> r == Some((issued.token, issued.user_name, issued.user_id))
            &&& later >= end ==> r is None
        }),
        final(store)@.pending == old(store)@.pending,
{
    let age = crate::web::pages::seconds_left(
        crate::web::pages::session_end(issued.expires_at, now),
        now,
    );
    cookie_carries_the_id_and_the_age(x, age);
    request_has_the_session_of_its_cookie(found@, x, others, header, later);
}

/// The cookie of a session is kept for as long as the session lasts.
pub proof fn cookie_is_kept_as_long_as_the_session(
    store: &mut Store,
    issued: Issued,
    x: u128,
    now: i64,
    redirect: Redirect,
)
    requires
        call_ensures(open_session, (store, issued, x, now), redirect),
        0 <= now <= i64::MAX - 3600,
    ensures
        redirect.set_cookie matches Some(cookie) && cookie@ == cookie_text(
            id_of(x),
            (if issued.expires_at > now {
                issued.expires_at - now
            } else {
                3600
            }) as i64,
        ),
{
}

/// A code that could not be exchanged opens no session; one that was opens one, with what was
/// issued, under an id that was drawn for it.
pub proof fn failed_exchange_opens_no_session(
    store: &mut Store,
    exchanged: Result<Issued, String>,
    now: i64,
    r: Redirect,
)
    requires
        call_ensures(finish_callback, (store, exchanged, now), r),
    ensures
        exchanged is Err ==> final(store)@ == old(store)@ && is_failed_login(r),
        exchanged is Ok ==> r.location@ == "/"@ && r.set_cookie is Some,
        exchanged matches Ok(issued) ==> exists|x: u128|
            is_drawn(x) && final(store)@.sessions.contains_key(#[trigger] id_of(x)) && final(store)@.sessions[id_of(x)].token == issued.token && final(store)@.sessions[id_of(x)].sub == issued.user_id && final(store)@.sessions[id_of(x)].user_name == issued.user_name,
        final(store)@.pending == old(store)@.pending,
{
}

/// After a logout the session of the request is gone, and the other sessions and the
/// logins in flight are as they were; the cookie is cleared at once.
pub proof fn logout_ends_the_session(
    store: &mut Store,
    header: Option<&str>,
    r: Redirect,
    id: Option<String>,
    other: Seq<char>,
)
    requires
        call_ensures(logout, (store, header), r),
        call_ensures(session_id, (header,), id),
    ensures
        r.location@ == "/"@,
        r.set_cookie matches Some(cookie) && cookie@ == cookie_text(""@, 0),
        id is None ==> final(store)@ == old(store)@,
        id matches Some(id) ==> {
            &&& !final(store)@.sessions.contains_key(id@)
            &&& other != id@ ==> final(store)@.sessions.contains_key(other)
                == old(store)@.sessions.contains_key(other) && (old(store)@.sessions.contains_key(
                other,
            ) ==> final(store)@.sessions[other] == old(store)@.sessions[other])
        },
        final(store)@.pending == old(store)@.pending,
{
    if let Some(id) = id {
        assert(session_id_of(header) == Some(id@));
    } else {
        assert(session_id_of(header) is None);
    }
}

/// A user with a session is told who they are, and has their token used; one without is
/// told to log in, and has none.
pub proof fn user_is_told_of_their_own_session(
    store: &Store,
    header: Option<&str>,
    now: i64,
    found: Option<(String, String, String)>,
    told: Reply,
    token: Option<String>,
)
    requires
        call_ensures(session, (store, header, now), found),
        call_ensures(me, (store, header, now), told),
        call_ensures(repos_token, (store, header, now), token),
    ensures
        found matches Some((t, user_name, sub)) ==> {
            &&& token == Some(t)
            &&& told matches Reply::Document(text) && exists|v: Json|
                text@ == #[trigger] json_text(v) && member_of(v, "user_name"@) == Some(
                    Json::Text(user_name@),
                ) && member_of(v, "sub"@) == Some(Json::Text(sub@))
        },
        found is None ==> token is None && told is NotLoggedIn,
{
    if let Some((t, user_name, sub)) = found {
        user_is_told_name_and_subject(user_name@, sub@, "sub"@);
        let v = user_json(user_name@, sub@);
        assert(told matches Reply::Document(text) && text@ == json_text(v));
    }
}

/// The session id of a request is what the session cookie holds, wherever it stands among
/// the cookies; without that cookie there is none.
pub proof fn session_id_is_found_anywhere(
    x: u128,
    others: Seq<Seq<char>>,
    header: &str,
    id: Option<String>,
    none: Option<String>,
)
    requires
        call_ensures(session_id, (Some(header),), id),
        call_ensures(session_id, (None,), none),
        forall|i: int|
            0 <= i < others.len() ==> is_other_cookie(#[trigger] others[i], COOKIE_PREFIX@),
        header@ == in_front(others, "kw_session="@ + id_of(x)),
    ensures
        id matches Some(id) && id@ == id_of(x),
        none is None,
{
    session_cookie_is_found_anywhere(x, others, seq![]);
}

/// A token is asked for with the code, the verifier, the address and the client of the
/// login.
pub proof fn token_is_asked_for_with_the_verifier(
    client: Oidc,
    code: &str,
    verifier: &str,
    form: Vec<(&'static str, String)>,
)
    requires
        call_ensures(Oidc::token_form, (&client, code, verifier), form),
    ensures
        form_of(form@).len() == 5,
        form_of(form@).contains(("grant_type"@, "authorization_code"@)),
        form_of(form@).contains(("code"@, code@)),
        form_of(form@).contains(("code_verifier"@, verifier@)),
        form_of(form@).contains(("redirect_uri"@, client.redirect_uri())),
        form_of(form@).contains(("client_id"@, client.client_id())),
{
    let f = form_of(form@);
    assert(f[0] == ("grant_type"@, "authorization_code"@));
    assert(f[1] == ("code"@, code@));
    assert(f[2] == ("redirect_uri"@, client.redirect_uri()));
    assert(f[3] == ("client_id"@, client.client_id()));
    assert(f[4] == ("code_verifier"@, verifier@));
}

/// The browser is sent to the provider with the state and the challenge of its login.
pub proof fn browser_is_sent_with_its_state(
    client: Oidc,
    endpoint: &str,
    state: &str,
    challenge: &str,
    r: Result<String, String>,
)
    requires
        call_ensures(Oidc::authorize_url, (&client, endpoint, state, challenge), r),
    ensures
        exists|pairs: Seq<(Seq<char>, Seq<char>)>|
            {
                &&& pairs.contains(("state"@, state@))
                &&& pairs.contains(("code_challenge"@, challenge@))
                &&& pairs.contains(("code_challenge_method"@, "S256"@))
                &&& pairs.contains(("client_id"@, client.client_id()))
                &&& pairs.contains(("redirect_uri"@, client.redirect_uri()))
                &&& pairs.contains(("response_type"@, "code"@))
                &&& match #[trigger] url_with_query(endpoint@, pairs) {
                    Ok(url) => r matches Ok(u) && u@ == url,
                    Err(_) => r is Err,
                }
            },
{
    login_asks_with_its_own_state(client, state@, challenge@);
    let pairs = client.authorize_pairs(state@, challenge@);
    let u = url_with_query(endpoint@, pairs);
}

/// The identity token is handed to the auth service as it is, as an external one.
pub proof fn identity_token_is_handed_on(dex_token: &str, r: ExternalRequest)
    requires
        call_ensures(external_request, (dex_token,), r),
    ensures
        r.external_token@ == dex_token@,
        r.token_type@ == "external"@,
{
}

/// What the auth service issued is what the session is opened with, and a reply without a
/// token is none.
pub proof fn issued_token_is_taken_as_it_is(
    reply: Option<UserToken>,
    a: Result<Issued, String>,
    b: Result<String, String>,
)
    requires
        call_ensures(issued, (reply,), a),
        call_ensures(scoped, (reply,), b),
    ensures
        reply matches Some(t) ==> (t.user_token@.len() > 0 ==> {
            &&& a matches Ok(i) && i.token == t.user_token && i.user_id == t.user_id && i.user_name
                == t.user_name && i.expires_at == t.expires_at
            &&& b == Ok::<String, String>(t.user_token)
        }),
        reply is None || reply->Some_0.user_token@.len() == 0 ==> a is Err && b is Err,
{
}

/// A token is carried behind the scheme, where it can be sent at all.
pub proof fn token_is_carried_behind_the_scheme(token: &str, r: Result<String, String>)
    requires
        call_ensures(bearer, (token,), r),
    ensures
        r matches Ok(value) ==> value@ == "Bearer "@ + token@,
        (forall|i: int| 0 <= i < token@.len() ==> 32 <= (#[trigger] token@[i] as int) <= 126)
            ==> r is Ok,
        (exists|i: int| 0 <= i < token@.len() && (#[trigger] token@[i]) == '\n') ==> r is Err,
{
    reveal_strlit("Bearer ");
    let value = "Bearer "@ + token@;
    if forall|i: int| 0 <= i < token@.len() ==> 32 <= (#[trigger] token@[i] as int) <= 126 {
        assert forall|i: int| 0 <= i < value.len() implies (#[trigger] value[i]) == '\t' || (
        value[i] as u32 >= 32 && value[i] as u32 != 127) by {
            if i >= 7 {
                assert(value[i] == token@[i - 7]);
            }
        }
    }
    if exists|i: int| 0 <= i < token@.len() && (#[trigger] token@[i]) == '\n' {
        let i = choose|i: int| 0 <= i < token@.len() && (#[trigger] token@[i]) == '\n';
        assert(value[i + 7] == '\n');
        assert(!is_header_text(value));
    }
}

/// A repository is asked for by its id, under both names that loreserver knows, with the
/// token.
pub proof fn repository_is_asked_for_by_its_id(
    token: &str,
    repo_id: &[u8],
    r: Result<RepoScope, String>,
)
    requires
        call_ensures(repo_scope, (token, repo_id), r),
    ensures
        r matches Ok(scope) ==> {
            &&& scope.authorization@ == "Bearer "@ + token@
            &&& binary_of(scope.binary@).len() == 2
            &&& binary_of(scope.binary@).contains(("lore-partition-bin"@, repo_id@))
            &&& binary_of(scope.binary@).contains(("urc-repository-id-bin"@, repo_id@))
        },
{
    if let Ok(scope) = r {
        assert(binary_of(scope.binary@)[0] == ("lore-partition-bin"@, repo_id@));
        assert(binary_of(scope.binary@)[1] == ("urc-repository-id-bin"@, repo_id@));
    }
}

/// A repository that loreserver told of is added behind the others, as it was told; a
/// message without one adds nothing.
pub proof fn repository_is_added_as_it_was_told(
    repos: &mut Vec<RepoSummary>,
    message: Option<Repository>,
)
    requires
        call_ensures(add_repo, (repos, message), ()),
    ensures
        message is None ==> final(repos)@ == old(repos)@,
        message matches Some(r) ==> {
            &&& final(repos)@.len() == old(repos)@.len() + 1
            &&& final(repos)@.drop_last() == old(repos)@
            &&& final(repos)@.last().name@ == r.name@
            &&& final(repos)@.last().description@ == r.description@
            &&& final(repos)@.last().default_branch@ == r.default_branch_name@
            &&& forall|k: int|
                0 <= k < r.id@.len() ==> #[trigger] pair_at(
                    encode_utf8(final(repos)@.last().id@),
                    k,
                ) == Some(r.id@[k])
        },
{
    if let Some(r) = message {
        let s = choose|s: RepoSummary| #[trigger]
            crate::web::lore::shows(s, r) && final(repos)@ == old(repos)@.push(s);
        summary_shows_the_repository(s, r);
        assert(final(repos)@.drop_last() =~= old(repos)@);
    }
}

/// What is written as hex reads back as the same bytes.
pub proof fn hex_is_read_back(
    bytes: &[u8],
    text: String,
    asked: &str,
    r: Result<Vec<u8>, String>,
)
    requires
        call_ensures(hex, (bytes,), text),
        call_ensures(from_hex, (asked,), r),
        asked@ == text@,
    ensures
        r matches Ok(v) && v@ == bytes@,
{
    hex_reads_back(bytes@);
    let b = encode_utf8(asked@);
    assert(forall|k: int| 0 <= k < b.len() / 2 ==> #[trigger] pair_at(b, k) is Some);
    if let Ok(v) = r {
        assert forall|k: int| 0 <= k < bytes@.len() implies v@[k] == bytes@[k] by {
            assert(pair_at(b, k) == Some(v@[k]));
        }
        assert(v@ =~= bytes@);
    }
}

/// A session cookie has its id under the session's name, is kept from scripts and from
/// unencrypted and foreign requests, and tells its time in seconds.
pub proof fn session_cookie_is_kept_safe(id: &str, max_age: i64, r: String)
    requires
        call_ensures(session_cookie, (id, max_age), r),
    ensures
        r@ == "kw_session="@ + id@ + "; HttpOnly; Secure; SameSite=Lax; Path=/; Max-Age="@
            + signed_decimal(max_age as int),
        max_age >= 0 ==> decimal_value(signed_decimal(max_age as int)) == max_age,
        max_age < 0 ==> signed_decimal(max_age as int)[0] == '-' && decimal_value(
            signed_decimal(max_age as int).skip(1),
        ) == -max_age,
{
    signed_decimal_reads_back(max_age as int);
}

/// The cookie that clears a session has no id and no time left.
pub proof fn cleared_cookie_is_empty(r: String)
    requires
        call_ensures(clear_cookie, (), r),
    ensures
        r@ == "kw_session="@ + ""@ + "; HttpOnly; Secure; SameSite=Lax; Path=/; Max-Age="@ + "0"@,
{
    reveal_strlit("0");
    assert(signed_decimal(0) =~= "0"@);
}

/// The seconds that a cookie is kept lead from now to the end of the session, and there are
/// none where that is over.
pub proof fn cookie_age_leads_to_the_end(end: i64, now: i64, r: i64)
    requires
        call_ensures(max_age, (end, now), r),
    ensures
        end <= now ==> r == 0,
        now < end && end - now <= i64::MAX ==> now + r == end,
        end - now > i64::MAX ==> r == i64::MAX,
{
}

/// A new store has no session and no login in flight.
pub proof fn new_store_is_empty(store: Store, id: &str, now: i64, r: Option<(String, String, String)>)
    requires
        call_ensures(Store::new, (), store),
        call_ensures(Store::get, (&store, id, now), r),
    ensures
        r is None,
        !store@.pending.contains_key(id@),
{
}

/// A session that was created is found with its own token, name and subject until it
/// expires, and is not found once it was removed; another session is found as before.
pub proof fn created_session_is_found_until_removed(
    create: &mut Store,
    id: String,
    new: Session,
    now: i64,
    after: &Store,
    asked: &str,
    later: i64,
    found: Option<(String, String, String)>,
    remove: &mut Store,
    gone: &str,
    rest: &Store,
    left: Option<(String, String, String)>,
)
    requires
        call_ensures(Store::create, (create, id, new, now), ()),
        call_ensures(Store::get, (after, asked, later), found),
        call_ensures(Store::remove, (remove, gone), ()),
        call_ensures(Store::get, (rest, asked, later), left),
        after@ == final(create)@,
        old(remove)@ == after@,
        rest@ == final(remove)@,
        now <= later,
    ensures
        asked@ == id@ && later < new.expires_at ==> found == Some(
            (new.token, new.user_name, new.sub),
        ),
        asked@ == id@ && new.expires_at <= later ==> found is None,
        asked@ != id@ && old(create)@.sessions.contains_key(asked@) && later
            < old(create)@.sessions[asked@].expires_at ==> found == Some(
            (
                old(create)@.sessions[asked@].token,
                old(create)@.sessions[asked@].user_name,
                old(create)@.sessions[asked@].sub,
            ),
        ),
        asked@ != id@ && !old(create)@.sessions.contains_key(asked@) ==> found is None,
        asked@ == gone@ ==> left is None,
        asked@ != gone@ ==> left == found,
        rest@.pending == old(create)@.pending,
{
    session_is_found_as_it_was_recorded(old(create)@, asked@, later);
    if asked@ != id@ {
        sessions_do_not_disturb_each_other(old(create)@, id@, new, now, asked@, later);
    }
    if asked@ != gone@ {
        sessions_do_not_disturb_each_other(after@, gone@, new, later, asked@, later);
    }
}

/// Text of an odd length, or with something else than digits in it, is no hex.
pub proof fn text_that_is_no_hex_is_refused(s: &str, r: Result<Vec<u8>, String>, k: int)
    requires
        call_ensures(from_hex, (s,), r),
    ensures
        encode_utf8(s@).len() % 2 != 0 ==> (r matches Err(e) && e@ == "odd-length hex"@),
        encode_utf8(s@).len() % 2 == 0 && 0 <= k < encode_utf8(s@).len() / 2 && pair_at(
            encode_utf8(s@),
            k,
        ) is None ==> (r matches Err(e) && e@ == "bad hex: invalid digit found in string"@),
        r matches Ok(v) ==> 2 * v@.len() == encode_utf8(s@).len(),
{
}

/// A call that cannot carry its token is not made, and one whose token is of plain
/// characters can.
pub proof fn scope_is_refused_with_the_token_only(
    token: &str,
    repo_id: &[u8],
    b: Result<String, String>,
    r: Result<RepoScope, String>,
)
    requires
        call_ensures(bearer, (token,), b),
        call_ensures(repo_scope, (token, repo_id), r),
    ensures
        r is Ok <==> b is Ok,
        r matches Err(e) ==> e@ == "invalid bearer token"@,
        b matches Err(e) ==> e@ == "invalid bearer token"@,
{
}

/// A service is reached where its client was told.
pub proof fn clients_reach_where_they_were_told(
    endpoint: String,
    auth: AuthClient,
    at: &str,
    lore: LoreClient,
    there: &str,
)
    requires
        call_ensures(AuthClient::new, (endpoint,), auth),
        call_ensures(AuthClient::endpoint, (&auth,), at),
        call_ensures(LoreClient::new, (endpoint,), lore),
        call_ensures(LoreClient::endpoint, (&lore,), there),
    ensures
        at@ == endpoint@,
        there@ == endpoint@,
{
}

/// A provider's discovery document is found below the issuer that its client was made for,
/// with one slash between them.
pub proof fn discovery_is_below_the_issuer(
    issuer: String,
    client_id: String,
    redirect_uri: String,
    client: Oidc,
    url: String,
    base: Seq<char>,
    n: nat,
)
    requires
        call_ensures(Oidc::new, (issuer, client_id, redirect_uri), client),
        call_ensures(Oidc::discovery_url, (&client,), url),
        base.len() > 0 ==> base.last() != '/',
        issuer@ == base + Seq::new(n, |i: int| '/'),
    ensures
        url@ == base + "/.well-known/openid-configuration"@,
        client.client_id() == client_id@,
        client.redirect_uri() == redirect_uri@,
{
    discovery_ignores_trailing_slashes(base, n);
}

/// The challenge that is sent for a verifier is its digest.
pub proof fn sent_challenge_is_the_digest(verifier: &str, r: String)
    requires
        call_ensures(code_challenge, (verifier,), r),
    ensures
        unbase64url(r@) == Some(sha256(encode_utf8(verifier@))),
{
    challenge_is_the_digest(verifier@, verifier@);
}

/// A login that failed leads back to the start, as such.
pub proof fn failed_login_leads_to_the_start(r: Redirect)
    requires
        call_ensures(login_failed, (), r),
    ensures
        is_failed_login(r),
{
}

/// A login that was begun is in flight under its state, with a verifier of which the browser
/// is given the challenge; the other logins and the sessions stay.
pub proof fn begun_login_is_in_flight(store: &mut Store, now: i64, r: LoginBegun)
    requires
        call_ensures(begin_login, (store, now), r),
    ensures
        final(store)@.pending.contains_key(r.state@),
        unbase64url(r.challenge@) == Some(
            sha256(encode_utf8(final(store)@.pending[r.state@].verifier@)),
        ),
        final(store)@.pending[r.state@].verifier@.len() == 43,
        exists|x: u128| is_drawn(x) && r.state@ == #[trigger] id_of(x),
        exists|b: [u8; 32]|
            are_drawn(b) && final(store)@.pending[r.state@].verifier@ == #[trigger] base64url(b@),
        final(store)@.sessions == old(store)@.sessions,
        forall|other: Seq<char>|
            other != r.state@ && #[trigger] old(store)@.pending.contains_key(other) && now
                < old(store)@.pending[other].expires_at ==> final(store)@.pending.contains_key(other)
                && final(store)@.pending[other] == old(store)@.pending[other],
{
    let (x, bytes) = choose|x: u128, bytes: [u8; 32]|
        is_drawn(x) && are_drawn(bytes) && #[trigger] begun(
            old(store)@,
            final(store)@,
            x,
            bytes,
            now,
            r,
        );
    let verifier = choose|verifier: String|
        verifier@ == base64url(bytes@) && final(store)@ == #[trigger] with_login(
            old(store)@,
            id_of(x),
            verifier,
            now,
        );
    challenge_is_the_digest(verifier@, verifier@);
    lemma_base64url_len(bytes@);
}

/// A later time is as many seconds later, or the end of the clock's range.
pub proof fn later_time_is_that_much_later(now: i64, secs: i64, r: i64)
    requires
        call_ensures(later, (now, secs), r),
        secs >= 0,
    ensures
        now + secs <= i64::MAX ==> r == now + secs,
        now + secs > i64::MAX ==> r == i64::MAX,
{
}

/// A fresh verifier stands for 32 bytes, and is what drawn bytes give.
pub proof fn verifier_stands_for_its_bytes(bytes: [u8; 32], r: String, fresh: String)
    requires
        call_ensures(verifier_from, (&bytes,), r),
        call_ensures(code_verifier, (), fresh),
    ensures
        unbase64url(r@) == Some(bytes@),
        unbase64url(fresh@) matches Some(b) && b.len() == 32,
        exists|b: [u8; 32]| are_drawn(b) && unbase64url(fresh@) == Some(#[trigger] b@),
{
    base64url_reads_back(bytes@, r@);
    let b = choose|b: [u8; 32]| are_drawn(b) && fresh@ == #[trigger] base64url(b@);
    base64url_reads_back(b@, fresh@);
}

/// The state of a login is drawn for it.
pub proof fn state_is_drawn(r: String)
    requires
        call_ensures(random_state, (), r),
    ensures
        exists|x: u128| is_drawn(x) && r@ == #[trigger] id_of(x),
{
}

/// Starting a login drops the logins whose time is over, and no other; creating a session
/// drops the sessions that have expired, and no other.
pub proof fn only_what_is_over_is_dropped(
    start: &mut Store,
    state: String,
    verifier: String,
    create: &mut Store,
    id: String,
    new: Session,
    now: i64,
    other: Seq<char>,
)
    requires
        call_ensures(Store::start_login, (start, state, verifier, now), ()),
        call_ensures(Store::create, (create, id, new, now), ()),
    ensures
        other != state@ ==> (final(start)@.pending.contains_key(other) <==> old(start)@.pending.contains_key(other) && now < old(start)@.pending[other].expires_at),
        final(start)@.pending.contains_key(state@),
        final(start)@.pending[state@].verifier == verifier,
        final(start)@.sessions == old(start)@.sessions,
        other != id@ ==> (final(create)@.sessions.contains_key(other) <==> old(create)@.sessions.contains_key(other) && now
            < old(create)@.sessions[other].expires_at),
        final(create)@.sessions.contains_key(id@),
        final(create)@.sessions[id@] == new,
        final(create)@.pending == old(create)@.pending,
{
}

/// A token is asked for, and the browser sent off, for the client and back to the address
/// that were told.
pub proof fn login_is_for_the_client_that_was_told(
    issuer: String,
    client_id: String,
    redirect_uri: String,
    client: Oidc,
    code: &str,
    verifier: &str,
    form: Vec<(&'static str, String)>,
    endpoint: &str,
    state: &str,
    challenge: &str,
    r: Result<String, String>,
)
    requires
        call_ensures(Oidc::new, (issuer, client_id, redirect_uri), client),
        call_ensures(Oidc::token_form, (&client, code, verifier), form),
        call_ensures(Oidc::authorize_url, (&client, endpoint, state, challenge), r),
    ensures
        form_of(form@).contains(("redirect_uri"@, redirect_uri@)),
        form_of(form@).contains(("client_id"@, client_id@)),
        exists|pairs: Seq<(Seq<char>, Seq<char>)>|
            {
                &&& pairs.contains(("client_id"@, client_id@))
                &&& pairs.contains(("redirect_uri"@, redirect_uri@))
                &&& match #[trigger] url_with_query(endpoint@, pairs) {
                    Ok(url) => r matches Ok(u) && u@ == url,
                    Err(e) => r matches Err(m) && m@ == "authorize url: "@ + e,
                }
            },
{
    let f = form_of(form@);
    assert(f[2] == ("redirect_uri"@, redirect_uri@));
    assert(f[3] == ("client_id"@, client_id@));
    login_asks_with_its_own_state(client, state@, challenge@);
    let pairs = client.authorize_pairs(state@, challenge@);
    let u = url_with_query(endpoint@, pairs);
}

}
