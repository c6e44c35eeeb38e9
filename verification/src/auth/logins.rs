//! What a login comes to: from its start to the token that it ends with.
use std::time::Duration;

use vstd::prelude::*;

use crate::auth::acceptance::account_is_the_verified_email_or_the_subject;
use crate::auth::answers::{
    display_name_is_the_first_that_is_given, exchanged_token_carries_the_scope, has_entry,
    is_grant_list, is_in_scope, is_text_list, issued_answer_tells_of_its_token,
    login_token_carries_the_account, minted_claims_are_written_out, minted_token_carries_its_grants,
    user_name_is_the_first_that_is_there,
};
use crate::auth::dexlogin::{
    classify, error_ends_the_login, form_of, returned_token_ends_the_login, started,
    user_is_sent_to_the_fuller_url, DeviceCodeResponse, DeviceStart, DexLogin, Poll,
};
use crate::auth::keys::{grants_of, lore_claims, minted, MintedClaims, ResourceGrant, Signer};
use crate::auth::payload::token_claim;
use crate::auth::service::{
    display_name, display_names, display_username, exchange_grantee, login_grantee,
    polled_auth_session, random_id, resolve_auth_session, start_auth_session, start_auth_session_at,
    Auth, Code, Grantee, LoginStarted, LoginStep, Status, UserToken,
};
use crate::auth::sessions::Sessions;
use crate::auth::store::{effective_role, Role, Store};
use crate::auth::tokens::{carried, issued_token_is_accepted, minted_token_is_read_back};
use crate::auth::verify::{
    account_of, lowercase, DexVerifier, Found, Identity, IdentityClaims, Lookup, SelfVerifier,
    VerifyError,
};
use crate::clock::{is_instant, is_now, is_time_since, nanos_of};
use crate::encoding::{id_of, is_drawn};
use crate::json::Json;
use crate::text::texts;

verus! {

/// A session that was recorded is found by a poll with its code and its client state, with
/// its own device code and endpoint, for as long as it lives and no longer; with another
/// client state it is not.
pub proof fn recorded_session_is_found_while_it_lives(
    record: &mut Sessions,
    session_code: String,
    device_code: String,
    token_endpoint: String,
    client_state: String,
    ttl: Duration,
    now: u128,
    poll: &mut Sessions,
    code: &str,
    state: &str,
    later: u128,
    r: Option<(String, String)>,
)
    requires
        call_ensures(
            Sessions::insert_at,
            (record, session_code, device_code, token_endpoint, client_state, ttl, now),
            (),
        ),
        call_ensures(Sessions::resolve_at, (poll, code, state, later), r),
        old(poll)@ == final(record)@,
        code@ == session_code@,
        now <= later,
        now + nanos_of(ttl) <= u128::MAX,
    ensures
        state@ == client_state@ && later < now + nanos_of(ttl) ==> r == Some(
            (device_code, token_endpoint),
        ),
        state@ != client_state@ || later >= now + nanos_of(ttl) ==> r is None,
{
}

/// Recording, polling for and forgetting one session leave what a poll for another finds as
/// it is.
pub proof fn sessions_are_found_apart(
    record: &mut Sessions,
    session_code: String,
    device_code: String,
    token_endpoint: String,
    client_state: String,
    ttl: Duration,
    now: u128,
    forget: &mut Sessions,
    gone: &str,
    poll: &mut Sessions,
    code: &str,
    state: &str,
    later: u128,
    r: Option<(String, String)>,
)
    requires
        call_ensures(
            Sessions::insert_at,
            (record, session_code, device_code, token_endpoint, client_state, ttl, now),
            (),
        ),
        call_ensures(Sessions::remove, (forget, gone), ()),
        call_ensures(Sessions::resolve_at, (poll, code, state, later), r),
        old(forget)@ == final(record)@,
        old(poll)@ == final(forget)@,
        code@ != session_code@,
        now <= later,
    ensures
        code@ == gone@ ==> r is None,
        code@ != gone@ && old(record)@.contains_key(code@) && later
            < old(record)@[code@].expires_at && old(record)@[code@].client_state@ == state@
            ==> r == Some(
            (old(record)@[code@].device_code, old(record)@[code@].token_endpoint),
        ),
        !old(record)@.contains_key(code@) ==> r is None,
        final(poll)@.contains_key(session_code@) ==> final(poll)@[session_code@].device_code
            == device_code,
{
}

/// A login that was started is answered with the URL to send the user to and a code, under
/// which it is found for as long as its device code lives, but a minute at least and ten at
/// most.
pub proof fn started_login_is_found_by_its_code(
    start: &mut Sessions,
    device: DeviceStart,
    client_state: String,
    x: u128,
    now: u128,
    reply: LoginStarted,
    poll: &mut Sessions,
    code: &str,
    state: &str,
    later: u128,
    r: Option<(String, String)>,
)
    requires
        call_ensures(start_auth_session_at, (start, device, client_state, x, now), reply),
        call_ensures(Sessions::resolve_at, (poll, code, state, later), r),
        old(poll)@ == final(start)@,
        code@ == reply.session_code@,
        now <= later,
        now + 600_000_000_000 <= u128::MAX,
    ensures
        reply.session_code@ == id_of(x),
        reply.login_url@ == device.login_url@,
        ({
            let secs = if device.expires_in < 60 {
                60
            } else if device.expires_in > 600 {
                600
            } else {
                device.expires_in as int
            };
            &&& state@ == client_state@ && later < now + secs * 1_000_000_000 ==> r == Some(
                (device.device_code, device.token_endpoint),
            )
            &&& state@ != client_state@ || later >= now + secs * 1_000_000_000 ==> r is None
        }),
{
}

/// A device authorization that failed starts no login, and is told as such.
pub proof fn failed_start_starts_nothing(
    sessions: &mut Sessions,
    device: Result<DeviceStart, String>,
    client_state: String,
    r: Result<LoginStarted, Status>,
)
    requires
        call_ensures(start_auth_session, (sessions, device, client_state), r),
    ensures
        device is Err ==> final(sessions)@ == old(sessions)@ && (r matches Err(s) && s.code
            == Code::Internal && s.message@ == "could not start login"@),
        device matches Ok(start) ==> (r matches Ok(reply) && reply.login_url@ == start.login_url@
            && final(sessions)@.contains_key(reply.session_code@)
            && final(sessions)@[reply.session_code@].device_code == start.device_code
            && final(sessions)@[reply.session_code@].token_endpoint == start.token_endpoint
            && final(sessions)@[reply.session_code@].client_state == client_state && exists|
            x: u128,
        |
            is_drawn(x) && reply.session_code@ == #[trigger] id_of(x)),
{
}

/// A poll for a login that is not there, or with another client state, is refused as
/// unknown; one that is answered is answered with what was recorded.
pub proof fn poll_is_for_a_known_login(
    sessions: &mut Sessions,
    session_code: &str,
    client_state: &str,
    r: Result<(String, String), Status>,
)
    requires
        call_ensures(resolve_auth_session, (sessions, session_code, client_state), r),
    ensures
        !old(sessions)@.contains_key(session_code@) ==> r is Err,
        old(sessions)@[session_code@].client_state@ != client_state@ ==> r is Err,
        r matches Ok(found) ==> found == (
            old(sessions)@[session_code@].device_code,
            old(sessions)@[session_code@].token_endpoint,
        ),
        old(sessions)@.contains_key(session_code@) && old(sessions)@[session_code@].client_state@
            == client_state@ && (forall|now: u128| #[trigger]
            is_time_since(old(sessions).origin(), now) ==> now
                < old(sessions)@[session_code@].expires_at) ==> r is Ok,
        r is Ok ==> exists|now: u128| #[trigger]
            is_time_since(old(sessions).origin(), now) && now
                < old(sessions)@[session_code@].expires_at,
        r matches Err(s) ==> s.code == Code::NotFound && s.message@
            == "unknown or expired login session"@,
{
}

/// While the user is still authorizing nothing is answered and nothing changes; a token is
/// handed on as it is; a login that was denied is over, and no other; a poll that failed is
/// told as such and may be made again.
pub proof fn poll_goes_on_as_dex_says(
    sessions: &mut Sessions,
    session_code: &str,
    polled: Result<Poll, String>,
    r: LoginStep,
    other: Seq<char>,
)
    requires
        call_ensures(polled_auth_session, (sessions, session_code, polled), r),
    ensures
        polled matches Ok(Poll::Pending) ==> r == LoginStep::Answer(Ok(None)),
        polled matches Ok(Poll::Token(t)) ==> (r matches LoginStep::Verify(x) && x@ == t@),
        polled matches Ok(Poll::Denied(e)) ==> (r matches LoginStep::Answer(Err(s)) && s.code
            == Code::PermissionDenied && s.message@ == "login not completed: "@ + e@),
        polled is Err ==> (r matches LoginStep::Answer(Err(s)) && s.code == Code::Internal
            && s.message@ == "login poll failed"@),
        !(polled matches Ok(Poll::Denied(_))) ==> final(sessions)@ == old(sessions)@,
        polled matches Ok(Poll::Denied(_)) ==> !final(sessions)@.contains_key(session_code@),
        other != session_code@ ==> final(sessions)@.contains_key(other)
            == old(sessions)@.contains_key(other) && (old(sessions)@.contains_key(other)
            ==> final(sessions)@[other] == old(sessions)@[other]),
{
}

/// What Dex replies to a poll is read as it is meant: a token, the id token first, ends the
/// login; without one it goes on where Dex asks to wait, and else ends with the error.
pub proof fn reply_is_read_as_it_is_meant(
    id_token: Option<String>,
    access_token: Option<String>,
    error: Option<String>,
    r: Poll,
)
    requires
        call_ensures(classify, (id_token, access_token, error), r),
    ensures
        (id_token matches Some(t) && t@.len() > 0) ==> (r matches Poll::Token(x) && x@
            == id_token->Some_0@),
        (id_token is None || id_token->Some_0@.len() == 0) && (access_token matches Some(t)
            && t@.len() > 0) ==> (r matches Poll::Token(x) && x@ == access_token->Some_0@),
        (id_token is None || id_token->Some_0@.len() == 0) && (access_token is None
            || access_token->Some_0@.len() == 0) ==> match error {
            None => r is Pending,
            Some(e) => if e@ == "authorization_pending"@ || e@ == "slow_down"@ {
                r is Pending
            } else {
                r matches Poll::Denied(x) && x@ == e@
            },
        },
{
    returned_token_ends_the_login(id_token, access_token, error);
    if (id_token is None || id_token->Some_0@.len() == 0) && (access_token is None
        || access_token->Some_0@.len() == 0) {
        error_ends_the_login(id_token, access_token, error);
    }
}

/// A device authorization starts a login with the fuller URL that Dex gave, the device code
/// and its time, at the token endpoint that was found; without a URL it starts none.
pub proof fn authorization_starts_a_login(
    resp: DeviceCodeResponse,
    token_endpoint: String,
    r: Result<DeviceStart, String>,
)
    requires
        call_ensures(started, (resp, token_endpoint), r),
    ensures
        resp.verification_uri_complete is None && resp.verification_uri is None ==> r is Err,
        resp.verification_uri_complete matches Some(url) ==> (r matches Ok(start)
            && start.login_url@ == url@),
        resp.verification_uri_complete is None ==> (resp.verification_uri matches Some(url) ==> (
        r matches Ok(start) && start.login_url@ == url@)),
        r matches Ok(start) ==> start.device_code@ == resp.device_code@ && start.token_endpoint@
            == token_endpoint@ && start.expires_in == resp.expires_in,
{
    user_is_sent_to_the_fuller_url(resp);
}

/// A login is begun for this client with the scope of a login, and polled for with its
/// device code under the grant type of the device flow.
pub proof fn forms_are_for_this_client(
    login: DexLogin,
    begin: Vec<(&'static str, String)>,
    device_code: &str,
    poll: Vec<(&'static str, String)>,
)
    requires
        call_ensures(DexLogin::start_form, (&login,), begin),
        call_ensures(DexLogin::poll_form, (&login, device_code), poll),
    ensures
        form_of(begin@).len() == 2,
        form_of(begin@).contains(("client_id"@, login.client_id())),
        form_of(begin@).contains(("scope"@, "openid profile email"@)),
        form_of(poll@).len() == 3,
        form_of(poll@).contains(("client_id"@, login.client_id())),
        form_of(poll@).contains(("device_code"@, device_code@)),
        form_of(poll@).contains(
            ("grant_type"@, "urn:ietf:params:oauth:grant-type:device_code"@),
        ),
{
    let (b, p) = (form_of(begin@), form_of(poll@));
    assert(b[0] == ("client_id"@, login.client_id()));
    assert(b[1] == ("scope"@, "openid profile email"@));
    assert(p[0] == ("grant_type"@, "urn:ietf:params:oauth:grant-type:device_code"@));
    assert(p[1] == ("device_code"@, device_code@));
    assert(p[2] == ("client_id"@, login.client_id()));
}

/// The names that a token is issued with are the first that the claims give.
pub proof fn names_are_the_first_that_are_given(claims: IdentityClaims, r: (String, String))
    requires
        call_ensures(display_names, (&claims,), r),
    ensures
        claims.name matches Some(t) ==> (t@.len() > 0 ==> r.0@ == t@),
        claims.name is None ==> (claims.preferred_username matches Some(t) ==> (t@.len() > 0
            ==> r.0@ == t@)),
        claims.name is None && claims.preferred_username is None ==> (claims.email matches Some(t)
            ==> (t@.len() > 0 ==> r.0@ == t@)),
        claims.name is None && claims.preferred_username is None && claims.email is None ==> r.0@
            == claims.sub@,
        claims.preferred_username matches Some(t) ==> r.1@ == t@,
        claims.preferred_username is None ==> (claims.email matches Some(t) ==> r.1@ == t@),
        claims.preferred_username is None && claims.email is None ==> r.1@ == r.0@,
{
    display_name_is_the_first_that_is_given(claims@);
    user_name_is_the_first_that_is_there(claims@);
}

/// The account of a login is its verified email address in lowercase, or else its subject.
pub proof fn account_is_the_email_or_the_subject(claims: IdentityClaims, r: String)
    requires
        call_ensures(IdentityClaims::canonical_subject, (&claims,), r),
    ensures
        claims.email_verified != Some(true) || claims.email is None
            || claims.email->Some_0@.len() == 0 ==> r@ == claims.sub@,
        claims.email_verified == Some(true) ==> (claims.email matches Some(email) ==> (email@.len()
            > 0 ==> r@ == lowercase(email@))),
{
    account_is_the_verified_email_or_the_subject(claims@);
}

/// A minted token carries what it was minted with, and nothing else gets into it.
pub proof fn minted_token_carries_what_it_was_given(
    signer: Signer,
    issuer: &str,
    audience: &str,
    subject: &str,
    name: &str,
    username: &str,
    exp: u64,
    resources: Vec<ResourceGrant>,
    iat: u64,
    r: Result<String, String>,
)
    requires
        call_ensures(
            Signer::mint_at,
            (&signer, issuer, audience, subject, name, username, exp, resources, iat),
            r,
        ),
    ensures
        r matches Ok(token) ==> {
            &&& token_claim(token@, "iss"@) == Some(Some(Json::Text(issuer@)))
            &&& token_claim(token@, "aud"@) == Some(Some(Json::Array(seq![Json::Text(audience@)])))
            &&& token_claim(token@, "sub"@) == Some(Some(Json::Text(subject@)))
            &&& token_claim(token@, "name"@) == Some(Some(Json::Text(name@)))
            &&& token_claim(token@, "preferred_username"@) == Some(Some(Json::Text(username@)))
            &&& token_claim(token@, "exp"@) == Some(Some(Json::Unsigned(exp)))
            &&& token_claim(token@, "iat"@) == Some(Some(Json::Unsigned(iat)))
            &&& token_claim(token@, "is_service_account"@) == Some(Some(Json::Bool(false)))
            &&& token_claim(token@, "resources"@) matches Some(v) && is_grant_list(
                v,
                grants_of(resources@),
            )
        },
{
    if let Ok(token) = r {
        minted_token_carries_its_grants(
            token@,
            issuer@,
            audience@,
            subject@,
            name@,
            username@,
            exp,
            grants_of(resources@),
            iat,
        );
    }
}

/// A minted token is read back by whoever holds the signer's key, for the same issuer and
/// audience, until it expires, with the subject and names that it was minted with; by
/// nobody else who holds the key, and not after that.
pub proof fn minted_token_is_read_back_as_it_was_given(
    signer: Signer,
    issuer: &str,
    audience: &str,
    subject: &str,
    name: &str,
    username: &str,
    exp: u64,
    resources: Vec<ResourceGrant>,
    iat: u64,
    minted: Result<String, String>,
    v: SelfVerifier,
    token: &str,
    now: u64,
    r: Option<IdentityClaims>,
)
    requires
        call_ensures(
            Signer::mint_at,
            (&signer, issuer, audience, subject, name, username, exp, resources, iat),
            minted,
        ),
        call_ensures(SelfVerifier::claims_at, (&v, token, now), r),
        minted matches Ok(t) && t@ == token@,
        v.key() == signer.public_key(),
    ensures
        v.issuer() == issuer@ && v.audience() == audience@ && now <= exp ==> (r matches Some(c)
            && c.sub@ == subject@ && c.exp == exp && (c.name matches Some(n) && n@ == name@) && (
        c.preferred_username matches Some(u) && u@ == username@) && c.email is None
            && c.email_verified is None),
        v.issuer() != issuer@ || v.audience() != audience@ || now > exp ==> r is None,
{
    minted_token_is_read_back(
        signer,
        v,
        token@,
        issuer@,
        audience@,
        (Grantee {
            subject: subject@,
            name: name@,
            username: username@,
            exp,
            resources: grants_of(resources@),
        }),
        iat,
        now,
    );
}

/// A login is answered with a token of its account, under its names, until the end that it
/// came with, and with access to nothing.
pub proof fn login_is_answered_with_its_account(
    auth: Auth,
    claims: IdentityClaims,
    iat: u64,
    r: Result<UserToken, Status>,
)
    requires
        call_ensures(Auth::issue_login_at, (&auth, &claims, iat), r),
    ensures
        r matches Ok(t) ==> {
            &&& token_claim(t.user_token@, "sub"@) == Some(Some(Json::Text(account_of(claims@))))
            &&& token_claim(t.user_token@, "exp"@) == Some(Some(Json::Unsigned(claims.exp)))
            &&& token_claim(t.user_token@, "iat"@) == Some(Some(Json::Unsigned(iat)))
            &&& token_claim(t.user_token@, "iss"@) == Some(Some(Json::Text(auth.auth_issuer@)))
            &&& token_claim(t.user_token@, "aud"@) == Some(
                Some(Json::Array(seq![Json::Text(auth.audience@)])),
            )
            &&& token_claim(t.user_token@, "name"@) == Some(Some(Json::Text(display_name(claims@))))
            &&& token_claim(t.user_token@, "resources"@) matches Some(Some(Json::Array(items)))
                && items.len() == 0
            &&& t.user_id@ == account_of(claims@)
            &&& t.user_name@ == display_name(claims@)
            &&& claims.exp <= i64::MAX ==> t.expires_at == claims.exp
        },
        r matches Err(s) ==> s.code == Code::Internal && s.message@ == "token issuance failed"@,
{
    issued_answer_tells_of_its_token(auth, login_grantee(claims@), iat, r);
    if let Ok(t) = r {
        login_token_carries_the_account(auth, t.user_token@, claims@, iat);
    }
}

/// An exchange is answered with a token of the caller's subject, under its names, until the
/// end that its bearer came with, with an entry for each requested resource on which it has
/// a role, with all of that role's permissions, and with no other entry.
pub proof fn exchange_is_answered_with_the_scope(
    auth: Auth,
    store: Store,
    claims: IdentityClaims,
    requested: Vec<String>,
    iat: u64,
    r: Result<UserToken, Status>,
)
    requires
        call_ensures(Auth::issue_scoped_at, (&auth, &store, &claims, &requested, iat), r),
    ensures
        r matches Ok(t) ==> {
            &&& token_claim(t.user_token@, "sub"@) == Some(Some(Json::Text(claims.sub@)))
            &&& token_claim(t.user_token@, "exp"@) == Some(Some(Json::Unsigned(claims.exp)))
            &&& token_claim(t.user_token@, "iss"@) == Some(Some(Json::Text(auth.auth_issuer@)))
            &&& token_claim(t.user_token@, "aud"@) == Some(
                Some(Json::Array(seq![Json::Text(auth.audience@)])),
            )
            &&& token_claim(t.user_token@, "name"@) == Some(Some(Json::Text(display_name(claims@))))
            &&& token_claim(t.user_token@, "preferred_username"@) == Some(
                Some(Json::Text(display_username(claims@))),
            )
            &&& token_claim(t.user_token@, "iat"@) == Some(Some(Json::Unsigned(iat)))
            &&& t.user_id@ == claims.sub@
            &&& t.user_name@ == display_name(claims@)
            &&& claims.exp <= i64::MAX ==> t.expires_at == claims.exp
            &&& token_claim(t.user_token@, "resources"@) matches Some(Some(Json::Array(items))) && {
                &&& forall|i: int|
                    0 <= i < requested@.len() ==> (effective_role(
                        store@,
                        claims.sub@,
                        (#[trigger] requested@[i])@,
                    ) == Some(Role::Owner) ==> has_entry(
                        items,
                        requested@[i]@,
                        seq!["owner"@, "admin"@, "obliterate"@, "migrate"@, "read"@, "write"@],
                    ))
                &&& forall|i: int|
                    0 <= i < requested@.len() ==> (effective_role(
                        store@,
                        claims.sub@,
                        (#[trigger] requested@[i])@,
                    ) == Some(Role::Member) ==> has_entry(
                        items,
                        requested@[i]@,
                        seq!["read"@, "write"@],
                    ))
                &&& forall|k: int|
                    0 <= k < items.len() ==> is_in_scope(
                        #[trigger] items[k],
                        store@,
                        claims.sub@,
                        texts(requested@),
                    )
            }
        },
        r matches Err(s) ==> s.code == Code::Internal && s.message@ == "token issuance failed"@,
{
    let ids = texts(requested@);
    let g = exchange_grantee(claims@, store@, ids);
    issued_answer_tells_of_its_token(auth, g, iat, r);
    if let Ok(t) = r {
        let token = t.user_token@;
        exchanged_token_carries_the_scope(auth, token, claims@, store@, ids, iat);
        minted_token_carries_its_grants(
            token,
            auth.auth_issuer@,
            auth.audience@,
            g.subject,
            g.name,
            g.username,
            g.exp,
            g.resources,
            iat,
        );
        let items = token_claim(token, "resources"@)->Some_0->Some_0->Array_0;
        assert(forall|i: int|
            0 <= i < requested@.len() ==> (#[trigger] requested@[i])@ == ids[i]);
    }
}

/// The token that a login was answered with is accepted, as it comes back, for the account
/// of the login, by the service that issued it, until it expires.
pub proof fn login_token_comes_back_as_the_account(
    auth: Auth,
    claims: IdentityClaims,
    iat: u64,
    answer: Result<UserToken, Status>,
    dex: DexVerifier,
    resolver: Result<Identity, VerifyError>,
    bearer: &str,
    now: u64,
    found: Lookup<IdentityClaims>,
)
    requires
        auth.wf(),
        call_ensures(Auth::issue_login_at, (&auth, &claims, iat), answer),
        call_ensures(Auth::identity, (&auth, dex), resolver),
        resolver matches Ok(id) && call_ensures(Identity::claims_at, (&id, bearer, now), found),
        answer matches Ok(t) && t.user_token@ == bearer@,
        now <= claims.exp,
    ensures
        found matches Lookup::Done(Ok(c)) && c.sub@ == account_of(claims@) && c.exp == claims.exp
            && (c.name matches Some(n) && n@ == display_name(claims@)),
{
    let id = resolver->Ok_0;
    let g = login_grantee(claims@);
    issued_answer_tells_of_its_token(auth, g, iat, answer);
    issued_token_is_accepted(auth, id, bearer@, g, iat, now);
    assert(found@ == Found::Done(Ok(carried(g))));
}

/// A session that is recorded has what it was recorded with and lives as long as it was given
/// from the time on that the clock gave; a poll finds it only with its own client state, and
/// does as the clock says that it lives.
pub proof fn recorded_session_is_found_at_any_time(
    record: &mut Sessions,
    session_code: String,
    device_code: String,
    token_endpoint: String,
    client_state: String,
    ttl: Duration,
    poll: &mut Sessions,
    code: &str,
    state: &str,
    r: Option<(String, String)>,
)
    requires
        call_ensures(
            Sessions::insert,
            (record, session_code, device_code, token_endpoint, client_state, ttl),
            (),
        ),
        call_ensures(Sessions::resolve, (poll, code, state), r),
        old(poll)@ == final(record)@,
        old(poll).origin() == final(record).origin(),
        code@ == session_code@,
    ensures
        final(record)@.contains_key(session_code@),
        final(record)@[session_code@].device_code == device_code,
        final(record)@[session_code@].token_endpoint == token_endpoint,
        final(record)@[session_code@].client_state == client_state,
        r matches Some(found) ==> found == (device_code, token_endpoint) && state@ == client_state@,
        exists|now: u128| #[trigger]
            is_time_since(old(record).origin(), now) && (now + nanos_of(ttl) <= u128::MAX
                ==> final(record)@[session_code@].expires_at == now + nanos_of(ttl)),
        state@ == client_state@ && (forall|now: u128| #[trigger]
            is_time_since(old(record).origin(), now) ==> now
                < final(record)@[session_code@].expires_at) ==> r is Some,
        r is Some ==> exists|now: u128| #[trigger]
            is_time_since(old(record).origin(), now) && now
                < final(record)@[session_code@].expires_at,
{
}

/// Sweeping drops what has expired, and nothing else.
pub proof fn sweeping_drops_the_expired(sessions: &mut Sessions, now: u128, code: Seq<char>)
    requires
        call_ensures(Sessions::sweep, (sessions, now), ()),
    ensures
        final(sessions)@.contains_key(code) <==> old(sessions)@.contains_key(code) && now
            < old(sessions)@[code].expires_at,
        final(sessions)@.contains_key(code) ==> final(sessions)@[code] == old(sessions)@[code],
{
}

/// A new table has no session, and its clock starts when it was made.
pub proof fn new_table_is_empty(sessions: Sessions, code: Seq<char>)
    requires
        call_ensures(Sessions::new, (), sessions),
    ensures
        !sessions@.contains_key(code),
        is_instant(sessions.origin()),
{
}

/// The code of a login is drawn for it.
pub proof fn session_code_is_drawn(r: String)
    requires
        call_ensures(random_id, (), r),
    ensures
        exists|x: u128| is_drawn(x) && r@ == #[trigger] id_of(x),
{
}

/// Whatever claims are signed, the token carries each of them under its own name.
pub proof fn signed_token_carries_its_claims(
    signer: Signer,
    c: MintedClaims,
    r: Result<String, String>,
)
    requires
        call_ensures(Signer::sign, (&signer, &c), r),
    ensures
        r matches Ok(token) ==> {
            &&& token_claim(token@, "iss"@) == Some(Some(Json::Text(c.iss@)))
            &&& token_claim(token@, "sub"@) == Some(Some(Json::Text(c.sub@)))
            &&& token_claim(token@, "iat"@) == Some(Some(Json::Unsigned(c.iat)))
            &&& token_claim(token@, "exp"@) == Some(Some(Json::Unsigned(c.exp)))
            &&& token_claim(token@, "name"@) == Some(Some(Json::Text(c.name@)))
            &&& token_claim(token@, "preferred_username"@) == Some(
                Some(Json::Text(c.preferred_username@)),
            )
            &&& token_claim(token@, "is_service_account"@) == Some(
                Some(Json::Bool(c.is_service_account)),
            )
            &&& token_claim(token@, "aud"@) matches Some(v) && is_text_list(v, texts(c.aud@))
            &&& token_claim(token@, "resources"@) matches Some(v) && is_grant_list(
                v,
                grants_of(c.resources@),
            )
        },
{
    minted_claims_are_written_out(c);
}

/// A token that is minted now carries what it was minted with, issued as the clock says.
pub proof fn token_minted_now_carries_what_it_was_given(
    signer: Signer,
    issuer: &str,
    audience: &str,
    subject: &str,
    name: &str,
    username: &str,
    exp: u64,
    resources: Vec<ResourceGrant>,
    r: Result<String, String>,
)
    requires
        call_ensures(
            Signer::mint,
            (&signer, issuer, audience, subject, name, username, exp, resources),
            r,
        ),
    ensures
        r matches Ok(token) ==> {
            &&& token_claim(token@, "iss"@) == Some(Some(Json::Text(issuer@)))
            &&& token_claim(token@, "aud"@) == Some(Some(Json::Array(seq![Json::Text(audience@)])))
            &&& token_claim(token@, "sub"@) == Some(Some(Json::Text(subject@)))
            &&& token_claim(token@, "name"@) == Some(Some(Json::Text(name@)))
            &&& token_claim(token@, "preferred_username"@) == Some(Some(Json::Text(username@)))
            &&& token_claim(token@, "exp"@) == Some(Some(Json::Unsigned(exp)))
            &&& exists|iat: u64| #[trigger]
                is_now(iat) && token_claim(token@, "iat"@) == Some(Some(Json::Unsigned(iat)))
            &&& token_claim(token@, "resources"@) matches Some(v) && is_grant_list(
                v,
                grants_of(resources@),
            )
        },
{
    let g = grants_of(resources@);
    let iat = choose|iat: u64|
        is_now(iat) && minted(
            signer,
            #[trigger] lore_claims(
                issuer@,
                audience@,
                subject@,
                name@,
                username@,
                exp,
                g,
                iat,
            ),
            r,
        );
    if let Ok(token) = r {
        minted_token_carries_its_grants(
            token@,
            issuer@,
            audience@,
            subject@,
            name@,
            username@,
            exp,
            g,
            iat,
        );
    }
}

/// Recording a session, and polling for one, drop the sessions that have expired, and no
/// other.
pub proof fn only_the_expired_are_dropped(
    record: &mut Sessions,
    session_code: String,
    device_code: String,
    token_endpoint: String,
    client_state: String,
    ttl: Duration,
    poll: &mut Sessions,
    code: &str,
    state: &str,
    r: Option<(String, String)>,
    now: u128,
    other: Seq<char>,
)
    requires
        call_ensures(
            Sessions::insert_at,
            (record, session_code, device_code, token_endpoint, client_state, ttl, now),
            (),
        ),
        call_ensures(Sessions::resolve_at, (poll, code, state, now), r),
    ensures
        other != session_code@ ==> (final(record)@.contains_key(other) <==> old(record)@.contains_key(other) && now < old(record)@[other].expires_at),
        final(poll)@.contains_key(other) <==> old(poll)@.contains_key(other) && now < old(poll)@[other].expires_at,
        final(poll)@.contains_key(other) ==> final(poll)@[other] == old(poll)@[other],
        final(record).origin() == old(record).origin(),
        final(poll).origin() == old(poll).origin(),
{
}

/// Logins go to the issuer, and are made for the client, that they were told.
pub proof fn logins_are_for_the_client_that_was_told(
    issuer: String,
    client_id: String,
    login: DexLogin,
    url: String,
    begin: Vec<(&'static str, String)>,
)
    requires
        call_ensures(DexLogin::new, (issuer, client_id), login),
        call_ensures(DexLogin::discovery_url, (&login,), url),
        call_ensures(DexLogin::start_form, (&login,), begin),
    ensures
        url@ == issuer@ + "/.well-known/openid-configuration"@,
        form_of(begin@).contains(("client_id"@, client_id@)),
{
    assert(form_of(begin@)[0] == ("client_id"@, client_id@));
}

}
