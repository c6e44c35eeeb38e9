//! What the auth service answers.
//!
//! Lore expects an auth service for two things: the exchange of an identity
//! token for a repository-scoped one, and the API by which loreserver creates
//! resources and asks who may reach them. Each call is decided here, from the
//! outcome of verifying the caller's bearer and from the store of grants.
use std::time::Duration;

use vstd::prelude::*;

use crate::auth::dexlogin::{DeviceStart, Poll};
use crate::auth::keys::{
    grants_of, is_minted, lore_claims, signed_token, GrantView, ResourceGrant, Signer,
};
use crate::auth::sessions::{expiry, found, live, Session, Sessions};
use crate::auth::store::{
    effective_role, reaches, role_permissions, with_owner, without_resource, Role, Store, StoreView,
};
use crate::auth::verify::{
    account_of, shown, Claims, DexVerifier, Identity, IdentityClaims, Refusal, SelfVerifier,
    VerifyError,
};
use crate::clock::{is_now, is_time, is_time_since, now_secs, signed_seconds};
use crate::encoding::{draw_number, id_from, id_of, is_drawn};
use crate::text::{after_prefix, opt_text, strip_prefix, texts};

verus! {

/// The kinds of refusal.
#[derive(Clone, Copy, Debug, PartialEq, Eq, Structural)]
pub enum Code {
    NotFound,
    PermissionDenied,
    Unauthenticated,
    Unimplemented,
    Internal,
}

/// Why a call is refused.
#[derive(Debug)]
pub struct Status {
    pub code: Code,
    pub message: String,
}

/// A refusal of a kind, in words.
pub open spec fn says(s: Status, code: Code, message: Seq<char>) -> bool {
    s.code == code && s.message@ == message
}

impl Status {
    pub fn new(code: Code, message: &str) -> (r: Status)
        ensures
            says(r, code, message@),
    {
        Status { code, message: message.to_owned() }
    }

    /// The answer to a call that is not offered.
    pub fn unimplemented(call: &str) -> (r: Status)
        ensures
            says(r, Code::Unimplemented, call@),
    {
        Status::new(Code::Unimplemented, call)
    }
}

/// What a subject may do on a resource.
#[derive(Debug)]
pub struct ResourcePermission {
    pub resource_id: String,
    pub permission: Vec<String>,
}

impl View for ResourcePermission {
    type V = GrantView;

    open spec fn view(&self) -> GrantView {
        GrantView { resource_id: self.resource_id@, permission: texts(self.permission@) }
    }
}

/// What a list of permissions holds.
pub open spec fn permissions_of(list: Seq<ResourcePermission>) -> Seq<GrantView> {
    list.map_values(|p: ResourcePermission| p@)
}

/// A token that was issued to a user.
#[derive(Debug)]
pub struct UserToken {
    pub user_token: String,
    pub expires_at: i64,
    pub user_id: String,
    pub user_name: String,
}

/// What a role allows on a resource.
pub open spec fn grant_view(resource_id: Seq<char>, role: Role) -> GrantView {
    GrantView { resource_id, permission: role_permissions(role) }
}

/// What a role allows on a resource.
pub fn grant(resource_id: String, role: Role) -> (r: ResourcePermission)
    ensures
        r@ == grant_view(resource_id@, role),
{
    ResourcePermission { resource_id, permission: role.permissions() }
}

/// The audiences whose Dex tokens are accepted: the CLI and device client, and
/// the web frontend client where one is set.
pub open spec fn dex_audiences_of(audience: Seq<char>, web_audience: Option<Seq<char>>) -> Seq<
    Seq<char>,
> {
    match web_audience {
        Some(web) => if web.len() > 0 {
            seq![audience, web]
        } else {
            seq![audience]
        },
        None => seq![audience],
    }
}

/// The audiences whose Dex tokens are accepted.
pub fn dex_audiences(audience: String, web_audience: Option<String>) -> (r: Vec<String>)
    ensures
        texts(r@) == dex_audiences_of(audience@, opt_text(web_audience)),
{
    let mut list: Vec<String> = Vec::new();
    list.push(audience);
    if let Some(web) = web_audience {
        if !web.as_str().is_empty() {
            list.push(web);
        }
    }
    list
}

/// The bearer token in the text of an `authorization` header.
pub open spec fn bearer_of(authorization: Option<&str>) -> Seq<char> {
    match authorization {
        Some(s) => match after_prefix(s@, "Bearer "@) {
            Some(token) => token,
            None => ""@,
        },
        None => ""@,
    }
}

/// The bearer token in the text of an `authorization` header: what follows
/// `Bearer `, or nothing.
pub fn bearer(authorization: Option<&str>) -> (r: String)
    ensures
        r@ == bearer_of(authorization),
{
    match authorization {
        Some(s) => match strip_prefix(s, "Bearer ") {
            Some(token) => token,
            None => "".to_owned(),
        },
        None => "".to_owned(),
    }
}

/// A text claim that is there and not empty.
pub open spec fn is_given(claim: Option<Seq<char>>) -> bool {
    claim matches Some(t) && t.len() > 0
}

/// The display name of claims: the first of name, user name and email address
/// that they give, or else the subject.
pub open spec fn display_name(c: Claims) -> Seq<char> {
    if is_given(c.name) {
        c.name->Some_0
    } else if is_given(c.preferred_username) {
        c.preferred_username->Some_0
    } else if is_given(c.email) {
        c.email->Some_0
    } else {
        c.sub
    }
}

/// The user name of claims: the user name, or else the email address, or else the
/// display name. A user name or an email address that is there is taken as it is.
pub open spec fn display_username(c: Claims) -> Seq<char> {
    match (c.preferred_username, c.email) {
        (Some(username), _) => username,
        (None, Some(email)) => email,
        (None, None) => display_name(c),
    }
}

/// A text claim, where it is there and not empty.
fn given(claim: &Option<String>) -> (r: Option<String>)
    ensures
        opt_text(r) == if is_given(opt_text(*claim)) {
            opt_text(*claim)
        } else {
            None
        },
{
    match claim {
        Some(t) => if t.as_str().is_empty() {
            None
        } else {
            Some(t.clone())
        },
        None => None,
    }
}

/// Display fields for a minted token, carried from the verified identity. The
/// Lore CLI requires a name, so it falls back through user name, email address
/// and subject rather than leaving it empty.
pub fn display_names(claims: &IdentityClaims) -> (r: (String, String))
    ensures
        r.0@ == display_name(claims@),
        r.1@ == display_username(claims@),
{
    let name = match given(&claims.name) {
        Some(name) => name,
        None => match given(&claims.preferred_username) {
            Some(username) => username,
            None => match given(&claims.email) {
                Some(email) => email,
                None => claims.sub.clone(),
            },
        },
    };
    let preferred_username = match &claims.preferred_username {
        Some(username) => username.clone(),
        None => match &claims.email {
            Some(email) => email.clone(),
            None => name.clone(),
        },
    };
    (name, preferred_username)
}

/// An unguessable opaque id for a login's session code.
pub fn random_id() -> (r: String)
    ensures
        exists|x: u128| is_drawn(x) && r@ == #[trigger] id_of(x),
{
    let x: u128 = draw_number();
    id_from(x)
}

/// The subject that a call is made by, where its bearer was verified.
pub open spec fn known(subject: Result<String, VerifyError>) -> Option<Seq<char>> {
    match subject {
        Ok(sub) => Some(sub@),
        Err(_) => None,
    }
}

/// The outcome of finding out who calls: a caller without a verified bearer is
/// turned away.
pub open spec fn turned_away<T>(r: Result<T, Status>) -> bool {
    r matches Err(s) && says(s, Code::Unauthenticated, "invalid token"@)
}

/// A store after a resource was created, at some time.
pub open spec fn now_owned(
    v: StoreView,
    w: StoreView,
    owner: Seq<char>,
    resource_id: Seq<char>,
    resource_name: Seq<char>,
) -> bool {
    exists|created_at: i64|
        is_time(created_at) && w == #[trigger] with_owner(
            v,
            owner,
            resource_id,
            resource_name,
            created_at,
        )
}

/// The outcome of creating a resource: its creator becomes its owner.
pub open spec fn created(
    v: StoreView,
    w: StoreView,
    caller: Option<Seq<char>>,
    resource_id: Seq<char>,
    resource_name: Seq<char>,
    r: Result<(), Status>,
) -> bool {
    match caller {
        Some(sub) => r is Ok && now_owned(v, w, sub, resource_id, resource_name),
        None => turned_away(r) && w == v,
    }
}

/// Create a resource: its creator becomes its owner.
pub fn create_resource(
    store: &mut Store,
    subject: Result<String, VerifyError>,
    resource_id: &str,
    resource_name: &str,
) -> (r: Result<(), Status>)
    requires
        old(store).wf(),
    ensures
        final(store).wf(),
        created(old(store)@, final(store)@, known(subject), resource_id@, resource_name@, r),
{
    match subject {
        Ok(sub) => {
            store.record_owner(sub.as_str(), resource_id, resource_name);
            Ok(())
        },
        Err(_) => Err(Status::new(Code::Unauthenticated, "invalid token")),
    }
}

/// The outcome of deleting a resource: only an owner may.
pub open spec fn deleted(
    v: StoreView,
    w: StoreView,
    caller: Option<Seq<char>>,
    resource_id: Seq<char>,
    r: Result<(), Status>,
) -> bool {
    match caller {
        Some(sub) => if effective_role(v, sub, resource_id) == Some(Role::Owner) {
            r is Ok && w == without_resource(v, resource_id)
        } else {
            &&& r matches Err(s) && says(s, Code::PermissionDenied, "not an owner of this resource"@)
            &&& w == v
        },
        None => turned_away(r) && w == v,
    }
}

/// Delete a resource. Only an owner may.
pub fn delete_resource(
    store: &mut Store,
    subject: Result<String, VerifyError>,
    resource_id: &str,
) -> (r: Result<(), Status>)
    requires
        old(store).wf(),
    ensures
        final(store).wf(),
        deleted(old(store)@, final(store)@, known(subject), resource_id@, r),
{
    match subject {
        Ok(sub) => match store.role_for(sub.as_str(), resource_id) {
            Some(Role::Owner) => {
                store.delete_resource(resource_id);
                Ok(())
            },
            _ => Err(Status::new(Code::PermissionDenied, "not an owner of this resource")),
        },
        Err(_) => Err(Status::new(Code::Unauthenticated, "invalid token")),
    }
}

/// What a subject may do on the requested resources that it can reach, in the
/// order of the request.
pub open spec fn allowed(v: StoreView, subject: Seq<char>, ids: Seq<Seq<char>>) -> Seq<GrantView>
    decreases ids.len(),
{
    if ids.len() == 0 {
        seq![]
    } else {
        let rest = allowed(v, subject, ids.drop_last());
        match effective_role(v, subject, ids.last()) {
            Some(role) => rest.push(grant_view(ids.last(), role)),
            None => rest,
        }
    }
}

/// The requested resources that a subject cannot reach, each without
/// permissions, in the order of the request.
pub open spec fn denied(v: StoreView, subject: Seq<char>, ids: Seq<Seq<char>>) -> Seq<GrantView>
    decreases ids.len(),
{
    if ids.len() == 0 {
        seq![]
    } else {
        let rest = denied(v, subject, ids.drop_last());
        match effective_role(v, subject, ids.last()) {
            Some(_) => rest,
            None => rest.push(GrantView { resource_id: ids.last(), permission: seq![] }),
        }
    }
}

/// The outcome of asking for resources.
pub open spec fn checked(
    v: StoreView,
    caller: Option<Seq<char>>,
    ids: Seq<Seq<char>>,
    r: Result<(Vec<ResourcePermission>, Vec<ResourcePermission>), Status>,
) -> bool {
    match caller {
        Some(sub) => r matches Ok(lists) && permissions_of(lists.0@) == allowed(v, sub, ids)
            && permissions_of(lists.1@) == denied(v, sub, ids),
        None => turned_away(r),
    }
}

/// Which of the requested resources the caller can reach, and as what.
pub fn check_user_permission(
    store: &Store,
    subject: Result<String, VerifyError>,
    resource_id: Vec<String>,
) -> (r: Result<(Vec<ResourcePermission>, Vec<ResourcePermission>), Status>)
    requires
        store.wf(),
    ensures
        checked(store@, known(subject), texts(resource_id@), r),
{
    let sub = match subject {
        Ok(sub) => sub,
        Err(_) => {
            return Err(Status::new(Code::Unauthenticated, "invalid token"));
        },
    };
    let ghost ids = texts(resource_id@);
    let mut yes: Vec<ResourcePermission> = Vec::new();
    let mut no: Vec<ResourcePermission> = Vec::new();
    let mut i: usize = 0;
    while i < resource_id.len()
        invariant
            store.wf(),
            i <= resource_id@.len(),
            ids == texts(resource_id@),
            permissions_of(yes@) == allowed(store@, sub@, ids.take(i as int)),
            permissions_of(no@) == denied(store@, sub@, ids.take(i as int)),
        decreases resource_id@.len() - i,
    {
        let id = resource_id[i].clone();
        proof {
            assert(ids.take(i + 1).drop_last() =~= ids.take(i as int));
        }
        match store.role_for(sub.as_str(), id.as_str()) {
            Some(role) => {
                yes.push(grant(id, role));
            },
            None => {
                let none = ResourcePermission { resource_id: id, permission: Vec::new() };
                assert(texts(none.permission@) =~= seq![]);
                no.push(none);
            },
        }
        i += 1;
    }
    assert(ids.take(i as int) =~= ids);
    Ok((yes, no))
}

/// The role that a reachable resource is listed with.
pub open spec fn listed_role(v: StoreView, subject: Seq<char>, urc_id: Seq<char>) -> Role {
    match effective_role(v, subject, urc_id) {
        Some(role) => role,
        None => Role::Member,
    }
}

/// The outcome of asking for everything that the caller can reach.
pub open spec fn listed(
    v: StoreView,
    caller: Option<Seq<char>>,
    r: Result<Vec<ResourcePermission>, Status>,
) -> bool {
    match caller {
        Some(sub) => r matches Ok(list) && is_listing(v, sub, permissions_of(list@)),
        None => turned_away(r),
    }
}

/// Everything that the caller can reach, and as what.
pub fn lookup_user_permissions(store: &Store, subject: Result<String, VerifyError>) -> (r: Result<
    Vec<ResourcePermission>,
    Status,
>)
    requires
        store.wf(),
    ensures
        listed(store@, known(subject), r),
{
    let sub = match subject {
        Ok(sub) => sub,
        Err(_) => {
            return Err(Status::new(Code::Unauthenticated, "invalid token"));
        },
    };
    let ids = store.accessible(sub.as_str());
    let mut list: Vec<ResourcePermission> = Vec::new();
    let mut i: usize = 0;
    while i < ids.len()
        invariant
            store.wf(),
            i <= ids@.len(),
            list@.len() == i,
            forall|k: int|
                0 <= k < i ==> (#[trigger] list@[k])@ == grant_view(
                    ids@[k]@,
                    listed_role(store@, sub@, ids@[k]@),
                ),
        decreases ids@.len() - i,
    {
        let id = ids[i].clone();
        let role = match store.role_for(sub.as_str(), id.as_str()) {
            Some(role) => role,
            None => Role::Member,
        };
        list.push(grant(id, role));
        i += 1;
    }
    proof {
        let p = permissions_of(list@);
        assert forall|a: int, b: int| 0 <= a < b < p.len() implies (#[trigger] p[a]).resource_id
            != (#[trigger] p[b]).resource_id by {
            assert(texts(ids@)[a] == p[a].resource_id);
            assert(texts(ids@)[b] == p[b].resource_id);
        }
        assert forall|urc_id: Seq<char>| #[trigger]
            reaches(store@, sub@, urc_id) implies p.contains(
            grant_view(urc_id, listed_role(store@, sub@, urc_id)),
        ) by {
            assert(texts(ids@).contains(urc_id));
            let k = choose|k: int| 0 <= k < texts(ids@).len() && texts(ids@)[k] == urc_id;
            assert(p[k] == list@[k]@);
        }
        assert forall|k: int| 0 <= k < p.len() implies reaches(
            store@,
            sub@,
            (#[trigger] p[k]).resource_id,
        ) && p[k] == grant_view(
            p[k].resource_id,
            listed_role(store@, sub@, p[k].resource_id),
        ) by {
            assert(texts(ids@)[k] == ids@[k]@);
            assert(texts(ids@).contains(ids@[k]@));
        }
    }
    Ok(list)
}

/// A list holds every resource that a subject can reach, once, with its role,
/// and nothing else.
pub open spec fn is_listing(v: StoreView, subject: Seq<char>, list: Seq<GrantView>) -> bool {
    &&& forall|a: int, b: int|
        #![trigger list[a], list[b]]
        0 <= a < b < list.len() ==> list[a].resource_id != list[b].resource_id
    &&& forall|k: int|
        0 <= k < list.len() ==> reaches(v, subject, (#[trigger] list[k]).resource_id) && list[k]
            == grant_view(list[k].resource_id, listed_role(v, subject, list[k].resource_id))
    &&& forall|urc_id: Seq<char>| #[trigger]
        reaches(v, subject, urc_id) ==> list.contains(
            grant_view(urc_id, listed_role(v, subject, urc_id)),
        )
}

/// What is answered to a login that was started.
#[derive(Debug)]
pub struct LoginStarted {
    pub session_code: String,
    pub login_url: String,
}

/// The least time that a login may take, in seconds.
pub const LOGIN_MIN_SECS: u64 = 60;

/// The most time that a login may take, in seconds.
pub const LOGIN_MAX_SECS: u64 = 600;

/// How long a login may take: as long as its device code lives, within limits.
pub open spec fn login_secs(expires_in: u64) -> u64 {
    if expires_in < LOGIN_MIN_SECS {
        LOGIN_MIN_SECS
    } else if expires_in > LOGIN_MAX_SECS {
        LOGIN_MAX_SECS
    } else {
        expires_in
    }
}

/// The session of a login that starts at `now`.
pub open spec fn login_session(start: DeviceStart, client_state: String, now: u128) -> Session {
    Session {
        device_code: start.device_code,
        token_endpoint: start.token_endpoint,
        client_state,
        expires_at: expiry(now, (login_secs(start.expires_in) * 1_000_000_000) as nat),
    }
}

/// Begin native interactive login: the client gets Dex's verification URL and a
/// session code to poll with.
pub fn start_auth_session(
    sessions: &mut Sessions,
    started: Result<DeviceStart, String>,
    client_state: String,
) -> (r: Result<LoginStarted, Status>)
    requires
        old(sessions).wf(),
    ensures
        final(sessions).wf(),
        final(sessions).origin() == old(sessions).origin(),
        match started {
            Ok(start) => r matches Ok(reply) && reply.login_url@ == start.login_url@ && (exists|
                x: u128,
                now: u128,
            |
                is_drawn(x) && is_time_since(old(sessions).origin(), now) && reply.session_code@
                    == #[trigger] id_of(x) && final(sessions)@ == (#[trigger] live(
                    old(sessions)@,
                    now,
                )).insert(id_of(x), login_session(start, client_state, now))),
            Err(_) => {
                &&& r matches Err(s) && says(s, Code::Internal, "could not start login"@)
                &&& final(sessions)@ == old(sessions)@
            },
        },
{
    match started {
        Ok(start) => {
            let x: u128 = draw_number();
            let now: u128 = sessions.now();
            Ok(start_auth_session_at(sessions, start, client_state, x, now))
        },
        Err(_) => Err(Status::new(Code::Internal, "could not start login")),
    }
}

/// Begin a login at `now` whose session code stands for the number `x`.
pub fn start_auth_session_at(
    sessions: &mut Sessions,
    start: DeviceStart,
    client_state: String,
    x: u128,
    now: u128,
) -> (r: LoginStarted)
    requires
        old(sessions).wf(),
    ensures
        final(sessions).wf(),
        final(sessions).origin() == old(sessions).origin(),
        r.session_code@ == id_of(x),
        r.login_url@ == start.login_url@,
        final(sessions)@ == live(old(sessions)@, now).insert(
            id_of(x),
            login_session(start, client_state, now),
        ),
{
    let session_code = id_from(x);
    let secs: u64 = if start.expires_in < LOGIN_MIN_SECS {
        LOGIN_MIN_SECS
    } else if start.expires_in > LOGIN_MAX_SECS {
        LOGIN_MAX_SECS
    } else {
        start.expires_in
    };
    let ttl = Duration::from_secs(secs);
    sessions.insert_at(
        session_code.clone(),
        start.device_code,
        start.token_endpoint,
        client_state,
        ttl,
        now,
    );
    LoginStarted { session_code, login_url: start.login_url }
}

/// The session that a poll is for: the device code and the token endpoint to
/// poll Dex with.
pub fn resolve_auth_session(sessions: &mut Sessions, session_code: &str, client_state: &str) -> (r:
    Result<(String, String), Status>)
    requires
        old(sessions).wf(),
    ensures
        final(sessions).wf(),
        final(sessions).origin() == old(sessions).origin(),
        exists|now: u128|
            is_time_since(old(sessions).origin(), now) && final(sessions)@ == #[trigger] live(
                old(sessions)@,
                now,
            ) && match found(
                old(sessions)@,
                session_code@,
                client_state@,
                now,
            ) {
                Some(session) => r matches Ok(x) && x == session,
                None => r matches Err(s) && says(
                    s,
                    Code::NotFound,
                    "unknown or expired login session"@,
                ),
            },
{
    match sessions.resolve(session_code, client_state) {
        Some(session) => Ok(session),
        None => Err(Status::new(Code::NotFound, "unknown or expired login session")),
    }
}

/// How a polled login goes on.
#[derive(Debug)]
pub enum LoginStep {
    /// The answer: no token yet, or a refusal.
    Answer(Result<Option<UserToken>, Status>),
    /// Verify the token that Dex issued.
    Verify(String),
}

/// What follows from polling Dex: nothing is answered while the user is still
/// authorizing; a token is to be verified; a login that was denied is over.
pub fn polled_auth_session(
    sessions: &mut Sessions,
    session_code: &str,
    polled: Result<Poll, String>,
) -> (r: LoginStep)
    requires
        old(sessions).wf(),
    ensures
        final(sessions).wf(),
        final(sessions).origin() == old(sessions).origin(),
        match polled {
            Ok(Poll::Pending) => {
                &&& r matches LoginStep::Answer(Ok(None))
                &&& final(sessions)@ == old(sessions)@
            },
            Ok(Poll::Token(token)) => {
                &&& r matches LoginStep::Verify(t) && t@ == token@
                &&& final(sessions)@ == old(sessions)@
            },
            Ok(Poll::Denied(e)) => {
                &&& r matches LoginStep::Answer(Err(s)) && says(
                    s,
                    Code::PermissionDenied,
                    "login not completed: "@ + e@,
                )
                &&& final(sessions)@ == old(sessions)@.remove(session_code@)
            },
            Err(_) => {
                &&& r matches LoginStep::Answer(Err(s)) && says(
                    s,
                    Code::Internal,
                    "login poll failed"@,
                )
                &&& final(sessions)@ == old(sessions)@
            },
        },
{
    match polled {
        Ok(Poll::Pending) => LoginStep::Answer(Ok(None)),
        Ok(Poll::Token(token)) => LoginStep::Verify(token),
        Ok(Poll::Denied(e)) => {
            sessions.remove(session_code);
            let mut message = "login not completed: ".to_owned();
            message.append(e.as_str());
            LoginStep::Answer(Err(Status { code: Code::PermissionDenied, message }))
        },
        Err(_) => LoginStep::Answer(Err(Status::new(Code::Internal, "login poll failed"))),
    }
}

/// What a token is issued for: the subject, its display names, the end of its
/// validity, and what it may do where.
pub struct Grantee {
    pub subject: Seq<char>,
    pub name: Seq<char>,
    pub username: Seq<char>,
    pub exp: u64,
    pub resources: Seq<GrantView>,
}

/// The token that a login is answered with: the account that the claims stand
/// for, without resources.
pub open spec fn login_grantee(c: Claims) -> Grantee {
    Grantee {
        subject: account_of(c),
        name: display_name(c),
        username: display_username(c),
        exp: c.exp,
        resources: seq![],
    }
}

/// The token that an exchange is answered with: the subject of the claims, with
/// those of the requested resources that it can reach.
pub open spec fn exchange_grantee(c: Claims, v: StoreView, ids: Seq<Seq<char>>) -> Grantee {
    Grantee {
        subject: c.sub,
        name: display_name(c),
        username: display_username(c),
        exp: c.exp,
        resources: allowed(v, c.sub, ids),
    }
}

/// The issuing side of the service.
pub struct Auth {
    pub signer: Signer,
    /// `iss` stamped on minted tokens; must equal loreserver's `jwt_issuer`.
    pub auth_issuer: String,
    /// `aud` stamped on minted tokens; must be in loreserver's `jwt_audience`.
    pub audience: String,
}

impl Auth {
    pub open spec fn wf(&self) -> bool {
        self.signer.wf()
    }

    /// An identity resolver accepts the tokens of this service.
    pub open spec fn trusted_by(&self, id: Identity) -> bool {
        &&& id.self_verifier.key() == self.signer.public_key()
        &&& id.self_verifier.issuer() == self.auth_issuer@
        &&& id.self_verifier.audience() == self.audience@
    }

    /// The identity resolver of this service: its own tokens, and those of Dex.
    pub fn identity(&self, dex: DexVerifier) -> (r: Result<Identity, VerifyError>)
        requires
            self.wf(),
        ensures
            r matches Ok(id) && id.dex == dex && self.trusted_by(id),
    {
        match SelfVerifier::new(
            self.signer.own_jwk(),
            self.auth_issuer.clone(),
            self.audience.clone(),
        ) {
            Ok(self_verifier) => Ok(Identity { self_verifier, dex }),
            Err(e) => Err(e),
        }
    }

    /// The claims of a token that is issued at `iat`.
    pub open spec fn claims_for(&self, g: Grantee, iat: u64) -> crate::json::Json {
        lore_claims(
            self.auth_issuer@,
            self.audience@,
            g.subject,
            g.name,
            g.username,
            g.exp,
            g.resources,
            iat,
        )
    }

    /// The outcome of issuing a token at `iat`: the token that the signer gives
    /// for the grantee's claims, or the refusal if it cannot be signed.
    pub open spec fn issues(&self, g: Grantee, iat: u64, r: Result<UserToken, Status>) -> bool {
        match signed_token(self.signer.key_id(), self.claims_for(g, iat), self.signer.signing_key()) {
            Ok(token) => {
                &&& r matches Ok(t)
                &&& t.user_token@ == token
                &&& is_minted(self.signer, token, self.claims_for(g, iat))
                &&& t.expires_at == g.exp as i64
                &&& t.user_id@ == g.subject
                &&& t.user_name@ == g.name
            },
            Err(_) => r matches Err(s) && says(s, Code::Internal, "token issuance failed"@),
        }
    }

    /// The outcome of finishing a login.
    pub open spec fn finished(
        &self,
        before: Map<Seq<char>, Session>,
        after: Map<Seq<char>, Session>,
        session_code: Seq<char>,
        verified: Result<Claims, Refusal>,
        r: Result<UserToken, Status>,
    ) -> bool {
        match verified {
            Ok(c) => {
                &&& exists|iat: u64| is_now(iat) && #[trigger] self.issues(login_grantee(c), iat, r)
                &&& after == before.remove(session_code)
            },
            Err(_) => {
                &&& r matches Err(s) && says(s, Code::Internal, "login token invalid"@)
                &&& after == before
            },
        }
    }

    /// The outcome of exchanging an external token.
    pub open spec fn exchanged_external(
        &self,
        external_token: Seq<char>,
        verified: Result<Claims, Refusal>,
        r: Result<UserToken, Status>,
    ) -> bool {
        if external_token.len() == 0 {
            r matches Err(s) && says(s, Code::Unauthenticated, "missing external token"@)
        } else {
            match verified {
                Ok(c) => exists|iat: u64|
                    is_now(iat) && #[trigger] self.issues(login_grantee(c), iat, r),
                Err(_) => r matches Err(s) && says(
                    s,
                    Code::Unauthenticated,
                    "invalid external token"@,
                ),
            }
        }
    }

    /// The outcome of exchanging a bearer for a scoped token.
    pub open spec fn exchanged(
        &self,
        v: StoreView,
        token: Seq<char>,
        verified: Result<Claims, Refusal>,
        ids: Seq<Seq<char>>,
        r: Result<UserToken, Status>,
    ) -> bool {
        if token.len() == 0 {
            r matches Err(s) && says(s, Code::Unauthenticated, "missing bearer token"@)
        } else {
            match verified {
                Ok(c) => exists|iat: u64|
                    is_now(iat) && #[trigger] self.issues(exchange_grantee(c, v, ids), iat, r),
                Err(_) => r matches Err(s) && says(
                    s,
                    Code::Unauthenticated,
                    "invalid identity token"@,
                ),
            }
        }
    }

    /// Issue a token at `iat`.
    fn issue_at(
        &self,
        subject: String,
        name: String,
        username: String,
        exp: u64,
        resources: Vec<ResourceGrant>,
        iat: u64,
    ) -> (r: Result<UserToken, Status>)
        requires
            self.wf(),
        ensures
            self.issues(
                (Grantee {
                    subject: subject@,
                    name: name@,
                    username: username@,
                    exp,
                    resources: grants_of(resources@),
                }),
                iat,
                r,
            ),
    {
        match self.signer.mint_at(
            self.auth_issuer.as_str(),
            self.audience.as_str(),
            subject.as_str(),
            name.as_str(),
            username.as_str(),
            exp,
            resources,
            iat,
        ) {
            Ok(user_token) => Ok(
                UserToken {
                    user_token,
                    expires_at: signed_seconds(exp),
                    user_id: subject,
                    user_name: name,
                },
            ),
            Err(_) => Err(Status::new(Code::Internal, "token issuance failed")),
        }
    }

    /// Issue a token for a login at `iat`.
    pub fn issue_login_at(&self, claims: &IdentityClaims, iat: u64) -> (r: Result<UserToken, Status>)
        requires
            self.wf(),
        ensures
            self.issues(login_grantee(claims@), iat, r),
    {
        let subject = claims.canonical_subject();
        let (name, username) = display_names(claims);
        let resources: Vec<ResourceGrant> = Vec::new();
        assert(grants_of(resources@) =~= seq![]);
        self.issue_at(subject, name, username, claims.exp, resources, iat)
    }

    /// Finish a polled login once the token that Dex issued was verified: the
    /// session is over, and the client gets a token of this service, which it
    /// stores as its identity.
    pub fn finish_auth_session(
        &self,
        sessions: &mut Sessions,
        session_code: &str,
        verified: Result<IdentityClaims, VerifyError>,
    ) -> (r: Result<UserToken, Status>)
        requires
            self.wf(),
            old(sessions).wf(),
        ensures
            final(sessions).wf(),
            final(sessions).origin() == old(sessions).origin(),
            self.finished(old(sessions)@, final(sessions)@, session_code@, shown(verified), r),
    {
        match verified {
            Ok(claims) => {
                sessions.remove(session_code);
                let iat: u64 = now_secs();
                self.issue_login_at(&claims, iat)
            },
            Err(_) => Err(Status::new(Code::Internal, "login token invalid")),
        }
    }

    /// Exchange an external token (a Dex token from the web frontend's login) for
    /// a token of this service. `verified` is the outcome of verifying it.
    pub fn exchange_external_token_for_user_token(
        &self,
        external_token: &str,
        verified: Result<IdentityClaims, VerifyError>,
    ) -> (r: Result<UserToken, Status>)
        requires
            self.wf(),
        ensures
            self.exchanged_external(external_token@, shown(verified), r),
    {
        if external_token.is_empty() {
            return Err(Status::new(Code::Unauthenticated, "missing external token"));
        }
        match verified {
            Ok(claims) => {
                let iat: u64 = now_secs();
                self.issue_login_at(&claims, iat)
            },
            Err(_) => Err(Status::new(Code::Unauthenticated, "invalid external token")),
        }
    }

    /// Issue a token at `iat` for the subject of verified claims, scoped to those
    /// of the requested resources that it can reach.
    pub fn issue_scoped_at(
        &self,
        store: &Store,
        claims: &IdentityClaims,
        requested: &Vec<String>,
        iat: u64,
    ) -> (r: Result<UserToken, Status>)
        requires
            self.wf(),
            store.wf(),
        ensures
            self.issues(exchange_grantee(claims@, store@, texts(requested@)), iat, r),
    {
        let ghost ids = texts(requested@);
        let mut resources: Vec<ResourceGrant> = Vec::new();
        let mut i: usize = 0;
        while i < requested.len()
            invariant
                store.wf(),
                i <= requested@.len(),
                ids == texts(requested@),
                grants_of(resources@) == allowed(store@, claims@.sub, ids.take(i as int)),
            decreases requested@.len() - i,
        {
            let id = requested[i].clone();
            proof {
                assert(ids.take(i + 1).drop_last() =~= ids.take(i as int));
            }
            if let Some(role) = store.role_for(claims.sub.as_str(), id.as_str()) {
                let g = ResourceGrant { resource_id: id, permission: role.permissions() };
                resources.push(g);
            }
            i += 1;
        }
        assert(ids.take(i as int) =~= ids);
        let (name, username) = display_names(claims);
        self.issue_at(claims.sub.clone(), name, username, claims.exp, resources, iat)
    }

    /// Mint a Lore token for the caller, scoped to the repositories that it may
    /// reach. Requested resources that the caller has no grant on are dropped, so
    /// loreserver's authorization, which reads the `resources` claim, denies
    /// them. `verified` is the outcome of verifying the caller's bearer.
    pub fn exchange_user_token_for_multiresource_token(
        &self,
        store: &Store,
        token: &str,
        verified: Result<IdentityClaims, VerifyError>,
        requested: &Vec<String>,
    ) -> (r: Result<UserToken, Status>)
        requires
            self.wf(),
            store.wf(),
        ensures
            self.exchanged(store@, token@, shown(verified), texts(requested@), r),
    {
        if token.is_empty() {
            return Err(Status::new(Code::Unauthenticated, "missing bearer token"));
        }
        match verified {
            Ok(claims) => {
                let iat: u64 = now_secs();
                self.issue_scoped_at(store, &claims, requested, iat)
            },
            Err(_) => Err(Status::new(Code::Unauthenticated, "invalid identity token")),
        }
    }
}

}
