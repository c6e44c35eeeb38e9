//! The calls of the auth service, from the request as it comes in to the answer.
//!
//! Who calls is found out from the bearer, as it stands at the time of the call,
//! and what is answered follows from that. Where Dex's key set has to be fetched
//! first, a call says so; it is made again with what the fetch gave, and is then
//! answered.
use serde_json::Value;
use vstd::prelude::*;

use crate::auth::keys::is_minted;
use crate::auth::service::{
    bearer, bearer_of, check_user_permission, checked, create_resource, created, delete_resource,
    deleted, listed, login_grantee, lookup_user_permissions, says, Auth, Code, ResourcePermission,
    Status, UserToken,
};
use crate::auth::sessions::{Session, Sessions};
use crate::auth::store::{Store, StoreView};
use crate::auth::tokens::{carried, issued_token_is_accepted};
use crate::auth::verify::{
    account_of, after_fetch, dex_lookup, dex_vouches, fetched_verdict, is_vouched_for, lookup,
    subject_of, Claims, DexVerifier, Found, Identity, IdentityClaims, Lookup, Refusal,
};
use crate::text::texts;

verus! {

/// How a call goes on.
pub enum Turn<T> {
    /// The answer.
    Answer(T),
    /// Fetch Dex's key set, and make the call again with it.
    Fetch,
}

/// Who a bearer stands for at a time.
pub open spec fn resolution(
    id: Identity,
    token: Seq<char>,
    fetched: Option<Result<Value, String>>,
    now: u64,
) -> Found {
    match fetched {
        None => lookup(id, token, now),
        Some(f) => Found::Done(fetched_verdict(id.dex, token, f, now)),
    }
}

/// Who a token of Dex stands for at a time.
pub open spec fn dex_resolution(
    dex: DexVerifier,
    token: Seq<char>,
    fetched: Option<Result<Value, String>>,
    now: u64,
) -> Found {
    match fetched {
        None => dex_lookup(dex, token, now),
        Some(f) => Found::Done(fetched_verdict(dex, token, f, now)),
    }
}

/// What a call keeps of what was fetched for it.
pub open spec fn keeps_fetched(
    before: Identity,
    after: Identity,
    fetched: Option<Result<Value, String>>,
) -> bool {
    match fetched {
        None => after == before,
        Some(f) => after.self_verifier == before.self_verifier && after_fetch(
            before.dex,
            after.dex,
            f,
        ),
    }
}

/// Who a bearer stands for.
fn resolve(
    id: &mut Identity,
    token: &str,
    fetched: Option<Result<Value, String>>,
    now: u64,
) -> (x: Lookup<IdentityClaims>)
    ensures
        x@ == resolution(*old(id), token@, fetched, now),
        keeps_fetched(*old(id), *final(id), fetched),
        x@ matches Found::Done(Ok(c)) ==> is_vouched_for(*final(id), token@, c),
{
    match fetched {
        None => id.claims_at(token, now),
        Some(f) => Lookup::Done(id.dex.verify_fetched_at(token, f, now)),
    }
}

/// Who a token of Dex stands for.
fn dex_resolve(
    id: &mut Identity,
    token: &str,
    fetched: Option<Result<Value, String>>,
    now: u64,
) -> (x: Lookup<IdentityClaims>)
    ensures
        x@ == dex_resolution(old(id).dex, token@, fetched, now),
        keeps_fetched(*old(id), *final(id), fetched),
        x@ matches Found::Done(Ok(c)) ==> dex_vouches(final(id).dex, token@, c),
{
    match fetched {
        None => id.dex.verify_at(token, now),
        Some(f) => Lookup::Done(id.dex.verify_fetched_at(token, f, now)),
    }
}

/// The subject of a caller whose bearer was verified.
pub open spec fn caller(r: Result<Claims, Refusal>) -> Option<Seq<char>> {
    match r {
        Ok(c) => Some(c.sub),
        Err(_) => None,
    }
}

/// How creating a resource goes on, once the bearer was looked up.
pub open spec fn creation(
    v: StoreView,
    w: StoreView,
    x: Found,
    resource_id: Seq<char>,
    resource_name: Seq<char>,
    r: Turn<Result<(), Status>>,
) -> bool {
    match x {
        Found::Fetch => r is Fetch && w == v,
        Found::Done(c) => r matches Turn::Answer(a) && created(
            v,
            w,
            caller(c),
            resource_id,
            resource_name,
            a,
        ),
    }
}

/// How deleting a resource goes on, once the bearer was looked up.
pub open spec fn deletion(
    v: StoreView,
    w: StoreView,
    x: Found,
    resource_id: Seq<char>,
    r: Turn<Result<(), Status>>,
) -> bool {
    match x {
        Found::Fetch => r is Fetch && w == v,
        Found::Done(c) => r matches Turn::Answer(a) && deleted(v, w, caller(c), resource_id, a),
    }
}

/// How asking for resources goes on, once the bearer was looked up.
pub open spec fn check(
    v: StoreView,
    x: Found,
    ids: Seq<Seq<char>>,
    r: Turn<Result<(Vec<ResourcePermission>, Vec<ResourcePermission>), Status>>,
) -> bool {
    match x {
        Found::Fetch => r is Fetch,
        Found::Done(c) => r matches Turn::Answer(a) && checked(v, caller(c), ids, a),
    }
}

/// How asking for everything reachable goes on, once the bearer was looked up.
pub open spec fn listing(
    v: StoreView,
    x: Found,
    r: Turn<Result<Vec<ResourcePermission>, Status>>,
) -> bool {
    match x {
        Found::Fetch => r is Fetch,
        Found::Done(c) => r matches Turn::Answer(a) && listed(v, caller(c), a),
    }
}

/// How the exchange of a bearer goes on, once it was looked up.
pub open spec fn exchange(
    auth: Auth,
    v: StoreView,
    token: Seq<char>,
    x: Found,
    ids: Seq<Seq<char>>,
    r: Turn<Result<UserToken, Status>>,
) -> bool {
    match x {
        Found::Fetch => r is Fetch,
        Found::Done(c) => r matches Turn::Answer(a) && auth.exchanged(v, token, c, ids, a),
    }
}

/// How the exchange of an external token goes on, once it was looked up.
pub open spec fn external_exchange(
    auth: Auth,
    token: Seq<char>,
    x: Found,
    r: Turn<Result<UserToken, Status>>,
) -> bool {
    match x {
        Found::Fetch => r is Fetch,
        Found::Done(c) => r matches Turn::Answer(a) && auth.exchanged_external(token, c, a),
    }
}

/// How the end of a login goes on, once the token that Dex issued was looked up.
pub open spec fn login_end(
    auth: Auth,
    before: Map<Seq<char>, Session>,
    after: Map<Seq<char>, Session>,
    session_code: Seq<char>,
    x: Found,
    r: Turn<Result<UserToken, Status>>,
) -> bool {
    match x {
        Found::Fetch => r is Fetch && after == before,
        Found::Done(c) => r matches Turn::Answer(a) && auth.finished(
            before,
            after,
            session_code,
            c,
            a,
        ),
    }
}

/// Create a resource for the caller.
pub fn call_create_resource(
    store: &mut Store,
    id: &mut Identity,
    authorization: Option<&str>,
    resource_id: &str,
    resource_name: &str,
    fetched: Option<Result<Value, String>>,
    now: u64,
) -> (r: Turn<Result<(), Status>>)
    requires
        old(store).wf(),
    ensures
        final(store).wf(),
        keeps_fetched(*old(id), *final(id), fetched),
        creation(
            old(store)@,
            final(store)@,
            resolution(*old(id), bearer_of(authorization), fetched, now),
            resource_id@,
            resource_name@,
            r,
        ),
        resolution(*old(id), bearer_of(authorization), fetched, now) matches Found::Done(Ok(c))
            ==> is_vouched_for(*final(id), bearer_of(authorization), c),
{
    let token = bearer(authorization);
    match resolve(id, token.as_str(), fetched, now) {
        Lookup::Fetch => Turn::Fetch,
        Lookup::Done(c) => Turn::Answer(
            create_resource(store, subject_of(c), resource_id, resource_name),
        ),
    }
}

/// Delete a resource for the caller.
pub fn call_delete_resource(
    store: &mut Store,
    id: &mut Identity,
    authorization: Option<&str>,
    resource_id: &str,
    fetched: Option<Result<Value, String>>,
    now: u64,
) -> (r: Turn<Result<(), Status>>)
    requires
        old(store).wf(),
    ensures
        final(store).wf(),
        keeps_fetched(*old(id), *final(id), fetched),
        deletion(
            old(store)@,
            final(store)@,
            resolution(*old(id), bearer_of(authorization), fetched, now),
            resource_id@,
            r,
        ),
        resolution(*old(id), bearer_of(authorization), fetched, now) matches Found::Done(Ok(c))
            ==> is_vouched_for(*final(id), bearer_of(authorization), c),
{
    let token = bearer(authorization);
    match resolve(id, token.as_str(), fetched, now) {
        Lookup::Fetch => Turn::Fetch,
        Lookup::Done(c) => Turn::Answer(delete_resource(store, subject_of(c), resource_id)),
    }
}

/// Which of the requested resources the caller can reach.
pub fn call_check_user_permission(
    store: &Store,
    id: &mut Identity,
    authorization: Option<&str>,
    resource_id: Vec<String>,
    fetched: Option<Result<Value, String>>,
    now: u64,
) -> (r: Turn<Result<(Vec<ResourcePermission>, Vec<ResourcePermission>), Status>>)
    requires
        store.wf(),
    ensures
        keeps_fetched(*old(id), *final(id), fetched),
        check(
            store@,
            resolution(*old(id), bearer_of(authorization), fetched, now),
            texts(resource_id@),
            r,
        ),
        resolution(*old(id), bearer_of(authorization), fetched, now) matches Found::Done(Ok(c))
            ==> is_vouched_for(*final(id), bearer_of(authorization), c),
{
    let token = bearer(authorization);
    match resolve(id, token.as_str(), fetched, now) {
        Lookup::Fetch => Turn::Fetch,
        Lookup::Done(c) => Turn::Answer(check_user_permission(store, subject_of(c), resource_id)),
    }
}

/// Everything that the caller can reach.
pub fn call_lookup_user_permissions(
    store: &Store,
    id: &mut Identity,
    authorization: Option<&str>,
    fetched: Option<Result<Value, String>>,
    now: u64,
) -> (r: Turn<Result<Vec<ResourcePermission>, Status>>)
    requires
        store.wf(),
    ensures
        keeps_fetched(*old(id), *final(id), fetched),
        listing(store@, resolution(*old(id), bearer_of(authorization), fetched, now), r),
        resolution(*old(id), bearer_of(authorization), fetched, now) matches Found::Done(Ok(c))
            ==> is_vouched_for(*final(id), bearer_of(authorization), c),
{
    let token = bearer(authorization);
    match resolve(id, token.as_str(), fetched, now) {
        Lookup::Fetch => Turn::Fetch,
        Lookup::Done(c) => Turn::Answer(lookup_user_permissions(store, subject_of(c))),
    }
}

/// Exchange the caller's bearer for a token that is scoped to what it can reach.
/// A call without a bearer is refused before anything is looked up.
pub fn call_exchange_user_token(
    auth: &Auth,
    store: &Store,
    id: &mut Identity,
    authorization: Option<&str>,
    requested: &Vec<String>,
    fetched: Option<Result<Value, String>>,
    now: u64,
) -> (r: Turn<Result<UserToken, Status>>)
    requires
        auth.wf(),
        store.wf(),
    ensures
        bearer_of(authorization).len() == 0 ==> *final(id) == *old(id) && (r matches Turn::Answer(
            Err(s),
        ) && says(s, Code::Unauthenticated, "missing bearer token"@)),
        bearer_of(authorization).len() > 0 ==> keeps_fetched(*old(id), *final(id), fetched)
            && exchange(
            *auth,
            store@,
            bearer_of(authorization),
            resolution(*old(id), bearer_of(authorization), fetched, now),
            texts(requested@),
            r,
        ) && (resolution(*old(id), bearer_of(authorization), fetched, now) matches Found::Done(
            Ok(c),
        ) ==> is_vouched_for(*final(id), bearer_of(authorization), c)),
{
    let token = bearer(authorization);
    if token.as_str().is_empty() {
        return Turn::Answer(Err(Status::new(Code::Unauthenticated, "missing bearer token")));
    }
    match resolve(id, token.as_str(), fetched, now) {
        Lookup::Fetch => Turn::Fetch,
        Lookup::Done(c) => Turn::Answer(
            auth.exchange_user_token_for_multiresource_token(store, token.as_str(), c, requested),
        ),
    }
}

/// Exchange a token of Dex for a token of this service. A call without a token is
/// refused before anything is looked up.
pub fn call_exchange_external_token(
    auth: &Auth,
    id: &mut Identity,
    external_token: &str,
    fetched: Option<Result<Value, String>>,
    now: u64,
) -> (r: Turn<Result<UserToken, Status>>)
    requires
        auth.wf(),
    ensures
        external_token@.len() == 0 ==> *final(id) == *old(id) && (r matches Turn::Answer(Err(s))
            && says(s, Code::Unauthenticated, "missing external token"@)),
        external_token@.len() > 0 ==> keeps_fetched(*old(id), *final(id), fetched)
            && external_exchange(
            *auth,
            external_token@,
            dex_resolution(old(id).dex, external_token@, fetched, now),
            r,
        ) && (dex_resolution(old(id).dex, external_token@, fetched, now) matches Found::Done(Ok(c))
            ==> dex_vouches(final(id).dex, external_token@, c)),
{
    if external_token.is_empty() {
        return Turn::Answer(Err(Status::new(Code::Unauthenticated, "missing external token")));
    }
    match dex_resolve(id, external_token, fetched, now) {
        Lookup::Fetch => Turn::Fetch,
        Lookup::Done(c) => Turn::Answer(
            auth.exchange_external_token_for_user_token(external_token, c),
        ),
    }
}

/// Finish a polled login with the token that Dex issued.
pub fn call_finish_auth_session(
    auth: &Auth,
    sessions: &mut Sessions,
    id: &mut Identity,
    session_code: &str,
    dex_token: &str,
    fetched: Option<Result<Value, String>>,
    now: u64,
) -> (r: Turn<Result<UserToken, Status>>)
    requires
        auth.wf(),
        old(sessions).wf(),
    ensures
        final(sessions).wf(),
        final(sessions).origin() == old(sessions).origin(),
        keeps_fetched(*old(id), *final(id), fetched),
        login_end(
            *auth,
            old(sessions)@,
            final(sessions)@,
            session_code@,
            dex_resolution(old(id).dex, dex_token@, fetched, now),
            r,
        ),
        dex_resolution(old(id).dex, dex_token@, fetched, now) matches Found::Done(Ok(c))
            ==> dex_vouches(final(id).dex, dex_token@, c),
{
    match dex_resolve(id, dex_token, fetched, now) {
        Lookup::Fetch => Turn::Fetch,
        Lookup::Done(c) => Turn::Answer(auth.finish_auth_session(sessions, session_code, c)),
    }
}

/// A call that was made with what a fetch gave is answered: it asks for no second
/// one.
pub proof fn one_fetch_is_enough(
    id: Identity,
    token: Seq<char>,
    fetched: Result<Value, String>,
    now: u64,
)
    ensures
        resolution(id, token, Some(fetched), now) is Done,
        dex_resolution(id.dex, token, Some(fetched), now) is Done,
{
}

/// The token that a login was answered with stands for the account of the login
/// when it comes back as a bearer before it expires, and no key set is fetched for
/// it. From then on it is no token of this service.
pub proof fn login_token_stands_for_its_account(
    auth: Auth,
    id: Identity,
    token: Seq<char>,
    c: Claims,
    iat: u64,
    now: u64,
)
    requires
        auth.wf(),
        auth.trusted_by(id),
        is_minted(auth.signer, token, auth.claims_for(login_grantee(c), iat)),
    ensures
        now <= c.exp ==> resolution(id, token, None, now) == Found::Done(
            Ok(carried(login_grantee(c))),
        ),
        carried(login_grantee(c)).sub == account_of(c),
        now > c.exp ==> resolution(id, token, None, now) == dex_lookup(id.dex, token, now),
{
    issued_token_is_accepted(auth, id, token, login_grantee(c), iat, now);
}

}
