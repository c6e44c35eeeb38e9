//! What a call comes to, for whoever makes it: from the bearer that it carries to what it
//! changes and is answered.
use serde_json::Value;
use vstd::prelude::*;

use crate::auth::acceptance::{
    identity_is_read_claim_by_claim, own_token_is_accepted_exactly_where_it_checks_out,
    stands_for_bool, stands_for_text,
};
use crate::auth::access::{
    creator_becomes_owner, deletion_removes_all_access, permissions_of_roles, same_but_one_grant,
};
use crate::auth::answers::{
    bearer_is_what_follows_the_scheme, check_tells_of_each_resource,
    creation_makes_the_caller_the_owner, deletion_is_for_owners,
    exchange_answers_with_the_callers_scope, external_exchange_answers_with_a_login,
    is_login_answer, is_turned_away, listing_has_everything_once, login_ends_with_its_session,
};
use crate::auth::calls::{
    call_check_user_permission, call_create_resource, call_delete_resource,
    call_exchange_external_token, call_exchange_user_token, call_finish_auth_session,
    call_lookup_user_permissions, dex_resolution, keeps_fetched, resolution, Turn,
};
use crate::auth::jwt::{
    all_texts, first_with_id, fits, header_key_id, is_registered, key_set, material_of,
    parsed_key_set, signed_by, KeyMaterial,
};
use crate::auth::keys::is_minted;
use crate::auth::payload::{
    members_in, payload, read_claim, read_members, read_payload, token_claim,
};
use crate::auth::service::{
    allowed, bearer, check_user_permission, create_resource, delete_resource, denied, dex_audiences,
    display_name, exchange_grantee, grant, lookup_user_permissions, permissions_of, Auth, Code,
    ResourcePermission, Status, UserToken,
};
use crate::auth::sessions::Sessions;
use crate::auth::store::{effective_role, reaches, role_permissions, with_owner, Role, Store};
use crate::auth::tokens::{denial_is_exact, scope_is_exact};
use crate::auth::verify::{
    dex_lookup, fetched_keys, fetched_verdict, identity_from, lookup, own_verdict, read_identity,
    read_token_identity, shown, shown_claims, subject_looked_up, subject_of, token_identity,
    verdict, verify_with_jwks, verify_with_jwks_at, Claims, DexVerifier, Found, Identity,
    IdentityClaims, Lookup, Refusal, SelfVerifier, VerifyError,
};
use crate::clock::is_now;
use crate::json::{json_of, shows, Json, Scalar};
use crate::text::texts;

verus! {

/// A bearer is looked up with what is at hand, and where a key set was fetched for it, with
/// that.
pub proof fn bearer_is_looked_up_with_what_is_there(
    id: Identity,
    token: Seq<char>,
    fetched: Result<Value, String>,
    now: u64,
)
    ensures
        resolution(id, token, None, now) == lookup(id, token, now),
        resolution(id, token, Some(fetched), now) == Found::Done(
            fetched_verdict(id.dex, token, fetched, now),
        ),
        dex_resolution(id.dex, token, None, now) == dex_lookup(id.dex, token, now),
        dex_resolution(id.dex, token, Some(fetched), now) == Found::Done(
            fetched_verdict(id.dex, token, fetched, now),
        ),
{
}

/// A call keeps the key set that was fetched for it, and changes nothing else of who is
/// trusted; one for which nothing was fetched changes nothing.
pub proof fn fetched_key_set_is_all_that_is_kept(
    before: Identity,
    after: Identity,
    fetched: Option<Result<Value, String>>,
)
    requires
        keeps_fetched(before, after, fetched),
    ensures
        fetched is None ==> after == before,
        after.self_verifier == before.self_verifier,
        after.dex.issuer() == before.dex.issuer(),
        after.dex.audiences() == before.dex.audiences(),
        fetched matches Some(f) ==> (fetched_keys(f) matches Ok(keys) ==> after.dex.cached()
            == Some(keys)),
        fetched matches Some(f) ==> (fetched_keys(f) is Err ==> after.dex.cached()
            == before.dex.cached()),
{
}

/// A token that names an issuer or an audience fits those that name it too, and no others: a
/// text has to be the issuer, or one of the audiences; a list has to have it.
pub proof fn token_fits_whom_it_names(
    token: Seq<char>,
    issuer: Seq<char>,
    audiences: Seq<Seq<char>>,
    iss: Seq<char>,
    aud: Seq<char>,
)
    requires
        token_claim(token, "iss"@) == Some(Some(Json::Text(iss))),
    ensures
        iss != issuer ==> !fits(token, issuer, audiences),
        token_claim(token, "aud"@) == Some(Some(Json::Text(aud))) ==> (fits(
            token,
            issuer,
            audiences,
        ) <==> iss == issuer && audiences.contains(aud)),
        token_claim(token, "aud"@) matches Some(Some(Json::Array(list))) ==> (all_texts(list) ==> (
        fits(token, issuer, audiences) <==> iss == issuer && exists|a: Seq<char>| #[trigger]
            audiences.contains(a) && list.contains(Json::Text(a)))),
{
}

/// A token has the registered claims of an identity where it has a subject, an issuer, an
/// audience and an end, each of its kind, and no beginning that is not a time.
pub proof fn ordinary_token_is_registered(
    token: Seq<char>,
    sub: Seq<char>,
    iss: Seq<char>,
    aud: Seq<char>,
    exp: u64,
)
    requires
        token_claim(token, "sub"@) == Some(Some(Json::Text(sub))),
        token_claim(token, "iss"@) == Some(Some(Json::Text(iss))),
        token_claim(token, "aud"@) == Some(Some(Json::Text(aud))) || token_claim(token, "aud"@)
            == Some(Some(Json::Array(seq![Json::Text(aud)]))),
        token_claim(token, "exp"@) == Some(Some(Json::Unsigned(exp))),
        token_claim(token, "nbf"@) == Some(None::<Json>),
    ensures
        is_registered(token),
{
}

/// The claims of a token are an identity exactly where the signature checks out, they hold
/// one that has not expired, and the issuer and the audience check out; otherwise the first
/// of these that fails is told.
pub proof fn identity_is_given_where_everything_checks_out(
    signature: Result<(), String>,
    identity: Option<IdentityClaims>,
    addressed: Result<(), String>,
    now: u64,
    r: Result<IdentityClaims, VerifyError>,
)
    requires
        call_ensures(identity_from, (signature, identity, addressed, now), r),
    ensures
        r is Ok <==> signature is Ok && (identity matches Some(c) && now <= c.exp) && addressed
            is Ok,
        r matches Ok(c) ==> identity is Some && c@ == identity->Some_0@,
        signature matches Err(m) ==> (r matches Err(VerifyError::Invalid(e)) && e@ == m@),
        signature is Ok && (identity matches Some(c) && c.exp < now) ==> (r matches Err(
            VerifyError::Invalid(e),
        ) && e@ == "ExpiredSignature"@),
        signature is Ok && (identity matches Some(c) && now <= c.exp) ==> (addressed matches Err(m)
            ==> (r matches Err(VerifyError::Invalid(e)) && e@ == m@)),
        r matches Err(e) ==> e is Invalid,
{
}

/// A token that a key of the set signed, for the issuer and one of the audiences, with the
/// claims of an identity, is accepted until it expires, whatever else it says; and only
/// such a token is.
pub proof fn token_of_a_known_key_is_accepted(
    token: &str,
    jwks: jsonwebtoken::jwk::JwkSet,
    issuer: &str,
    audiences: &[String],
    now: u64,
    r: Result<IdentityClaims, VerifyError>,
    kid: Seq<char>,
    jwk: Json,
    key: KeyMaterial,
)
    requires
        call_ensures(verify_with_jwks_at, (token, &jwks, issuer, audiences, now), r),
        header_key_id(token@) == Ok::<Option<Seq<char>>, Seq<char>>(Some(kid)),
        first_with_id(key_set(jwks), kid) == Some(jwk),
        material_of(jwk) == Ok::<KeyMaterial, Seq<char>>(key),
    ensures
        signed_by(token@, key) && is_registered(token@) && fits(token@, issuer@, texts(audiences@))
            ==> (token_identity(token@) matches Some(c) ==> (now <= c.exp ==> (r matches Ok(x) && x@
            == c))),
        r matches Ok(x) ==> signed_by(token@, key) && fits(token@, issuer@, texts(audiences@))
            && token_identity(token@) == Some(x@) && now <= x.exp,
{
    if let Ok(x) = r {
        assert(shown(r) == Ok::<Claims, Refusal>(x@));
    }
}

/// A token that the service's own key signed, for its own issuer and audience, is its own
/// until it expires, and no other token is.
pub proof fn own_token_is_known(
    v: SelfVerifier,
    token: &str,
    now: u64,
    r: Option<IdentityClaims>,
)
    requires
        call_ensures(SelfVerifier::claims_at, (&v, token, now), r),
    ensures
        signed_by(token@, v.key()) && is_registered(token@) && fits(
            token@,
            v.issuer(),
            seq![v.audience()],
        ) ==> (token_identity(token@) matches Some(c) ==> (now <= c.exp ==> (r matches Some(x) && x@
            == c))),
        r matches Some(x) ==> signed_by(token@, v.key()) && fits(
            token@,
            v.issuer(),
            seq![v.audience()],
        ) && token_identity(token@) == Some(x@) && now <= x.exp,
{
    if let Some(x) = r {
        own_token_is_accepted_exactly_where_it_checks_out(v, token@, now, x@);
    }
}

/// A bearer stands for whom the own key vouches for, and is for Dex's verifier to tell only
/// where it does not.
pub proof fn bearer_stands_for_whom_it_was_issued_to(
    id: Identity,
    bearer: &str,
    now: u64,
    own: Option<IdentityClaims>,
    dex: Lookup<IdentityClaims>,
    r: Lookup<IdentityClaims>,
)
    requires
        call_ensures(SelfVerifier::claims_at, (&id.self_verifier, bearer, now), own),
        call_ensures(DexVerifier::verify_at, (&id.dex, bearer, now), dex),
        call_ensures(Identity::claims_at, (&id, bearer, now), r),
    ensures
        own matches Some(c) ==> r@ == Found::Done(Ok(c@)),
        own is None ==> r@ == dex@,
        r@ matches Found::Done(Ok(c)) ==> token_identity(bearer@) == Some(c),
{
}

/// The subject of a bearer is the subject of the claims that came out, or the error is that
/// which came out.
pub proof fn subject_is_that_of_the_claims(
    outcome: Result<IdentityClaims, VerifyError>,
    r: Result<String, VerifyError>,
)
    requires
        call_ensures(subject_of, (outcome,), r),
    ensures
        outcome matches Ok(c) ==> (r matches Ok(sub) && sub@ == c.sub@),
        outcome matches Err(e) ==> (r matches Err(f) && f@ == e@),
{
}

/// The subject of a bearer is that of the identity in it.
pub proof fn subject_is_that_of_the_bearer(id: Identity, bearer: &str, r: Lookup<String>)
    requires
        call_ensures(Identity::subject, (&id, bearer), r),
    ensures
        exists|now: u64| is_now(now) && match #[trigger] lookup(id, bearer@, now) {
            Found::Done(Ok(c)) => r matches Lookup::Done(Ok(sub)) && sub@ == c.sub,
            Found::Done(Err(e)) => r matches Lookup::Done(Err(f)) && f@ == e,
            Found::Fetch => r is Fetch,
        },
{
    let now = choose|now: u64|
        is_now(now) && subject_looked_up(#[trigger] lookup(id, bearer@, now), r);
    let f = lookup(id, bearer@, now);
}

/// The bearer of a call is what follows the scheme in its header.
pub proof fn bearer_is_read_from_the_header(header: &str, token: Seq<char>, r: String, none: String)
    requires
        call_ensures(bearer, (Some(header),), r),
        call_ensures(bearer, (None,), none),
    ensures
        header@ == "Bearer "@ + token ==> r@ == token,
        (forall|t: Seq<char>| header@ != #[trigger] ("Bearer "@ + t)) ==> r@.len() == 0,
        none@.len() == 0,
{
    bearer_is_what_follows_the_scheme(header, token);
}

/// The audiences of Dex's tokens are the own client, and the web frontend's where it is set
/// and not empty.
pub proof fn audiences_are_those_of_the_clients(
    audience: String,
    web_audience: Option<String>,
    r: Vec<String>,
)
    requires
        call_ensures(dex_audiences, (audience, web_audience), r),
    ensures
        web_audience matches Some(web) ==> (web@.len() > 0 ==> texts(r@) == seq![audience@, web@]),
        web_audience is None || web_audience->Some_0@.len() == 0 ==> texts(r@) == seq![audience@],
{
}

/// Where a resource is created, deleted or asked for, a caller who is known acts as their
/// own subject, and one who is not is turned away.
pub proof fn known_caller_acts_as_their_subject(
    create: &mut Store,
    delete: &mut Store,
    store: &Store,
    subject: Result<String, VerifyError>,
    resource_id: &str,
    resource_name: &str,
    ids: Vec<String>,
    created: Result<(), Status>,
    deleted: Result<(), Status>,
    told: Result<(Vec<ResourcePermission>, Vec<ResourcePermission>), Status>,
    listed: Result<Vec<ResourcePermission>, Status>,
    urc_id: Seq<char>,
)
    requires
        call_ensures(create_resource, (create, subject, resource_id, resource_name), created),
        call_ensures(delete_resource, (delete, subject, resource_id), deleted),
        call_ensures(check_user_permission, (store, subject, ids), told),
        call_ensures(lookup_user_permissions, (store, subject), listed),
    ensures
        subject is Err ==> {
            &&& created matches Err(s) && is_turned_away(s)
            &&& deleted matches Err(s) && is_turned_away(s)
            &&& told matches Err(s) && is_turned_away(s)
            &&& listed matches Err(s) && is_turned_away(s)
            &&& final(create)@ == old(create)@
            &&& final(delete)@ == old(delete)@
        },
        subject matches Ok(sub) ==> {
            &&& created is Ok
            &&& !old(create)@.resources.contains_key(resource_id@) ==> effective_role(
                final(create)@,
                sub@,
                resource_id@,
            ) == Some(Role::Owner)
            &&& old(create)@.resources.contains_key(resource_id@) ==> final(create)@
                == old(create)@
            &&& deleted is Ok <==> effective_role(old(delete)@, sub@, resource_id@) == Some(
                Role::Owner,
            )
            &&& deleted is Ok ==> !final(delete)@.resources.contains_key(resource_id@)
                && !reaches(final(delete)@, sub@, resource_id@)
            &&& deleted matches Err(s) ==> s.code == Code::PermissionDenied && final(delete)@
                == old(delete)@
            &&& told is Ok
            &&& listed is Ok
        },
{
    if let Ok(sub) = subject {
        if !old(create)@.resources.contains_key(resource_id@) {
            let at = choose|at: i64|
                final(create)@ == #[trigger] with_owner(
                    old(create)@,
                    sub@,
                    resource_id@,
                    resource_name@,
                    at,
                );
            creator_becomes_owner(old(create)@, sub@, resource_id@, resource_name@, at);
        }
        deletion_removes_all_access(old(delete)@, resource_id@, sub@, resource_id@);
    }
}

/// A list of permissions has one for a resource.
pub open spec fn tells_of(
    list: Seq<ResourcePermission>,
    resource_id: Seq<char>,
    permission: Seq<Seq<char>>,
) -> bool {
    exists|k: int|
        0 <= k < list.len() && (#[trigger] list[k]).resource_id@ == resource_id && texts(
            list[k].permission@,
        ) == permission
}

/// A caller who asks for resources is told of each of them: an owner of all six permissions,
/// a member of the two, and one without a role that there are none; and each is told of in
/// one of the two lists.
pub proof fn each_requested_resource_is_told_of(
    store: &Store,
    subject: Result<String, VerifyError>,
    ids: Vec<String>,
    told: Result<(Vec<ResourcePermission>, Vec<ResourcePermission>), Status>,
    i: int,
)
    requires
        call_ensures(check_user_permission, (store, subject, ids), told),
        0 <= i < ids@.len(),
    ensures
        subject matches Ok(sub) ==> (told matches Ok(lists) && {
            let role = effective_role(store@, sub@, ids@[i]@);
            &&& role == Some(Role::Owner) ==> tells_of(
                lists.0@,
                ids@[i]@,
                seq!["owner"@, "admin"@, "obliterate"@, "migrate"@, "read"@, "write"@],
            )
            &&& role == Some(Role::Member) ==> tells_of(
                lists.0@,
                ids@[i]@,
                seq!["read"@, "write"@],
            )
            &&& role is None ==> tells_of(lists.1@, ids@[i]@, seq![])
            &&& lists.0@.len() + lists.1@.len() == ids@.len()
            &&& forall|k: int|
                0 <= k < lists.0@.len() ==> effective_role(
                    store@,
                    sub@,
                    (#[trigger] lists.0@[k]).resource_id@,
                ) is Some
            &&& forall|k: int|
                0 <= k < lists.1@.len() ==> effective_role(
                    store@,
                    sub@,
                    (#[trigger] lists.1@[k]).resource_id@,
                ) is None
        }),
{
    if let Ok(sub) = subject {
        let lists = told->Ok_0;
        let t = texts(ids@);
        let v = store@;
        let (yes, no) = (permissions_of(lists.0@), permissions_of(lists.1@));
        assert(t[i] == ids@[i]@);
        scope_is_exact(v, sub@, t);
        denial_is_exact(v, sub@, t);
        permissions_of_roles();
        assert(role_permissions(Role::Owner) =~= seq![
            "owner"@,
            "admin"@,
            "obliterate"@,
            "migrate"@,
            "read"@,
            "write"@,
        ]);
        assert(forall|k: int| 0 <= k < lists.0@.len() ==> #[trigger] yes[k] == lists.0@[k]@);
        assert(forall|k: int| 0 <= k < lists.1@.len() ==> #[trigger] no[k] == lists.1@[k]@);
        if let Some(role) = effective_role(v, sub@, t[i]) {
            let g = crate::auth::service::grant_view(t[i], role);
            let k = choose|k: int| 0 <= k < yes.len() && yes[k] == g;
            assert(lists.0@[k].resource_id@ == t[i]);
        } else {
            let k = choose|k: int|
                0 <= k < no.len() && (#[trigger] denied(v, sub@, t)[k]).resource_id == t[i];
            assert(no[k].permission =~= seq![]);
            assert(lists.1@[k].resource_id@ == t[i]);
        }
        assert forall|k: int| 0 <= k < lists.0@.len() implies effective_role(
            v,
            sub@,
            (#[trigger] lists.0@[k]).resource_id@,
        ) is Some by {
            assert(yes[k] == allowed(v, sub@, t)[k]);
        }
        assert forall|k: int| 0 <= k < lists.1@.len() implies effective_role(
            v,
            sub@,
            (#[trigger] lists.1@[k]).resource_id@,
        ) is None by {
            assert(no[k] == denied(v, sub@, t)[k]);
        }
    }
}

/// What a role allows is told with the resource that it is on.
pub proof fn permission_is_told_with_its_resource(
    resource_id: String,
    role: Role,
    r: ResourcePermission,
)
    requires
        call_ensures(grant, (resource_id, role), r),
    ensures
        r.resource_id@ == resource_id@,
        texts(r.permission@) == role_permissions(role),
{
    assert(r@.resource_id == resource_id@);
}

/// A call to create a resource is made by whoever its bearer stands for: a caller with an
/// own token becomes the owner of a resource that is new, and nobody else gets anything.
pub proof fn resource_is_created_for_the_bearer(
    store: &mut Store,
    id: &mut Identity,
    header: &str,
    token: Seq<char>,
    resource_id: &str,
    resource_name: &str,
    now: u64,
    r: Turn<Result<(), Status>>,
)
    requires
        call_ensures(
            call_create_resource,
            (store, id, Some(header), resource_id, resource_name, None, now),
            r,
        ),
        header@ == "Bearer "@ + token,
    ensures
        own_verdict(old(id).self_verifier, token, now) matches Some(c) ==> {
            &&& r matches Turn::Answer(Ok(()))
            &&& !old(store)@.resources.contains_key(resource_id@) ==> effective_role(
                final(store)@,
                c.sub,
                resource_id@,
            ) == Some(Role::Owner)
            &&& old(store)@.resources.contains_key(resource_id@) ==> final(store)@ == old(store)@
            &&& same_but_one_grant(old(store)@, final(store)@, c.sub, resource_id@)
        },
        own_verdict(old(id).self_verifier, token, now) is None ==> match dex_lookup(
            old(id).dex,
            token,
            now,
        ) {
            Found::Done(Ok(c)) => r matches Turn::Answer(Ok(())) && same_but_one_grant(
                old(store)@,
                final(store)@,
                c.sub,
                resource_id@,
            ),
            Found::Done(Err(_)) => final(store)@ == old(store)@ && (r matches Turn::Answer(Err(s))
                && is_turned_away(s)),
            Found::Fetch => final(store)@ == old(store)@ && r is Fetch,
        },
        *final(id) == *old(id),
{
    bearer_is_what_follows_the_scheme(header, token);
    creation_makes_the_caller_the_owner(
        old(store)@,
        final(store)@,
        lookup(*old(id), token, now),
        resource_id@,
        resource_name@,
        r,
    );
}

/// A call to delete a resource is answered for whoever its bearer stands for: only an owner
/// may.
pub proof fn resource_is_deleted_for_the_bearer(
    store: &mut Store,
    id: &mut Identity,
    header: &str,
    token: Seq<char>,
    resource_id: &str,
    now: u64,
    r: Turn<Result<(), Status>>,
)
    requires
        call_ensures(call_delete_resource, (store, id, Some(header), resource_id, None, now), r),
        header@ == "Bearer "@ + token,
    ensures
        lookup(*old(id), token, now) matches Found::Done(Ok(c)) ==> {
            &&& effective_role(old(store)@, c.sub, resource_id@) == Some(Role::Owner) ==> (
            r matches Turn::Answer(Ok(()))) && !final(store)@.resources.contains_key(resource_id@)
            &&& effective_role(old(store)@, c.sub, resource_id@) != Some(Role::Owner) ==> (
            r matches Turn::Answer(Err(s)) && s.code == Code::PermissionDenied) && final(store)@
                == old(store)@
        },
        lookup(*old(id), token, now) matches Found::Done(Err(_)) ==> final(store)@ == old(store)@
            && (r matches Turn::Answer(Err(s)) && is_turned_away(s)),
        lookup(*old(id), token, now) is Fetch ==> final(store)@ == old(store)@ && r is Fetch,
        *final(id) == *old(id),
{
    bearer_is_what_follows_the_scheme(header, token);
    deletion_is_for_owners(
        old(store)@,
        final(store)@,
        lookup(*old(id), token, now),
        resource_id@,
        r,
        ""@,
        ""@,
    );
}

/// A call that asks for everything reachable is answered for whoever its bearer stands for.
pub proof fn everything_reachable_is_listed_for_the_bearer(
    store: &Store,
    id: &mut Identity,
    header: &str,
    token: Seq<char>,
    now: u64,
    r: Turn<Result<Vec<ResourcePermission>, Status>>,
    urc_id: Seq<char>,
)
    requires
        call_ensures(call_lookup_user_permissions, (store, id, Some(header), None, now), r),
        header@ == "Bearer "@ + token,
    ensures
        lookup(*old(id), token, now) matches Found::Done(Ok(c)) ==> (r matches Turn::Answer(
            Ok(list),
        ) && (reaches(store@, c.sub, urc_id) <==> exists|k: int|
            0 <= k < list@.len() && (#[trigger] list@[k]).resource_id@ == urc_id)),
        lookup(*old(id), token, now) matches Found::Done(Err(_)) ==> (r matches Turn::Answer(Err(s))
            && is_turned_away(s)),
        lookup(*old(id), token, now) is Fetch ==> r is Fetch,
        *final(id) == *old(id),
{
    bearer_is_what_follows_the_scheme(header, token);
    listing_has_everything_once(store@, lookup(*old(id), token, now), r, urc_id);
}

/// A call that asks for resources is answered for whoever its bearer stands for.
pub proof fn resources_are_told_of_for_the_bearer(
    store: &Store,
    id: &mut Identity,
    header: &str,
    token: Seq<char>,
    ids: Vec<String>,
    now: u64,
    r: Turn<Result<(Vec<ResourcePermission>, Vec<ResourcePermission>), Status>>,
)
    requires
        call_ensures(call_check_user_permission, (store, id, Some(header), ids, None, now), r),
        header@ == "Bearer "@ + token,
    ensures
        lookup(*old(id), token, now) matches Found::Done(Ok(c)) ==> (r matches Turn::Answer(
            Ok(lists),
        ) && permissions_of(lists.0@) == allowed(store@, c.sub, texts(ids@)) && permissions_of(
            lists.1@,
        ) == denied(store@, c.sub, texts(ids@))),
        lookup(*old(id), token, now) matches Found::Done(Err(_)) ==> (r matches Turn::Answer(Err(s))
            && is_turned_away(s)),
        lookup(*old(id), token, now) is Fetch ==> r is Fetch,
        *final(id) == *old(id),
{
    bearer_is_what_follows_the_scheme(header, token);
    check_tells_of_each_resource(store@, lookup(*old(id), token, now), texts(ids@), r);
}

/// A bearer is exchanged for a token of whoever it stands for, with the scope of the
/// request; without a bearer the call is refused before anything is looked up.
pub proof fn token_is_exchanged_for_the_bearer(
    auth: Auth,
    store: &Store,
    id: &mut Identity,
    header: &str,
    token: Seq<char>,
    requested: Vec<String>,
    now: u64,
    r: Turn<Result<UserToken, Status>>,
)
    requires
        call_ensures(
            call_exchange_user_token,
            (&auth, store, id, Some(header), &requested, None, now),
            r,
        ),
        header@ == "Bearer "@ + token,
    ensures
        token.len() == 0 ==> (r matches Turn::Answer(Err(s)) && s.code == Code::Unauthenticated
            && s.message@ == "missing bearer token"@),
        token.len() > 0 ==> match lookup(*old(id), token, now) {
            Found::Done(Ok(c)) => r matches Turn::Answer(a) && match a {
                Ok(t) => t.user_id@ == c.sub && t.user_name@ == display_name(c),
                Err(s) => s.code == Code::Internal && s.message@ == "token issuance failed"@,
            },
            Found::Done(Err(_)) => r matches Turn::Answer(Err(s)) && s.code
                == Code::Unauthenticated && s.message@ == "invalid identity token"@,
            Found::Fetch => r is Fetch,
        },
        *final(id) == *old(id),
{
    bearer_is_what_follows_the_scheme(header, token);
    if token.len() > 0 {
        exchange_answers_with_the_callers_scope(
            auth,
            store@,
            token,
            lookup(*old(id), token, now),
            texts(requested@),
            r,
        );
    }
}

/// A token of Dex is exchanged for a login token of the account that it stands for; an own
/// token is no token of Dex.
pub proof fn external_token_is_exchanged_for_a_login(
    auth: Auth,
    id: &mut Identity,
    token: &str,
    now: u64,
    r: Turn<Result<UserToken, Status>>,
)
    requires
        call_ensures(call_exchange_external_token, (&auth, id, token, None, now), r),
    ensures
        token@.len() == 0 ==> (r matches Turn::Answer(Err(s)) && s.code == Code::Unauthenticated
            && s.message@ == "missing external token"@),
        token@.len() > 0 ==> match dex_lookup(old(id).dex, token@, now) {
            Found::Done(Ok(c)) => r matches Turn::Answer(a) && is_login_answer(auth, c, a),
            Found::Done(Err(_)) => r matches Turn::Answer(Err(s)) && s.code
                == Code::Unauthenticated && s.message@ == "invalid external token"@,
            Found::Fetch => r is Fetch,
        },
        *final(id) == *old(id),
{
    if token@.len() > 0 {
        external_exchange_answers_with_a_login(auth, token@, dex_lookup(old(id).dex, token@, now), r);
    }
}

/// A polled login ends with the token that Dex issued for it: its own session is over and no
/// other, and it is answered with a login token of the account.
pub proof fn polled_login_ends_with_its_token(
    auth: Auth,
    sessions: &mut Sessions,
    id: &mut Identity,
    session_code: &str,
    token: &str,
    now: u64,
    r: Turn<Result<UserToken, Status>>,
    other: Seq<char>,
)
    requires
        call_ensures(
            call_finish_auth_session,
            (&auth, sessions, id, session_code, token, None, now),
            r,
        ),
    ensures
        match dex_lookup(old(id).dex, token@, now) {
            Found::Done(Ok(c)) => (r matches Turn::Answer(a) && is_login_answer(auth, c, a))
                && !final(sessions)@.contains_key(session_code@),
            Found::Done(Err(_)) => (r matches Turn::Answer(Err(s)) && s.code == Code::Internal
                && s.message@ == "login token invalid"@) && final(sessions)@ == old(sessions)@,
            Found::Fetch => r is Fetch && final(sessions)@ == old(sessions)@,
        },
        other != session_code@ ==> final(sessions)@.contains_key(other)
            == old(sessions)@.contains_key(other) && (old(sessions)@.contains_key(other)
            ==> final(sessions)@[other] == old(sessions)@[other]),
        *final(id) == *old(id),
{
    login_ends_with_its_session(
        auth,
        old(sessions)@,
        final(sessions)@,
        session_code@,
        dex_lookup(old(id).dex, token@, now),
        r,
        other,
    );
}

/// A call that was made again with the key set that was fetched for it is answered, for
/// whomever that set vouches for, and the set is kept.
pub proof fn call_is_answered_with_what_was_fetched(
    store: &mut Store,
    id: &mut Identity,
    header: &str,
    token: Seq<char>,
    resource_id: &str,
    resource_name: &str,
    fetched: Result<Value, String>,
    now: u64,
    r: Turn<Result<(), Status>>,
)
    requires
        call_ensures(
            call_create_resource,
            (store, id, Some(header), resource_id, resource_name, Some(fetched), now),
            r,
        ),
        header@ == "Bearer "@ + token,
    ensures
        r is Answer,
        fetched_keys(fetched) matches Ok(keys) ==> {
            &&& final(id).dex.cached() == Some(keys)
            &&& verdict(token, keys, old(id).dex.issuer(), old(id).dex.audiences(), now) matches Ok(
                c,
            ) ==> (r matches Turn::Answer(Ok(()))) && same_but_one_grant(
                old(store)@,
                final(store)@,
                c.sub,
                resource_id@,
            )
            &&& verdict(token, keys, old(id).dex.issuer(), old(id).dex.audiences(), now) is Err
                ==> final(store)@ == old(store)@ && (r matches Turn::Answer(Err(s))
                && is_turned_away(s))
        },
        fetched_keys(fetched) is Err ==> final(store)@ == old(store)@ && final(id).dex.cached()
            == old(id).dex.cached() && (r matches Turn::Answer(Err(s)) && is_turned_away(s)),
        final(id).self_verifier == old(id).self_verifier,
{
    bearer_is_what_follows_the_scheme(header, token);
    creation_makes_the_caller_the_owner(
        old(store)@,
        final(store)@,
        Found::Done(fetched_verdict(old(id).dex, token, fetched, now)),
        resource_id@,
        resource_name@,
        r,
    );
}

/// Once the own key was tried, what it gave stands, and only without that does what Dex's
/// verifier says.
pub proof fn own_claims_stand(
    id: Identity,
    own: Option<IdentityClaims>,
    bearer: &str,
    now: u64,
    r: Lookup<IdentityClaims>,
)
    requires
        call_ensures(Identity::claims_from, (&id, own, bearer, now), r),
    ensures
        own matches Some(c) ==> r == Lookup::Done(Ok::<IdentityClaims, VerifyError>(c)),
        own is None ==> r@ == dex_lookup(id.dex, bearer@, now),
{
}

/// A token of Dex is verified against the key set that was fetched for it, which is then
/// known; a fetch that failed is what the token is refused for, and changes nothing.
pub proof fn fetched_key_set_decides(
    dex: &mut DexVerifier,
    token: &str,
    fetched: Result<Value, String>,
    now: u64,
    r: Result<IdentityClaims, VerifyError>,
)
    requires
        call_ensures(DexVerifier::verify_fetched_at, (dex, token, fetched, now), r),
    ensures
        fetched matches Err(m) ==> (r matches Err(VerifyError::Jwks(e)) && e@ == m@),
        fetched matches Ok(v) ==> (parsed_key_set(json_of(v)) matches Ok(keys) ==> {
            &&& shown(r) == verdict(token@, keys, old(dex).issuer(), old(dex).audiences(), now)
            &&& final(dex).cached() == Some(keys)
        }),
        fetched matches Ok(v) ==> (parsed_key_set(json_of(v)) matches Err(e) ==> (r matches Err(
            VerifyError::Jwks(x),
        ) && x@ == "jwks parse: "@ + e)),
        fetched is Err || parsed_key_set(json_of(fetched->Ok_0)) is Err ==> final(dex).cached()
            == old(dex).cached(),
        final(dex).issuer() == old(dex).issuer(),
        final(dex).audiences() == old(dex).audiences(),
{
}

/// A verifier of Dex's tokens is for the issuer and the audiences that it was made for, and
/// knows no key until a key set was fetched: a token that names one asks for a fetch.
pub proof fn new_verifier_knows_no_key(
    issuer: String,
    audiences: Vec<String>,
    dex: DexVerifier,
    token: &str,
    now: u64,
    r: Lookup<IdentityClaims>,
    kid: Seq<char>,
    url: String,
)
    requires
        call_ensures(DexVerifier::new, (issuer, audiences), dex),
        call_ensures(DexVerifier::verify_at, (&dex, token, now), r),
        call_ensures(DexVerifier::discovery_url, (&dex,), url),
        header_key_id(token@) == Ok::<Option<Seq<char>>, Seq<char>>(Some(kid)),
    ensures
        r is Fetch,
        dex.issuer() == issuer@,
        dex.audiences() == texts(audiences@),
        url@ == issuer@ + "/.well-known/openid-configuration"@,
{
    assert(r@ is Fetch);
}

/// The service trusts the tokens of its own key, issuer and audience, and Dex as it was
/// told.
pub proof fn service_trusts_its_own_tokens(
    auth: Auth,
    dex: DexVerifier,
    r: Result<Identity, VerifyError>,
)
    requires
        call_ensures(Auth::identity, (&auth, dex), r),
    ensures
        r matches Ok(id) && id.dex == dex && id.self_verifier.key() == auth.signer.public_key()
            && id.self_verifier.issuer() == auth.auth_issuer@ && id.self_verifier.audience()
            == auth.audience@,
{
}

/// A refusal says what it is told, after what it is.
pub proof fn refusal_is_told_in_words(e: VerifyError, r: String)
    requires
        call_ensures(VerifyError::message, (&e,), r),
    ensures
        e matches VerifyError::Malformed(m) ==> r@ == "malformed token: "@ + m@,
        e matches VerifyError::UnknownKid(m) ==> r@ == "no Dex key for kid "@ + m@,
        e matches VerifyError::Jwks(m) ==> r@ == "Dex JWKS unavailable: "@ + m@,
        e matches VerifyError::Invalid(m) ==> r@ == "token rejected: "@ + m@,
{
}

/// A status is of the code and in the words that it was made with, and a call that is not
/// offered is answered as such.
pub proof fn status_is_as_it_was_made(code: Code, message: &str, s: Status, t: Status)
    requires
        call_ensures(Status::new, (code, message), s),
        call_ensures(Status::unimplemented, (message,), t),
    ensures
        s.code == code,
        s.message@ == message@,
        t.code == Code::Unimplemented,
        t.message@ == message@,
{
}

/// Whatever the time is, only a token that a key of the set signed, for the issuer and one
/// of the audiences, is accepted, for the identity in it; and where that holds it is
/// accepted as the clock says that it has not expired.
pub proof fn token_is_accepted_at_any_time_only_where_it_checks_out(
    token: &str,
    jwks: jsonwebtoken::jwk::JwkSet,
    issuer: &str,
    audiences: &[String],
    r: Result<IdentityClaims, VerifyError>,
    kid: Seq<char>,
    jwk: Json,
    key: KeyMaterial,
)
    requires
        call_ensures(verify_with_jwks, (token, &jwks, issuer, audiences), r),
        header_key_id(token@) == Ok::<Option<Seq<char>>, Seq<char>>(Some(kid)),
        first_with_id(key_set(jwks), kid) == Some(jwk),
        material_of(jwk) == Ok::<KeyMaterial, Seq<char>>(key),
    ensures
        r matches Ok(x) ==> signed_by(token@, key) && fits(token@, issuer@, texts(audiences@))
            && token_identity(token@) == Some(x@) && exists|now: u64| #[trigger]
            is_now(now) && now <= x.exp,
        signed_by(token@, key) && is_registered(token@) && fits(token@, issuer@, texts(audiences@))
            ==> (token_identity(token@) matches Some(c) ==> ((forall|now: u64| #[trigger]
            is_now(now) ==> now <= c.exp) ==> (r matches Ok(x) && x@ == c))),
{
    if let Ok(x) = r {
        assert(shown(r) == Ok::<Claims, Refusal>(x@));
    }
    let now = choose|now: u64|
        is_now(now) && shown(r) == #[trigger] verdict(
            token@,
            key_set(jwks),
            issuer@,
            texts(audiences@),
            now,
        );
    assert(shown(r) == verdict(token@, key_set(jwks), issuer@, texts(audiences@), now));
}

/// Whatever the time is, a token is taken for the service's own only where the own key
/// signed it, for the own issuer and audience, and the clock says that it has not expired,
/// and it is taken for it wherever that holds; a bearer that is not is for Dex's verifier to
/// tell.
pub proof fn own_token_is_known_at_any_time(
    id: Identity,
    token: &str,
    own: Option<IdentityClaims>,
    found: Lookup<IdentityClaims>,
)
    requires
        call_ensures(SelfVerifier::claims, (&id.self_verifier, token), own),
        call_ensures(Identity::claims, (&id, token), found),
    ensures
        own matches Some(x) ==> signed_by(token@, id.self_verifier.key()) && fits(
            token@,
            id.self_verifier.issuer(),
            seq![id.self_verifier.audience()],
        ) && token_identity(token@) == Some(x@) && exists|now: u64| #[trigger]
            is_now(now) && now <= x.exp,
        signed_by(token@, id.self_verifier.key()) && is_registered(token@) && fits(
            token@,
            id.self_verifier.issuer(),
            seq![id.self_verifier.audience()],
        ) ==> (token_identity(token@) matches Some(c) ==> ((forall|now: u64| #[trigger]
            is_now(now) ==> now <= c.exp) ==> (own matches Some(x) && x@ == c) && found@
            == Found::Done(Ok(c)))),
        found@ matches Found::Done(Ok(c)) ==> token_identity(token@) == Some(c),
{
    let v = id.self_verifier;
    let now = choose|now: u64|
        is_now(now) && shown_claims(own) == #[trigger] own_verdict(v, token@, now);
    let then = choose|now: u64| is_now(now) && found@ == #[trigger] lookup(id, token@, now);
    if let Some(c) = token_identity(token@) {
        own_token_is_accepted_exactly_where_it_checks_out(v, token@, now, c);
        own_token_is_accepted_exactly_where_it_checks_out(v, token@, then, c);
    }
}

/// Whatever the time is, a token of Dex that names a key which is not known asks for a
/// fetch, and one that is accepted stands for the identity in it.
pub proof fn dex_token_is_verified_at_any_time(
    dex: DexVerifier,
    token: &str,
    r: Lookup<IdentityClaims>,
    kid: Seq<char>,
)
    requires
        call_ensures(DexVerifier::verify, (&dex, token), r),
        header_key_id(token@) == Ok::<Option<Seq<char>>, Seq<char>>(Some(kid)),
    ensures
        r is Fetch <==> (dex.cached() matches Some(keys) ==> first_with_id(keys, kid) is None),
        r@ matches Found::Done(Ok(c)) ==> token_identity(token@) == Some(c) && fits(
            token@,
            dex.issuer(),
            dex.audiences(),
        ) && exists|now: u64| #[trigger] is_now(now) && now <= c.exp,
{
    let now = choose|now: u64| is_now(now) && r@ == #[trigger] dex_lookup(dex, token@, now);
    assert(r@ == dex_lookup(dex, token@, now));
    assert(r is Fetch <==> r@ is Fetch);
}

/// A key set that was fetched is known from then on, whatever the time is and whatever it
/// says of the token.
pub proof fn fetched_key_set_is_known_at_any_time(
    dex: &mut DexVerifier,
    token: &str,
    fetched: Result<Value, String>,
    r: Result<IdentityClaims, VerifyError>,
)
    requires
        call_ensures(DexVerifier::verify_fetched, (dex, token, fetched), r),
    ensures
        fetched matches Err(m) ==> (r matches Err(VerifyError::Jwks(e)) && e@ == m@)
            && final(dex).cached() == old(dex).cached(),
        fetched matches Ok(v) ==> (parsed_key_set(json_of(v)) matches Ok(keys)
            ==> final(dex).cached() == Some(keys)),
        final(dex).issuer() == old(dex).issuer(),
        final(dex).audiences() == old(dex).audiences(),
        r matches Ok(x) ==> token_identity(token@) == Some(x@) && fits(
            token@,
            old(dex).issuer(),
            old(dex).audiences(),
        ) && exists|now: u64| #[trigger] is_now(now) && now <= x.exp,
{
    let now = choose|now: u64|
        is_now(now) && shown(r) == #[trigger] fetched_verdict(*old(dex), token@, fetched, now);
    assert(shown(r) == fetched_verdict(*old(dex), token@, fetched, now));
    if let Ok(x) = r {
        assert(shown(r) == Ok::<Claims, Refusal>(x@));
    }
}

/// The identity in a token, or in its payload, is what is read of it, claim by claim: it has
/// the subject and the end that the claims of those names say.
pub proof fn identity_is_what_is_read(
    token: &str,
    r: Option<IdentityClaims>,
    bytes: &[u8],
    of: Option<IdentityClaims>,
)
    requires
        call_ensures(read_token_identity, (token,), r),
        call_ensures(read_identity, (bytes,), of),
        payload(token@) == Some(bytes@),
    ensures
        r is Some <==> of is Some,
        r matches Some(c) ==> (of matches Some(d) && d@ == c@),
        r matches Some(c) ==> token_claim(token@, "sub"@) == Some(Some(Json::Text(c.sub@)))
            && token_claim(token@, "exp"@) == Some(Some(Json::Unsigned(c.exp))),
        r matches Some(c) ==> stands_for_text(token_claim(token@, "name"@), c@.name)
            && stands_for_text(
            token_claim(token@, "preferred_username"@),
            c@.preferred_username,
        ) && stands_for_text(token_claim(token@, "email"@), c@.email) && stands_for_bool(
            token_claim(token@, "email_verified"@),
            c.email_verified,
        ),
{
    if let Some(c) = r {
        let list = members_in(bytes@)->Some_0;
        identity_is_read_claim_by_claim(list, c@);
    }
}

/// A token with a text subject and a whole end, and no other claim of an identity, is read
/// as the identity of that subject and that end.
pub proof fn bare_identity_is_read(
    token: &str,
    r: Option<IdentityClaims>,
    sub: Seq<char>,
    exp: u64,
)
    requires
        call_ensures(read_token_identity, (token,), r),
        token_claim(token@, "sub"@) == Some(Some(Json::Text(sub))),
        token_claim(token@, "exp"@) == Some(Some(Json::Unsigned(exp))),
        token_claim(token@, "name"@) == Some(None::<Json>),
        token_claim(token@, "preferred_username"@) == Some(None::<Json>),
        token_claim(token@, "email"@) == Some(None::<Json>),
        token_claim(token@, "email_verified"@) == Some(None::<Json>),
    ensures
        r matches Some(c) && c.sub@ == sub && c.exp == exp && c.name is None
            && c.preferred_username is None && c.email is None && c.email_verified is None,
{
    let list = members_in(payload(token@)->Some_0)->Some_0;
    let c = Claims {
        sub,
        exp,
        preferred_username: None,
        name: None,
        email: None,
        email_verified: None,
    };
    identity_is_read_claim_by_claim(list, c);
    assert(token_identity(token@) == Some(c));
}

/// The members of a payload are read in their order, and a claim is read out of them by its
/// name.
pub proof fn claims_are_read_by_their_names(
    token: &str,
    p: Option<Vec<u8>>,
    bytes: &[u8],
    list: Option<Vec<(String, Vec<u8>)>>,
    name: &str,
    r: Option<Option<Scalar>>,
)
    requires
        call_ensures(read_payload, (token,), p),
        p matches Some(x) && x@ == bytes@,
        call_ensures(read_members, (bytes,), list),
        list matches Some(x) && call_ensures(read_claim, (&x, name), r),
    ensures
        token_claim(token@, name@) matches Some(Some(v)) ==> (r matches Some(Some(s)) && shows(
            s,
            v,
        )),
        token_claim(token@, name@) matches Some(None) ==> (r matches Some(None)),
        token_claim(token@, name@) is None ==> r is None,
{
}

/// A token of Dex that was verified is exchanged for a login token of its account, and one
/// that was not is refused, as is a call without a token.
pub proof fn verified_external_token_is_exchanged(
    auth: Auth,
    token: &str,
    verified: Result<IdentityClaims, VerifyError>,
    r: Result<UserToken, Status>,
)
    requires
        call_ensures(Auth::exchange_external_token_for_user_token, (&auth, token, verified), r),
    ensures
        token@.len() == 0 ==> (r matches Err(s) && s.code == Code::Unauthenticated && s.message@
            == "missing external token"@),
        token@.len() > 0 ==> match verified {
            Ok(c) => is_login_answer(auth, c@, r),
            Err(_) => r matches Err(s) && s.code == Code::Unauthenticated && s.message@
                == "invalid external token"@,
        },
{
    if token@.len() > 0 {
        let x = Found::Done(shown(verified));
        external_exchange_answers_with_a_login(auth, token@, x, Turn::Answer(r));
    }
}

/// A bearer that was verified is exchanged for a token of its subject, and one that was not
/// is refused, as is a call without a bearer.
pub proof fn verified_bearer_is_exchanged(
    auth: Auth,
    store: Store,
    token: &str,
    verified: Result<IdentityClaims, VerifyError>,
    requested: Vec<String>,
    r: Result<UserToken, Status>,
)
    requires
        call_ensures(
            Auth::exchange_user_token_for_multiresource_token,
            (&auth, &store, token, verified, &requested),
            r,
        ),
    ensures
        token@.len() == 0 ==> (r matches Err(s) && s.code == Code::Unauthenticated && s.message@
            == "missing bearer token"@),
        token@.len() > 0 ==> match verified {
            Ok(c) => match r {
                Ok(t) => t.user_id@ == c.sub@ && t.user_name@ == display_name(c@) && (c.exp
                    <= i64::MAX ==> t.expires_at == c.exp) && exists|iat: u64|
                    is_now(iat) && #[trigger] is_minted(
                        auth.signer,
                        t.user_token@,
                        auth.claims_for(exchange_grantee(c@, store@, texts(requested@)), iat),
                    ),
                Err(s) => s.code == Code::Internal && s.message@ == "token issuance failed"@,
            },
            Err(_) => r matches Err(s) && s.code == Code::Unauthenticated && s.message@
                == "invalid identity token"@,
        },
{
    if token@.len() > 0 {
        let x = Found::Done(shown(verified));
        exchange_answers_with_the_callers_scope(
            auth,
            store@,
            token@,
            x,
            texts(requested@),
            Turn::Answer(r),
        );
    }
}

/// A login is finished with the token that was verified for it: its session is over, and no
/// other; one that was not verified ends nothing.
pub proof fn verified_login_is_finished(
    auth: Auth,
    sessions: &mut Sessions,
    session_code: &str,
    verified: Result<IdentityClaims, VerifyError>,
    r: Result<UserToken, Status>,
    other: Seq<char>,
)
    requires
        call_ensures(Auth::finish_auth_session, (&auth, sessions, session_code, verified), r),
    ensures
        verified matches Ok(c) ==> is_login_answer(auth, c@, r) && !final(sessions)@.contains_key(
            session_code@,
        ),
        verified is Err ==> final(sessions)@ == old(sessions)@ && (r matches Err(s) && s.code
            == Code::Internal && s.message@ == "login token invalid"@),
        other != session_code@ ==> final(sessions)@.contains_key(other)
            == old(sessions)@.contains_key(other) && (old(sessions)@.contains_key(other)
            ==> final(sessions)@[other] == old(sessions)@[other]),
{
    login_ends_with_its_session(
        auth,
        old(sessions)@,
        final(sessions)@,
        session_code@,
        Found::Done(shown(verified)),
        Turn::Answer(r),
        other,
    );
}

}
