//! What holds of the answers of the auth service.
use vstd::prelude::*;

use crate::auth::access::{
    creator_becomes_owner, deletion_removes_all_access, permissions_of_roles, same_but_one_grant,
};
use crate::auth::calls::{
    caller, check, creation, deletion, exchange, external_exchange, listing, login_end, Turn,
};
use crate::auth::dexlogin::DeviceStart;
use crate::auth::keys::{
    claims_json, grants_of, is_minted, lore_claims, minted_json, GrantView, MintedClaims,
    ResourceGrant,
};
use crate::auth::payload::{carries, token_claim};
use crate::auth::service::{
    allowed, bearer_of, denied, dex_audiences_of, display_name, display_username, exchange_grantee,
    grant_view, listed_role, login_grantee, login_secs, login_session, permissions_of, says, Auth,
    Code, Grantee, ResourcePermission, Status, UserToken,
};
use crate::auth::sessions::{found, live, Session};
use crate::auth::store::{
    effective_role, reaches, role_permissions, with_owner, without_resource, Role, StoreView,
};
use crate::auth::tokens::scope_is_exact;
use crate::auth::verify::{account_of, Claims, Found, Refusal};
use crate::clock::{is_now, is_time};
use crate::json::{member_of, Json};
use crate::text::{other_texts_have_no_prefix, prefix_is_taken_off, texts};

verus! {

proof fn reveal_member_names()
    ensures
        "iss"@ == seq!['i', 's', 's'],
        "sub"@ == seq!['s', 'u', 'b'],
        "aud"@ == seq!['a', 'u', 'd'],
        "iat"@ == seq!['i', 'a', 't'],
        "exp"@ == seq!['e', 'x', 'p'],
        "name"@ == seq!['n', 'a', 'm', 'e'],
        "preferred_username"@.len() == 18,
        "preferred_username"@[0] == 'p',
        "is_service_account"@.len() == 18,
        "is_service_account"@[0] == 'i',
        "resources"@.len() == 9,
        "resource_id"@.len() == 11,
        "permission"@.len() == 10,
{
    reveal_strlit("iss");
    reveal_strlit("sub");
    reveal_strlit("aud");
    reveal_strlit("iat");
    reveal_strlit("exp");
    reveal_strlit("name");
    reveal_strlit("preferred_username");
    reveal_strlit("is_service_account");
    reveal_strlit("resources");
    reveal_strlit("resource_id");
    reveal_strlit("permission");
}

/// A JSON value is the list of these texts: as many, each in its place.
pub open spec fn is_text_list(v: Option<Json>, list: Seq<Seq<char>>) -> bool {
    v matches Some(Json::Array(items)) && items.len() == list.len() && forall|i: int|
        0 <= i < list.len() ==> #[trigger] items[i] == Json::Text(list[i])
}

/// A JSON value is the list of these grants: one object for each, in its place, with
/// the resource's id and with all of its permissions and no others.
pub open spec fn is_grant_list(v: Option<Json>, grants: Seq<GrantView>) -> bool {
    v matches Some(Json::Array(items)) && items.len() == grants.len() && forall|i: int|
        0 <= i < grants.len() ==> {
            &&& member_of(#[trigger] items[i], "resource_id"@) == Some(
                Json::Text(grants[i].resource_id),
            )
            &&& is_text_list(member_of(items[i], "permission"@), grants[i].permission)
        }
}

/// The claims of a Lore token are each written under their own name, and read back as
/// they were given.
pub proof fn claims_are_written_out(
    iss: Seq<char>,
    sub: Seq<char>,
    aud: Seq<Seq<char>>,
    iat: u64,
    exp: u64,
    name: Seq<char>,
    preferred_username: Seq<char>,
    is_service_account: bool,
    resources: Seq<GrantView>,
)
    ensures
        ({
            let v = claims_json(
                iss,
                sub,
                aud,
                iat,
                exp,
                name,
                preferred_username,
                is_service_account,
                resources,
            );
            &&& member_of(v, "iss"@) == Some(Json::Text(iss))
            &&& member_of(v, "sub"@) == Some(Json::Text(sub))
            &&& is_text_list(member_of(v, "aud"@), aud)
            &&& member_of(v, "iat"@) == Some(Json::Unsigned(iat))
            &&& member_of(v, "exp"@) == Some(Json::Unsigned(exp))
            &&& member_of(v, "name"@) == Some(Json::Text(name))
            &&& member_of(v, "preferred_username"@) == Some(Json::Text(preferred_username))
            &&& member_of(v, "is_service_account"@) == Some(Json::Bool(is_service_account))
            &&& is_grant_list(member_of(v, "resources"@), resources)
        }),
{
    reveal_member_names();
    let v = claims_json(
        iss,
        sub,
        aud,
        iat,
        exp,
        name,
        preferred_username,
        is_service_account,
        resources,
    );
    assert(member_of(v, "resources"@) matches Some(Json::Array(items)) && items.len()
        == resources.len());
}

/// What is signed is what the claims hold.
pub proof fn minted_claims_are_written_out(c: MintedClaims)
    ensures
        member_of(minted_json(c), "iss"@) == Some(Json::Text(c.iss@)),
        member_of(minted_json(c), "sub"@) == Some(Json::Text(c.sub@)),
        is_text_list(member_of(minted_json(c), "aud"@), texts(c.aud@)),
        member_of(minted_json(c), "iat"@) == Some(Json::Unsigned(c.iat)),
        member_of(minted_json(c), "exp"@) == Some(Json::Unsigned(c.exp)),
        member_of(minted_json(c), "name"@) == Some(Json::Text(c.name@)),
        member_of(minted_json(c), "preferred_username"@) == Some(Json::Text(c.preferred_username@)),
        member_of(minted_json(c), "is_service_account"@) == Some(Json::Bool(c.is_service_account)),
        is_grant_list(member_of(minted_json(c), "resources"@), grants_of(c.resources@)),
{
    claims_are_written_out(
        c.iss@,
        c.sub@,
        texts(c.aud@),
        c.iat,
        c.exp,
        c.name@,
        c.preferred_username@,
        c.is_service_account,
        grants_of(c.resources@),
    );
}

/// What is shown of grants and permissions is what they hold, each in its place.
pub proof fn grants_show_what_they_hold(
    grants: Seq<ResourceGrant>,
    permissions: Seq<ResourcePermission>,
)
    ensures
        grants_of(grants).len() == grants.len(),
        forall|i: int|
            0 <= i < grants.len() ==> (#[trigger] grants_of(grants)[i]).resource_id
                == grants[i].resource_id@ && grants_of(grants)[i].permission == texts(
                grants[i].permission@,
            ),
        permissions_of(permissions).len() == permissions.len(),
        forall|i: int|
            0 <= i < permissions.len() ==> (#[trigger] permissions_of(permissions)[i]).resource_id
                == permissions[i].resource_id@ && permissions_of(permissions)[i].permission
                == texts(permissions[i].permission@),
{
}

/// A minted token carries what it was minted for: the issuer, the audience and no other,
/// the subject, the names, the end, the time of issue, and every grant with all of its
/// permissions.
pub proof fn minted_token_carries_its_grants(
    token: Seq<char>,
    issuer: Seq<char>,
    audience: Seq<char>,
    subject: Seq<char>,
    name: Seq<char>,
    username: Seq<char>,
    exp: u64,
    resources: Seq<GrantView>,
    iat: u64,
)
    requires
        carries(
            token,
            lore_claims(issuer, audience, subject, name, username, exp, resources, iat),
        ),
    ensures
        token_claim(token, "iss"@) == Some(Some(Json::Text(issuer))),
        token_claim(token, "sub"@) == Some(Some(Json::Text(subject))),
        token_claim(token, "aud"@) == Some(Some(Json::Array(seq![Json::Text(audience)]))),
        token_claim(token, "iat"@) == Some(Some(Json::Unsigned(iat))),
        token_claim(token, "exp"@) == Some(Some(Json::Unsigned(exp))),
        token_claim(token, "name"@) == Some(Some(Json::Text(name))),
        token_claim(token, "preferred_username"@) == Some(Some(Json::Text(username))),
        token_claim(token, "is_service_account"@) == Some(Some(Json::Bool(false))),
        token_claim(token, "resources"@) matches Some(v) && is_grant_list(v, resources),
{
    claims_are_written_out(
        issuer,
        subject,
        seq![audience],
        iat,
        exp,
        name,
        username,
        false,
        resources,
    );
    let claims = lore_claims(issuer, audience, subject, name, username, exp, resources, iat);
    let aud = member_of(claims, "aud"@)->Some_0->Array_0;
    assert(aud =~= seq![Json::Text(audience)]) by {
        assert(aud[0] == Json::Text(seq![audience][0]));
    }
}

/// What one resource of a token's `resources` claim says: its id and its permissions.
pub open spec fn says_grant(item: Json, resource_id: Seq<char>, permission: Seq<Seq<char>>) -> bool {
    &&& member_of(item, "resource_id"@) == Some(Json::Text(resource_id))
    &&& is_text_list(member_of(item, "permission"@), permission)
}

/// One of the entries is for a resource, with these permissions.
pub open spec fn has_entry(
    items: Seq<Json>,
    resource_id: Seq<char>,
    permission: Seq<Seq<char>>,
) -> bool {
    exists|k: int|
        0 <= k < items.len() && says_grant(#[trigger] items[k], resource_id, permission)
}

/// An entry is for a requested resource on which the subject has a role, with the
/// permissions of that role.
pub open spec fn is_in_scope(
    item: Json,
    v: StoreView,
    subject: Seq<char>,
    ids: Seq<Seq<char>>,
) -> bool {
    exists|id: Seq<char>| #[trigger]
        ids.contains(id) && (effective_role(v, subject, id) matches Some(role) && says_grant(
            item,
            id,
            role_permissions(role),
        ))
}

/// An exchanged token carries an entry for every requested resource on which the subject
/// has a role, with every permission of that role, and no other entry: an owner's has all
/// six, a member's the two.
pub proof fn exchanged_token_carries_the_scope(
    auth: Auth,
    token: Seq<char>,
    c: Claims,
    v: StoreView,
    ids: Seq<Seq<char>>,
    iat: u64,
)
    requires
        is_minted(auth.signer, token, auth.claims_for(exchange_grantee(c, v, ids), iat)),
    ensures
        token_claim(token, "sub"@) == Some(Some(Json::Text(c.sub))),
        token_claim(token, "exp"@) == Some(Some(Json::Unsigned(c.exp))),
        token_claim(token, "iss"@) == Some(Some(Json::Text(auth.auth_issuer@))),
        token_claim(token, "aud"@) == Some(Some(Json::Array(seq![Json::Text(auth.audience@)]))),
        token_claim(token, "resources"@) matches Some(Some(Json::Array(items))) && {
            &&& forall|i: int|
                0 <= i < ids.len() ==> (effective_role(v, c.sub, #[trigger] ids[i]) == Some(
                    Role::Owner,
                ) ==> has_entry(
                    items,
                    ids[i],
                    seq!["owner"@, "admin"@, "obliterate"@, "migrate"@, "read"@, "write"@],
                ))
            &&& forall|i: int|
                0 <= i < ids.len() ==> (effective_role(v, c.sub, #[trigger] ids[i]) == Some(
                    Role::Member,
                ) ==> has_entry(items, ids[i], seq!["read"@, "write"@]))
            &&& forall|k: int|
                0 <= k < items.len() ==> is_in_scope(#[trigger] items[k], v, c.sub, ids)
            &&& items.len() == allowed(v, c.sub, ids).len()
        },
{
    let g = exchange_grantee(c, v, ids);
    let all = allowed(v, c.sub, ids);
    minted_token_carries_its_grants(
        token,
        auth.auth_issuer@,
        auth.audience@,
        g.subject,
        g.name,
        g.username,
        g.exp,
        g.resources,
        iat,
    );
    scope_is_exact(v, c.sub, ids);
    permissions_of_roles();
    let items = token_claim(token, "resources"@)->Some_0->Some_0->Array_0;
    assert(items.len() == all.len());
    assert(role_permissions(Role::Owner) =~= seq![
        "owner"@,
        "admin"@,
        "obliterate"@,
        "migrate"@,
        "read"@,
        "write"@,
    ]);
    assert forall|i: int| 0 <= i < ids.len() implies (effective_role(v, c.sub, #[trigger] ids[i])
        matches Some(role) ==> has_entry(items, ids[i], role_permissions(role))) by {
        if let Some(role) = effective_role(v, c.sub, ids[i]) {
            let k = choose|k: int| 0 <= k < all.len() && all[k] == grant_view(ids[i], role);
            assert(says_grant(items[k], ids[i], role_permissions(role)));
        }
    }
    assert forall|k: int| 0 <= k < items.len() implies is_in_scope(
        #[trigger] items[k],
        v,
        c.sub,
        ids,
    ) by {
        let id = all[k].resource_id;
        assert(ids.contains(id));
        let role = effective_role(v, c.sub, id)->Some_0;
        assert(says_grant(items[k], id, role_permissions(role)));
    }
}

/// A login token is for the account that the login stands for, with its names, until the
/// end that the login came with, and gives access to nothing by itself.
pub proof fn login_token_carries_the_account(auth: Auth, token: Seq<char>, c: Claims, iat: u64)
    requires
        is_minted(auth.signer, token, auth.claims_for(login_grantee(c), iat)),
    ensures
        token_claim(token, "sub"@) == Some(Some(Json::Text(account_of(c)))),
        token_claim(token, "exp"@) == Some(Some(Json::Unsigned(c.exp))),
        token_claim(token, "iat"@) == Some(Some(Json::Unsigned(iat))),
        token_claim(token, "name"@) == Some(Some(Json::Text(display_name(c)))),
        token_claim(token, "preferred_username"@) == Some(Some(Json::Text(display_username(c)))),
        token_claim(token, "iss"@) == Some(Some(Json::Text(auth.auth_issuer@))),
        token_claim(token, "aud"@) == Some(Some(Json::Array(seq![Json::Text(auth.audience@)]))),
        token_claim(token, "resources"@) matches Some(Some(Json::Array(items))) && items.len() == 0,
{
    let g = login_grantee(c);
    minted_token_carries_its_grants(
        token,
        auth.auth_issuer@,
        auth.audience@,
        g.subject,
        g.name,
        g.username,
        g.exp,
        g.resources,
        iat,
    );
}

/// What a role allows on a resource is what the role allows, on that resource.
pub proof fn grant_is_for_the_resource(resource_id: Seq<char>, role: Role)
    ensures
        grant_view(resource_id, role).resource_id == resource_id,
        grant_view(resource_id, role).permission == role_permissions(role),
{
}

/// A request is answered resource by resource, in the order of the request: what is
/// allowed and denied of two requests together is what is of the one and then of the
/// other, and a single resource is allowed with its role, or else denied.
pub proof fn request_is_answered_in_order(
    v: StoreView,
    subject: Seq<char>,
    a: Seq<Seq<char>>,
    b: Seq<Seq<char>>,
    id: Seq<char>,
)
    ensures
        allowed(v, subject, a + b) == allowed(v, subject, a) + allowed(v, subject, b),
        denied(v, subject, a + b) == denied(v, subject, a) + denied(v, subject, b),
        allowed(v, subject, seq![]).len() == 0,
        denied(v, subject, seq![]).len() == 0,
        effective_role(v, subject, id) matches Some(role) ==> {
            &&& allowed(v, subject, seq![id]) == seq![
                GrantView { resource_id: id, permission: role_permissions(role) },
            ]
            &&& denied(v, subject, seq![id]).len() == 0
        },
        effective_role(v, subject, id) is None ==> {
            &&& allowed(v, subject, seq![id]).len() == 0
            &&& denied(v, subject, seq![id]) == seq![
                GrantView { resource_id: id, permission: seq![] },
            ]
        },
    decreases b.len(),
{
    reveal_with_fuel(allowed, 2);
    reveal_with_fuel(denied, 2);
    assert(seq![id].drop_last() =~= seq![]);
    assert(allowed(v, subject, seq![]) =~= seq![]);
    assert(denied(v, subject, seq![]) =~= seq![]);
    if b.len() == 0 {
        assert(a + b =~= a);
        assert(b =~= seq![]);
        assert(allowed(v, subject, a) + allowed(v, subject, b) =~= allowed(v, subject, a));
        assert(denied(v, subject, a) + denied(v, subject, b) =~= denied(v, subject, a));
    } else {
        request_is_answered_in_order(v, subject, a, b.drop_last(), id);
        assert((a + b).drop_last() =~= a + b.drop_last());
        assert((a + b).last() == b.last());
        assert(allowed(v, subject, a + b) =~= allowed(v, subject, a) + allowed(v, subject, b));
        assert(denied(v, subject, a + b) =~= denied(v, subject, a) + denied(v, subject, b));
    }
}

/// The audiences of Dex's tokens are the own one, and the web frontend's where it is set
/// and not empty; no others.
pub proof fn audiences_are_the_two_clients(
    audience: Seq<char>,
    web_audience: Option<Seq<char>>,
    aud: Seq<char>,
)
    ensures
        dex_audiences_of(audience, web_audience).contains(aud) <==> aud == audience || (
        web_audience == Some(aud) && aud.len() > 0),
{
    let list = dex_audiences_of(audience, web_audience);
    assert(list[0] == audience);
    if let Some(web) = web_audience {
        if web.len() > 0 {
            assert(list[1] == web);
        }
    }
}

/// The bearer is what stands behind the scheme, all of it; without the scheme there is
/// none.
pub proof fn bearer_is_what_follows_the_scheme(header: &str, token: Seq<char>)
    ensures
        header@ == "Bearer "@ + token ==> bearer_of(Some(header)) == token,
        (forall|t: Seq<char>| header@ != #[trigger] ("Bearer "@ + t)) ==> bearer_of(
            Some(header),
        ).len() == 0,
        bearer_of(None).len() == 0,
{
    reveal_strlit("");
    prefix_is_taken_off(header@, "Bearer "@, token);
    if forall|t: Seq<char>| header@ != #[trigger] ("Bearer "@ + t) {
        other_texts_have_no_prefix(header@, "Bearer "@);
    }
}

/// The display name is the first of name, user name and email address that is not empty,
/// and the subject only where none is.
pub proof fn display_name_is_the_first_that_is_given(c: Claims)
    ensures
        c.name matches Some(t) ==> (t.len() > 0 ==> display_name(c) == t),
        (c.name is None || c.name->Some_0.len() == 0) ==> {
            &&& c.preferred_username matches Some(t) ==> (t.len() > 0 ==> display_name(c) == t)
            &&& (c.preferred_username is None || c.preferred_username->Some_0.len() == 0) ==> {
                &&& c.email matches Some(t) ==> (t.len() > 0 ==> display_name(c) == t)
                &&& (c.email is None || c.email->Some_0.len() == 0) ==> display_name(c) == c.sub
            }
        },
{
}

/// The user name is the user name where there is one, or else the email address, or else
/// the display name.
pub proof fn user_name_is_the_first_that_is_there(c: Claims)
    ensures
        c.preferred_username matches Some(t) ==> display_username(c) == t,
        c.preferred_username is None ==> (c.email matches Some(t) ==> display_username(c) == t),
        c.preferred_username is None && c.email is None ==> display_username(c) == display_name(c),
{
}

/// A login may take as long as its device code lives, but a minute at least and ten
/// minutes at most.
pub proof fn login_time_is_kept_within_limits(expires_in: u64)
    ensures
        60 <= login_secs(expires_in) <= 600,
        60 <= expires_in <= 600 ==> login_secs(expires_in) == expires_in,
        expires_in < 60 ==> login_secs(expires_in) == 60,
        expires_in > 600 ==> login_secs(expires_in) == 600,
{
}

/// A login that was started is found by a poll with its code and its client state, with
/// its own device code and token endpoint, for as long as it may take, and from then on it
/// is not.
pub proof fn started_login_is_found_while_it_may_take(
    m: Map<Seq<char>, Session>,
    session_code: Seq<char>,
    start: DeviceStart,
    client_state: String,
    now: u128,
    later: u128,
)
    requires
        now + 600_000_000_000 <= u128::MAX,
    ensures
        ({
            let after = live(m, now).insert(session_code, login_session(start, client_state, now));
            let end = now + (if start.expires_in < 60 {
                60
            } else if start.expires_in > 600 {
                600
            } else {
                start.expires_in as int
            }) * 1_000_000_000;
            &&& later < end ==> found(after, session_code, client_state@, later) == Some(
                (start.device_code, start.token_endpoint),
            )
            &&& later >= end ==> found(after, session_code, client_state@, later) is None
        }),
{
}

/// A refusal is of its kind and says its words.
pub proof fn refusal_is_of_its_kind(s: Status, code: Code, message: Seq<char>)
    ensures
        says(s, code, message) <==> s.code == code && s.message@ == message,
{
}

/// The answer to a caller without a verified bearer: turned away, as such.
pub open spec fn is_turned_away(s: Status) -> bool {
    s.code == Code::Unauthenticated && s.message@ == "invalid token"@
}

/// Creating a resource succeeds for every caller whose bearer was verified, and makes it
/// the owner where the resource is new, writing no other grant; where it is not, nothing
/// changes. Any other caller is turned away and changes nothing.
pub proof fn creation_makes_the_caller_the_owner(
    v: StoreView,
    w: StoreView,
    x: Found,
    resource_id: Seq<char>,
    resource_name: Seq<char>,
    r: Turn<Result<(), Status>>,
)
    requires
        creation(v, w, x, resource_id, resource_name, r),
    ensures
        x matches Found::Done(Ok(c)) ==> {
            &&& r matches Turn::Answer(Ok(()))
            &&& !v.resources.contains_key(resource_id) ==> {
                &&& effective_role(w, c.sub, resource_id) == Some(Role::Owner)
                &&& w.grants.contains_key((c.sub, resource_id))
                &&& w.grants[(c.sub, resource_id)] == "owner"@
                &&& w.resources.contains_key(resource_id)
                &&& w.resources[resource_id].0 == resource_name
                &&& is_time(w.resources[resource_id].1)
            }
            &&& v.resources.contains_key(resource_id) ==> w == v
            &&& same_but_one_grant(v, w, c.sub, resource_id)
            &&& w.members == v.members
        },
        x matches Found::Done(Err(_)) ==> w == v && (r matches Turn::Answer(Err(s))
            && is_turned_away(s)),
        x is Fetch ==> w == v && r is Fetch,
{
    if let Found::Done(Ok(c)) = x {
        let created_at = choose|created_at: i64|
            is_time(created_at) && w == #[trigger] with_owner(
                v,
                c.sub,
                resource_id,
                resource_name,
                created_at,
            );
        if !v.resources.contains_key(resource_id) {
            creator_becomes_owner(v, c.sub, resource_id, resource_name, created_at);
        }
    }
}

/// Deleting a resource is for its owners: for one it succeeds, and nobody reaches the
/// resource from then on; a member, or anyone without access, is refused and changes
/// nothing, and so is a caller without a verified bearer.
pub proof fn deletion_is_for_owners(
    v: StoreView,
    w: StoreView,
    x: Found,
    resource_id: Seq<char>,
    r: Turn<Result<(), Status>>,
    subject: Seq<char>,
    other: Seq<char>,
)
    requires
        deletion(v, w, x, resource_id, r),
    ensures
        x matches Found::Done(Ok(c)) ==> {
            &&& effective_role(v, c.sub, resource_id) == Some(Role::Owner) ==> {
                &&& r matches Turn::Answer(Ok(()))
                &&& !reaches(w, subject, resource_id)
                &&& !w.resources.contains_key(resource_id)
                &&& other != resource_id ==> effective_role(w, subject, other) == effective_role(
                    v,
                    subject,
                    other,
                )
                &&& w.members == v.members
            }
            &&& effective_role(v, c.sub, resource_id) != Some(Role::Owner) ==> w == v && (
            r matches Turn::Answer(Err(s)) && s.code == Code::PermissionDenied && s.message@
                == "not an owner of this resource"@)
        },
        x matches Found::Done(Err(_)) ==> w == v && (r matches Turn::Answer(Err(s))
            && is_turned_away(s)),
        x is Fetch ==> w == v && r is Fetch,
{
    deletion_removes_all_access(v, resource_id, subject, other);
}

/// Asking for resources tells of each one requested, in the order of the request, what
/// the caller may do there, or that it may not; a caller without a verified bearer is
/// turned away.
pub proof fn check_tells_of_each_resource(
    v: StoreView,
    x: Found,
    ids: Seq<Seq<char>>,
    r: Turn<Result<(Vec<ResourcePermission>, Vec<ResourcePermission>), Status>>,
)
    requires
        check(v, x, ids, r),
    ensures
        x matches Found::Done(Ok(c)) ==> (r matches Turn::Answer(Ok(lists)) && permissions_of(
            lists.0@,
        ) == allowed(v, c.sub, ids) && permissions_of(lists.1@) == denied(v, c.sub, ids)),
        x matches Found::Done(Err(_)) ==> (r matches Turn::Answer(Err(s)) && is_turned_away(s)),
        x is Fetch ==> r is Fetch,
{
}

/// The list of what a caller can reach has every such resource, once, with the
/// permissions of its role there, and no other. Where no grant that applies carries the name
/// of a role, a resource is listed with the permissions of a member.
pub proof fn listing_has_everything_once(
    v: StoreView,
    x: Found,
    r: Turn<Result<Vec<ResourcePermission>, Status>>,
    urc_id: Seq<char>,
)
    requires
        listing(v, x, r),
    ensures
        x matches Found::Done(Ok(c)) ==> (r matches Turn::Answer(Ok(list)) && {
            &&& reaches(v, c.sub, urc_id) <==> exists|k: int|
                0 <= k < list@.len() && (#[trigger] list@[k]).resource_id@ == urc_id
            &&& forall|a: int, b: int|
                0 <= a < b < list@.len() ==> (#[trigger] list@[a]).resource_id@ != (
                #[trigger] list@[b]).resource_id@
            &&& forall|k: int|
                0 <= k < list@.len() ==> (effective_role(v, c.sub, (#[trigger] list@[k]).resource_id@)
                    matches Some(role) ==> texts(list@[k].permission@) == role_permissions(role))
            &&& forall|k: int|
                0 <= k < list@.len() ==> (effective_role(v, c.sub, (#[trigger] list@[k]).resource_id@)
                    is None ==> texts(list@[k].permission@) == seq!["read"@, "write"@])
        }),
        x matches Found::Done(Err(_)) ==> (r matches Turn::Answer(Err(s)) && is_turned_away(s)),
        x is Fetch ==> r is Fetch,
{
    if let Found::Done(Ok(c)) = x {
        let list = r->Answer_0->Ok_0;
        let p = permissions_of(list@);
        permissions_of_roles();
        assert(forall|k: int| 0 <= k < list@.len() ==> #[trigger] p[k] == list@[k]@);
        assert forall|k: int|
            0 <= k < list@.len() && effective_role(
                v,
                c.sub,
                (#[trigger] list@[k]).resource_id@,
            ) is None implies texts(list@[k].permission@) == seq!["read"@, "write"@] by {
            assert(p[k] == list@[k]@);
        }
        if reaches(v, c.sub, urc_id) {
            let g = grant_view(urc_id, listed_role(v, c.sub, urc_id));
            assert(p.contains(g));
            let k = choose|k: int| 0 <= k < p.len() && p[k] == g;
            assert(list@[k].resource_id@ == urc_id);
        }
        assert forall|k: int| 0 <= k < list@.len() implies (effective_role(
            v,
            c.sub,
            (#[trigger] list@[k]).resource_id@,
        ) matches Some(role) ==> texts(list@[k].permission@) == role_permissions(role)) by {
            assert(p[k] == list@[k]@);
        }
        assert forall|k: int| 0 <= k < list@.len() implies reaches(
            v,
            c.sub,
            (#[trigger] list@[k]).resource_id@,
        ) by {
            assert(p[k] == list@[k]@);
        }
        assert forall|a: int, b: int| 0 <= a < b < list@.len() implies (
        #[trigger] list@[a]).resource_id@ != (#[trigger] list@[b]).resource_id@ by {
            assert(p[a].resource_id != p[b].resource_id);
        }
    }
}

/// A token that was issued is the signer's for what it was issued for, and the answer
/// tells its subject, name and end; where it could not be signed, that is all that is
/// told.
pub proof fn issued_answer_tells_of_its_token(
    auth: Auth,
    g: Grantee,
    iat: u64,
    r: Result<UserToken, Status>,
)
    requires
        auth.issues(g, iat, r),
    ensures
        r matches Ok(t) ==> {
            &&& is_minted(auth.signer, t.user_token@, auth.claims_for(g, iat))
            &&& t.user_id@ == g.subject
            &&& t.user_name@ == g.name
            &&& g.exp <= i64::MAX ==> t.expires_at == g.exp
            &&& t.expires_at == g.exp as i64
        },
        r matches Err(s) ==> s.code == Code::Internal && s.message@ == "token issuance failed"@,
{
}

/// A bearer that was verified is exchanged for a token of its subject, until the bearer's
/// own end, with the scope of the request; one that was not is refused.
pub proof fn exchange_answers_with_the_callers_scope(
    auth: Auth,
    v: StoreView,
    token: Seq<char>,
    x: Found,
    ids: Seq<Seq<char>>,
    r: Turn<Result<UserToken, Status>>,
)
    requires
        token.len() > 0,
        exchange(auth, v, token, x, ids, r),
    ensures
        x matches Found::Done(Ok(c)) ==> (r matches Turn::Answer(a) && match a {
            Ok(t) => t.user_id@ == c.sub && t.user_name@ == display_name(c) && (c.exp <= i64::MAX
                ==> t.expires_at == c.exp) && exists|iat: u64|
                is_now(iat) && #[trigger] is_minted(
                    auth.signer,
                    t.user_token@,
                    auth.claims_for(exchange_grantee(c, v, ids), iat),
                ),
            Err(s) => s.code == Code::Internal && s.message@ == "token issuance failed"@,
        }),
        x matches Found::Done(Err(_)) ==> (r matches Turn::Answer(Err(s)) && s.code
            == Code::Unauthenticated && s.message@ == "invalid identity token"@),
        x is Fetch ==> r is Fetch,
{
    if let Found::Done(Ok(c)) = x {
        let a = r->Answer_0;
        let g = exchange_grantee(c, v, ids);
        let iat = choose|iat: u64| is_now(iat) && #[trigger] auth.issues(g, iat, a);
        issued_answer_tells_of_its_token(auth, g, iat, a);
        if let Ok(t) = a {
            assert(is_minted(auth.signer, t.user_token@, auth.claims_for(g, iat)));
        }
    }
}

/// A token of Dex that was verified is exchanged for a login token of the account that it
/// stands for, until its own end; one that was not is refused.
pub proof fn external_exchange_answers_with_a_login(
    auth: Auth,
    token: Seq<char>,
    x: Found,
    r: Turn<Result<UserToken, Status>>,
)
    requires
        token.len() > 0,
        external_exchange(auth, token, x, r),
    ensures
        x matches Found::Done(Ok(c)) ==> (r matches Turn::Answer(a) && is_login_answer(auth, c, a)),
        x matches Found::Done(Err(_)) ==> (r matches Turn::Answer(Err(s)) && s.code
            == Code::Unauthenticated && s.message@ == "invalid external token"@),
        x is Fetch ==> r is Fetch,
{
    if let Found::Done(Ok(c)) = x {
        let a = r->Answer_0;
        let iat = choose|iat: u64|
            is_now(iat) && #[trigger] auth.issues(login_grantee(c), iat, a);
        issued_answer_tells_of_its_token(auth, login_grantee(c), iat, a);
        if let Ok(t) = a {
            assert(is_minted(auth.signer, t.user_token@, auth.claims_for(login_grantee(c), iat)));
        }
    }
}

/// The answer to a login: a token of the account that the login stands for, or that none
/// could be signed.
pub open spec fn is_login_answer(auth: Auth, c: Claims, a: Result<UserToken, Status>) -> bool {
    match a {
        Ok(t) => t.user_id@ == account_of(c) && t.user_name@ == display_name(c) && (c.exp
            <= i64::MAX ==> t.expires_at == c.exp) && exists|iat: u64|
            is_now(iat) && #[trigger] is_minted(
                auth.signer,
                t.user_token@,
                auth.claims_for(login_grantee(c), iat),
            ),
        Err(s) => s.code == Code::Internal && s.message@ == "token issuance failed"@,
    }
}

/// A polled login that Dex's token ends is answered with a login token of its account,
/// and its session is over, and no other; a token that was not verified ends nothing.
pub proof fn login_ends_with_its_session(
    auth: Auth,
    before: Map<Seq<char>, Session>,
    after: Map<Seq<char>, Session>,
    session_code: Seq<char>,
    x: Found,
    r: Turn<Result<UserToken, Status>>,
    other: Seq<char>,
)
    requires
        login_end(auth, before, after, session_code, x, r),
    ensures
        x matches Found::Done(Ok(c)) ==> {
            &&& r matches Turn::Answer(a) && is_login_answer(auth, c, a)
            &&& !after.contains_key(session_code)
            &&& other != session_code ==> after.contains_key(other) == before.contains_key(other)
                && (before.contains_key(other) ==> after[other] == before[other])
        },
        x matches Found::Done(Err(_)) ==> after == before && (r matches Turn::Answer(Err(s))
            && s.code == Code::Internal && s.message@ == "login token invalid"@),
        x is Fetch ==> after == before && r is Fetch,
{
    if let Found::Done(Ok(c)) = x {
        let a = r->Answer_0;
        let iat = choose|iat: u64|
            is_now(iat) && #[trigger] auth.issues(login_grantee(c), iat, a);
        issued_answer_tells_of_its_token(auth, login_grantee(c), iat, a);
        if let Ok(t) = a {
            assert(is_minted(auth.signer, t.user_token@, auth.claims_for(login_grantee(c), iat)));
        }
    }
}

/// The caller is the subject of the bearer that was verified.
pub proof fn caller_is_the_subject(c: Claims, e: Refusal)
    ensures
        caller(Ok(c)) == Some(c.sub),
        caller(Err(e)) is None,
{
}

}
