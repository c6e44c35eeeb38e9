//! What holds of the tokens that this service issues and accepts.
use serde_json::Value;
use vstd::prelude::*;

use crate::auth::access::{
    creator_becomes_owner, deletion_removes_all_access, reach_is_having_a_role, roles_named,
};
use crate::auth::jwks::single_key_set;
use crate::auth::jwt::{
    addressee, all_texts, audience_fits, first_with_id, fits, header_key_id, issuer_fits,
};
use crate::auth::keys::{is_minted, lore_claims, GrantView, Signer};
use crate::auth::payload::{carries, claim_in, members_in, payload, token_claim};
use crate::auth::service::{
    allowed, denied, display_name, display_username, exchange_grantee, grant_view, is_given,
    listed_role, login_grantee, Auth, Grantee,
};
use crate::auth::store::{
    effective_role, reaches, role_permissions, with_owner, without_resource, Role, StoreView,
};
use crate::auth::verify::{
    account_of, fetched_keys, gives_single_keys, has_verified_email, lowercase, own_verdict,
    token_identity, Claims, Identity, Refusal, SelfVerifier,
};
use crate::json::{json_of, member_of, Json};

verus! {

/// The identity that a token of this service carries.
pub open spec fn carried(g: Grantee) -> Claims {
    Claims {
        sub: g.subject,
        exp: g.exp,
        preferred_username: Some(g.username),
        name: Some(g.name),
        email: None,
        email_verified: None,
    }
}

proof fn reveal_claim_names()
    ensures
        "iss"@ == seq!['i', 's', 's'],
        "sub"@ == seq!['s', 'u', 'b'],
        "aud"@ == seq!['a', 'u', 'd'],
        "iat"@ == seq!['i', 'a', 't'],
        "exp"@ == seq!['e', 'x', 'p'],
        "nbf"@ == seq!['n', 'b', 'f'],
        "name"@ == seq!['n', 'a', 'm', 'e'],
        "email"@ == seq!['e', 'm', 'a', 'i', 'l'],
        "preferred_username"@.len() == 18,
        "is_service_account"@.len() == 18,
        "is_service_account"@[0] == 'i',
        "preferred_username"@[0] == 'p',
        "email_verified"@.len() == 14,
        "resources"@.len() == 9,
{
    reveal_strlit("iss");
    reveal_strlit("sub");
    reveal_strlit("aud");
    reveal_strlit("iat");
    reveal_strlit("exp");
    reveal_strlit("nbf");
    reveal_strlit("name");
    reveal_strlit("email");
    reveal_strlit("preferred_username");
    reveal_strlit("is_service_account");
    reveal_strlit("email_verified");
    reveal_strlit("resources");
}

proof fn lemma_lore_members(
    issuer: Seq<char>,
    audience: Seq<char>,
    subject: Seq<char>,
    name: Seq<char>,
    username: Seq<char>,
    exp: u64,
    resources: Seq<GrantView>,
    iat: u64,
)
    ensures
        ({
            let c = lore_claims(issuer, audience, subject, name, username, exp, resources, iat);
            &&& member_of(c, "iss"@) == Some(Json::Text(issuer))
            &&& member_of(c, "sub"@) == Some(Json::Text(subject))
            &&& member_of(c, "aud"@) == Some(Json::Array(seq![Json::Text(audience)]))
            &&& member_of(c, "exp"@) == Some(Json::Unsigned(exp))
            &&& member_of(c, "name"@) == Some(Json::Text(name))
            &&& member_of(c, "preferred_username"@) == Some(Json::Text(username))
            &&& member_of(c, "nbf"@) is None
            &&& member_of(c, "email"@) is None
            &&& member_of(c, "email_verified"@) is None
        }),
{
    reveal_claim_names();
    assert(seq![audience].map_values(|t: Seq<char>| Json::Text(t)) =~= seq![Json::Text(audience)]);
}

/// A token that this service issues carries the identity that it was issued for.
pub proof fn issued_token_carries_the_grantee(auth: Auth, token: Seq<char>, g: Grantee, iat: u64)
    requires
        carries(token, auth.claims_for(g, iat)),
    ensures
        token_identity(token) == Some(carried(g)),
{
    lemma_identity(token, auth.auth_issuer@, auth.audience@, g, iat);
}

proof fn lemma_identity(
    token: Seq<char>,
    issuer: Seq<char>,
    audience: Seq<char>,
    g: Grantee,
    iat: u64,
)
    requires
        carries(
            token,
            lore_claims(
                issuer,
                audience,
                g.subject,
                g.name,
                g.username,
                g.exp,
                g.resources,
                iat,
            ),
        ),
    ensures
        token_identity(token) == Some(carried(g)),
        token_claim(token, "iss"@) == Some(Some(Json::Text(issuer))),
        token_claim(token, "aud"@) == Some(Some(Json::Array(seq![Json::Text(audience)]))),
{
    lemma_lore_members(
        issuer,
        audience,
        g.subject,
        g.name,
        g.username,
        g.exp,
        g.resources,
        iat,
    );
    let list = members_in(payload(token)->Some_0)->Some_0;
    assert(token_claim(token, "sub"@) == claim_in(list, "sub"@));
    assert(token_claim(token, "exp"@) == claim_in(list, "exp"@));
    assert(token_claim(token, "name"@) == claim_in(list, "name"@));
    assert(token_claim(token, "preferred_username"@) == claim_in(list, "preferred_username"@));
    assert(token_claim(token, "email"@) == claim_in(list, "email"@));
    assert(token_claim(token, "email_verified"@) == claim_in(list, "email_verified"@));
}

/// A minted token is read back by a verifier that holds the signer's key: until it
/// expires by one for the same issuer and audience, with what it was minted for;
/// never by one for another issuer or audience, and not after it has expired.
pub proof fn minted_token_is_read_back(
    signer: Signer,
    v: SelfVerifier,
    token: Seq<char>,
    issuer: Seq<char>,
    audience: Seq<char>,
    g: Grantee,
    iat: u64,
    now: u64,
)
    requires
        v.key() == signer.public_key(),
        is_minted(
            signer,
            token,
            lore_claims(
                issuer,
                audience,
                g.subject,
                g.name,
                g.username,
                g.exp,
                g.resources,
                iat,
            ),
        ),
    ensures
        own_verdict(v, token, now) == if v.issuer() == issuer && v.audience() == audience && now
            <= g.exp {
            Some(carried(g))
        } else {
            None
        },
{
    lemma_identity(token, issuer, audience, g, iat);
    let list = seq![Json::Text(audience)];
    let audiences = seq![v.audience()];
    assert(list[0] == Json::Text(audience));
    assert(audiences[0] == v.audience());
    assert(list.contains(Json::Text(audience)));
    assert(audiences.contains(v.audience()));
    assert(all_texts(list));
    assert(audience_fits(token_claim(token, "aud"@), audiences) <==> v.audience() == audience);
    assert(issuer_fits(token_claim(token, "iss"@), v.issuer()) <==> v.issuer() == issuer);
    assert(addressee(token, v.key(), v.issuer(), audiences) is Ok <==> (v.issuer() == issuer
        && v.audience() == audience));
}

/// A token that this service issued is accepted by it, for the identity that it
/// was issued for, until it expires, and not from then on.
pub proof fn issued_token_is_accepted(
    auth: Auth,
    id: Identity,
    token: Seq<char>,
    g: Grantee,
    iat: u64,
    now: u64,
)
    requires
        auth.wf(),
        auth.trusted_by(id),
        is_minted(auth.signer, token, auth.claims_for(g, iat)),
    ensures
        own_verdict(id.self_verifier, token, now) == if now <= g.exp {
            Some(carried(g))
        } else {
            None
        },
{
    minted_token_is_read_back(
        auth.signer,
        id.self_verifier,
        token,
        auth.auth_issuer@,
        auth.audience@,
        g,
        iat,
        now,
    );
}

/// A token of this service is not accepted for another audience.
pub proof fn other_audience_is_refused(
    auth: Auth,
    token: Seq<char>,
    g: Grantee,
    iat: u64,
    issuer: Seq<char>,
    audiences: Seq<Seq<char>>,
)
    requires
        is_minted(auth.signer, token, auth.claims_for(g, iat)),
        !audiences.contains(auth.audience@),
    ensures
        addressee(token, auth.signer.public_key(), issuer, audiences) is Err,
{
    lemma_identity(token, auth.auth_issuer@, auth.audience@, g, iat);
    assert(!fits(token, issuer, audiences));
}

/// A token of this service is not accepted for another issuer.
pub proof fn other_issuer_is_refused(
    auth: Auth,
    token: Seq<char>,
    g: Grantee,
    iat: u64,
    issuer: Seq<char>,
    audiences: Seq<Seq<char>>,
)
    requires
        is_minted(auth.signer, token, auth.claims_for(g, iat)),
        auth.auth_issuer@ != issuer,
    ensures
        addressee(token, auth.signer.public_key(), issuer, audiences) is Err,
{
    lemma_identity(token, auth.auth_issuer@, auth.audience@, g, iat);
    assert(!fits(token, issuer, audiences));
}

proof fn lemma_published_key_is_found(signer: Signer)
    requires
        signer.wf(),
    ensures
        first_with_id(seq![signer.published()], signer.key_id()) == Some(signer.published()),
{
    signer.lemma_published();
    reveal_strlit("kid");
    reveal_strlit("use");
    reveal_strlit("kty");
    reveal_strlit("n");
    assert("kid"@[0] == 'k' && "kid"@[1] == 'i' && "kty"@[1] == 't' && "use"@[0] == 'u');
    reveal_with_fuel(first_with_id, 2);
}

/// A token of this service names the key that this service publishes.
pub proof fn issued_token_names_the_published_key(signer: Signer, token: Seq<char>, claims: Json)
    requires
        signer.wf(),
        is_minted(signer, token, claims),
    ensures
        header_key_id(token) matches Ok(Some(kid)) && first_with_id(seq![signer.published()], kid)
            == Some(signer.published()),
{
    lemma_published_key_is_found(signer);
}

/// The published key set reads back as the key of this service, which is found there
/// by its key id.
pub proof fn published_key_set_gives_the_key(signer: Signer, fetched: Value)
    requires
        signer.wf(),
        json_of(fetched) == single_key_set(signer.published()),
        gives_single_keys(Ok(fetched)),
    ensures
        fetched_keys(Ok(fetched)) == Ok::<Seq<Json>, Refusal>(seq![signer.published()]),
        first_with_id(seq![signer.published()], signer.key_id()) == Some(signer.published()),
{
    signer.lemma_published();
    lemma_published_key_is_found(signer);
}

/// The logins of one person, under any connector, stand for one account, where
/// the email address is verified and differs in case only.
pub proof fn verified_email_unifies_logins(a: Claims, b: Claims)
    requires
        has_verified_email(a),
        has_verified_email(b),
        lowercase(a.email->Some_0) == lowercase(b.email->Some_0),
    ensures
        account_of(a) == account_of(b),
        login_grantee(a).subject == login_grantee(b).subject,
{
}

/// An email address that is not verified never decides which account a login
/// stands for.
pub proof fn unverified_email_never_decides(a: Claims, b: Claims)
    requires
        !has_verified_email(a),
        !has_verified_email(b),
    ensures
        account_of(a) == account_of(b) <==> a.sub == b.sub,
{
}

/// The token that a login was answered with is exchanged for one of the same
/// account, with the same names and the same end.
pub proof fn exchange_keeps_the_login(c: Claims, v: StoreView, ids: Seq<Seq<char>>)
    ensures
        exchange_grantee(carried(login_grantee(c)), v, ids) == (Grantee {
            resources: allowed(v, account_of(c), ids),
            ..login_grantee(c)
        }),
{
    if display_name(c).len() == 0 {
        assert(display_name(c) =~= seq![]);
        assert(display_username(c) =~= seq![]);
        assert(account_of(c) =~= seq![]);
    }
}

/// A token of this service carries a name, unless every claim that could give one
/// is missing or empty, the subject among them.
pub proof fn display_names_are_not_empty(c: Claims)
    requires
        is_given(c.name) || is_given(c.preferred_username) || is_given(c.email) || c.sub.len() > 0,
    ensures
        login_grantee(c).name.len() > 0,
{
}

/// An exchanged token reaches exactly those of the requested resources that the
/// subject has a role on, each with the permissions of that role.
pub proof fn scope_is_exact(v: StoreView, subject: Seq<char>, ids: Seq<Seq<char>>)
    ensures
        forall|k: int|
            0 <= k < allowed(v, subject, ids).len() ==> {
                let g = #[trigger] allowed(v, subject, ids)[k];
                &&& ids.contains(g.resource_id)
                &&& effective_role(v, subject, g.resource_id) matches Some(role) && g.permission
                    == role_permissions(role)
            },
        forall|i: int|
            0 <= i < ids.len() ==> (effective_role(v, subject, #[trigger] ids[i]) matches Some(role)
                ==> allowed(v, subject, ids).contains(grant_view(ids[i], role))),
    decreases ids.len(),
{
    let all = allowed(v, subject, ids);
    if ids.len() > 0 {
        let init = ids.drop_last();
        let rest = allowed(v, subject, init);
        scope_is_exact(v, subject, init);
        assert forall|i: int| 0 <= i < ids.len() implies (effective_role(
            v,
            subject,
            #[trigger] ids[i],
        ) matches Some(role) ==> all.contains(grant_view(ids[i], role))) by {
            if let Some(role) = effective_role(v, subject, ids[i]) {
                if i < ids.len() - 1 {
                    assert(init[i] == ids[i]);
                    let k = choose|k: int|
                        0 <= k < rest.len() && rest[k] == grant_view(ids[i], role);
                    assert(all[k] == grant_view(ids[i], role));
                } else {
                    assert(all[all.len() - 1] == grant_view(ids[i], role));
                }
            }
        }
    }
}

/// A denied resource is a requested one that the subject has no role on, without
/// permissions, and every such resource is denied.
pub proof fn denial_is_exact(v: StoreView, subject: Seq<char>, ids: Seq<Seq<char>>)
    ensures
        forall|k: int|
            0 <= k < denied(v, subject, ids).len() ==> {
                let g = #[trigger] denied(v, subject, ids)[k];
                &&& ids.contains(g.resource_id)
                &&& effective_role(v, subject, g.resource_id) is None
                &&& g.permission.len() == 0
            },
        forall|i: int|
            0 <= i < ids.len() && effective_role(v, subject, #[trigger] ids[i]) is None ==> exists|
                k: int,
            |
                0 <= k < denied(v, subject, ids).len() && (#[trigger] denied(v, subject, ids)[k]).resource_id
                    == ids[i],
        allowed(v, subject, ids).len() + denied(v, subject, ids).len() == ids.len(),
    decreases ids.len(),
{
    let all = denied(v, subject, ids);
    if ids.len() > 0 {
        let init = ids.drop_last();
        let rest = denied(v, subject, init);
        denial_is_exact(v, subject, init);
        assert forall|i: int|
            0 <= i < ids.len() && effective_role(v, subject, #[trigger] ids[i]) is None implies exists|
            k: int,
        | 0 <= k < all.len() && (#[trigger] all[k]).resource_id == ids[i] by {
            if i < ids.len() - 1 {
                assert(init[i] == ids[i]);
                let k = choose|k: int|
                    0 <= k < rest.len() && (#[trigger] rest[k]).resource_id == ids[i];
                assert(all[k] == rest[k]);
            } else {
                assert(all[all.len() - 1].resource_id == ids[i]);
            }
        }
    }
}

/// No token that is exchanged after a resource was deleted reaches it.
pub proof fn deleted_resource_leaves_every_scope(
    v: StoreView,
    subject: Seq<char>,
    urc_id: Seq<char>,
    ids: Seq<Seq<char>>,
)
    ensures
        forall|k: int|
            0 <= k < allowed(without_resource(v, urc_id), subject, ids).len() ==> (
            #[trigger] allowed(without_resource(v, urc_id), subject, ids)[k]).resource_id != urc_id,
{
    scope_is_exact(without_resource(v, urc_id), subject, ids);
    deletion_removes_all_access(v, urc_id, subject, urc_id);
}

/// The creator of a new resource can at once exchange its identity for a token
/// with an owner's permissions on it.
pub proof fn creator_gets_an_owner_scope(
    v: StoreView,
    owner: Seq<char>,
    urc_id: Seq<char>,
    name: Seq<char>,
    created_at: i64,
)
    requires
        !v.resources.contains_key(urc_id),
    ensures
        allowed(with_owner(v, owner, urc_id, name, created_at), owner, seq![urc_id]) == seq![
            grant_view(urc_id, Role::Owner),
        ],
{
    creator_becomes_owner(v, owner, urc_id, name, created_at);
    reveal_with_fuel(allowed, 2);
}

/// Where every grant has a known role, a resource is listed with the role that
/// the subject has on it.
pub proof fn listing_shows_the_role(v: StoreView, subject: Seq<char>, urc_id: Seq<char>)
    requires
        roles_named(v),
    ensures
        reaches(v, subject, urc_id) <==> effective_role(v, subject, urc_id) == Some(
            listed_role(v, subject, urc_id),
        ),
{
    reach_is_having_a_role(v, subject, urc_id);
}

}
