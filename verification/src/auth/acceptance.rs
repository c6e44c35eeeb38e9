//! What holds of the tokens that are read and accepted, whoever issued them.
use serde_json::Value;
use vstd::prelude::*;

use crate::auth::jwt::{
    addressee, checked, first_with_id, fits, header_key_id, is_registered, key_id, material_of,
    parsed_jwk, parsed_key_set, signed_by, KeyMaterial,
};
use crate::auth::payload::{
    claim_in, closes, is_space, last_dot, members_from, members_in, next_member, past_space, payload,
    payload_part, shown_members, token_claim, values_of, CLOSE, COLON, COMMA, OPEN,
};
use crate::auth::verify::{
    account_of, after_fetch, ascii_lower, dex_lookup, fetched_keys, fetched_verdict, identity_among,
    identity_in, is_sound, key_verdict, lookup, lowercase, outcome, own_key, own_verdict,
    refusal_text, shown, shown_claims, token_identity, token_key_id, told, verdict, verifying_key,
    Claims, DexVerifier, Found, Identity, IdentityClaims, Lookup, Refusal, SelfVerifier, VerifyError,
    EXPIRED, NO_IDENTITY,
};
use crate::encoding::{base64url, base64url_reads_back};
use crate::json::{json_of, member_of, parsed, text_at, value_end, Json};

verus! {

/// A token whose key is in the key set is accepted exactly where its signature checks
/// out, its claims hold an identity that has not expired, and its issuer and audience
/// check out; what comes out is that identity, whatever it holds.
pub proof fn token_is_accepted_exactly_where_it_checks_out(
    token: Seq<char>,
    keys: Seq<Json>,
    issuer: Seq<char>,
    audiences: Seq<Seq<char>>,
    now: u64,
    kid: Seq<char>,
    jwk: Json,
    key: KeyMaterial,
    c: Claims,
)
    requires
        header_key_id(token) == Ok::<Option<Seq<char>>, Seq<char>>(Some(kid)),
        first_with_id(keys, kid) == Some(jwk),
        material_of(jwk) == Ok::<KeyMaterial, Seq<char>>(key),
    ensures
        verdict(token, keys, issuer, audiences, now) == Ok::<Claims, Refusal>(c) <==> {
            &&& checked(token, key) is Ok
            &&& token_identity(token) == Some(c)
            &&& now <= c.exp
            &&& addressee(token, key, issuer, audiences) is Ok
        },
{
}

/// A token that is signed by the key that it names, with the registered claims of an
/// identity, for the issuer and one of the audiences, is accepted until it expires: the
/// names, the email address and whether that is verified do not matter.
pub proof fn signed_identity_is_accepted(
    token: Seq<char>,
    keys: Seq<Json>,
    issuer: Seq<char>,
    audiences: Seq<Seq<char>>,
    now: u64,
    kid: Seq<char>,
    jwk: Json,
    key: KeyMaterial,
    c: Claims,
)
    requires
        header_key_id(token) == Ok::<Option<Seq<char>>, Seq<char>>(Some(kid)),
        first_with_id(keys, kid) == Some(jwk),
        material_of(jwk) == Ok::<KeyMaterial, Seq<char>>(key),
        is_sound(token, key, issuer, audiences),
        signed_by(token, key),
        is_registered(token),
        fits(token, issuer, audiences),
        token_identity(token) == Some(c),
        now <= c.exp,
    ensures
        verdict(token, keys, issuer, audiences, now) == Ok::<Claims, Refusal>(c),
{
}

/// The first fault of a token is what it is refused for: its signature, then claims
/// without an identity, then its expiry, and last its issuer or audience.
pub proof fn token_is_refused_for_its_first_fault(
    token: Seq<char>,
    key: KeyMaterial,
    issuer: Seq<char>,
    audiences: Seq<Seq<char>>,
    now: u64,
)
    ensures
        checked(token, key) matches Err(e) ==> key_verdict(token, key, issuer, audiences, now)
            == Err::<Claims, Refusal>(Refusal::Invalid(e)),
        checked(token, key) is Ok && token_identity(token) is None ==> key_verdict(
            token,
            key,
            issuer,
            audiences,
            now,
        ) == Err::<Claims, Refusal>(Refusal::Invalid(NO_IDENTITY@)),
        checked(token, key) is Ok ==> (token_identity(token) matches Some(c) ==> (c.exp < now
            ==> key_verdict(token, key, issuer, audiences, now) == Err::<Claims, Refusal>(
            Refusal::Invalid("ExpiredSignature"@),
        ))),
        checked(token, key) is Ok ==> (token_identity(token) matches Some(c) ==> (now <= c.exp ==> (
        addressee(token, key, issuer, audiences) matches Err(e) ==> key_verdict(
            token,
            key,
            issuer,
            audiences,
            now,
        ) == Err::<Claims, Refusal>(Refusal::Invalid(e))))),
{
}

/// What is refused before a token is looked into: one that names no key, one whose key is
/// not in the set, and one whose key cannot be used.
pub proof fn token_without_a_usable_key_is_refused(
    token: Seq<char>,
    keys: Seq<Json>,
    issuer: Seq<char>,
    audiences: Seq<Seq<char>>,
    now: u64,
)
    ensures
        header_key_id(token) matches Err(e) ==> verdict(token, keys, issuer, audiences, now)
            == Err::<Claims, Refusal>(Refusal::Malformed(e)),
        header_key_id(token) matches Ok(None) ==> verdict(token, keys, issuer, audiences, now)
            == Err::<Claims, Refusal>(Refusal::Malformed("no kid in header"@)),
        header_key_id(token) matches Ok(Some(kid)) ==> (first_with_id(keys, kid) is None
            ==> verdict(token, keys, issuer, audiences, now) == Err::<Claims, Refusal>(
            Refusal::UnknownKid(kid),
        )),
        header_key_id(token) matches Ok(Some(kid)) ==> (first_with_id(keys, kid) matches Some(jwk)
            ==> (material_of(jwk) matches Err(e) ==> verdict(token, keys, issuer, audiences, now)
            == Err::<Claims, Refusal>(Refusal::Jwks("bad jwk "@ + kid + ": "@ + e)))),
{
}

/// The key that is taken from a key set has the key id, and no key before it has; where
/// none is taken, none has it.
pub proof fn first_key_with_the_id_is_taken(keys: Seq<Json>, kid: Seq<char>)
    ensures
        first_with_id(keys, kid) matches Some(jwk) ==> exists|i: int|
            0 <= i < keys.len() && #[trigger] keys[i] == jwk && member_of(jwk, "kid"@) == Some(
                Json::Text(kid),
            ) && forall|j: int|
                0 <= j < i ==> member_of(#[trigger] keys[j], "kid"@) != Some(Json::Text(kid)),
        first_with_id(keys, kid) is None ==> forall|j: int|
            0 <= j < keys.len() ==> member_of(#[trigger] keys[j], "kid"@) != Some(Json::Text(kid)),
    decreases keys.len(),
{
    if keys.len() > 0 {
        if key_id(keys[0]) == Some(kid) {
            assert(keys[0] == keys[0]);
        } else {
            let rest = keys.drop_first();
            first_key_with_the_id_is_taken(rest, kid);
            if let Some(jwk) = first_with_id(rest, kid) {
                let i = choose|i: int|
                    0 <= i < rest.len() && #[trigger] rest[i] == jwk && member_of(jwk, "kid"@)
                        == Some(Json::Text(kid)) && forall|j: int|
                        0 <= j < i ==> member_of(#[trigger] rest[j], "kid"@) != Some(
                            Json::Text(kid),
                        );
                assert(keys[i + 1] == jwk);
                assert forall|j: int| 0 <= j < i + 1 implies member_of(#[trigger] keys[j], "kid"@)
                    != Some(Json::Text(kid)) by {
                    if j > 0 {
                        assert(rest[j - 1] == keys[j]);
                    }
                }
            } else {
                assert forall|j: int| 0 <= j < keys.len() implies member_of(
                    #[trigger] keys[j],
                    "kid"@,
                ) != Some(Json::Text(kid)) by {
                    if j > 0 {
                        assert(rest[j - 1] == keys[j]);
                    }
                }
            }
        }
    }
}

/// A token is the service's own exactly where the own key, issuer and audience check out
/// and it has not expired.
pub proof fn own_token_is_accepted_exactly_where_it_checks_out(
    v: SelfVerifier,
    token: Seq<char>,
    now: u64,
    c: Claims,
)
    ensures
        own_verdict(v, token, now) == Some(c) <==> {
            &&& checked(token, v.key()) is Ok
            &&& token_identity(token) == Some(c)
            &&& now <= c.exp
            &&& addressee(token, v.key(), v.issuer(), seq![v.audience()]) is Ok
        },
{
}

/// A bearer is the service's own where the own key accepts it, and is for Dex's verifier
/// to tell otherwise.
pub proof fn own_key_comes_first(id: Identity, bearer: Seq<char>, now: u64)
    ensures
        own_verdict(id.self_verifier, bearer, now) matches Some(c) ==> lookup(id, bearer, now)
            == Found::Done(Ok(c)),
        own_verdict(id.self_verifier, bearer, now) is None ==> lookup(id, bearer, now)
            == dex_lookup(id.dex, bearer, now),
{
}

/// Dex's key set is fetched exactly for a token that names a key which the cached one
/// does not have; with a key that it has, a token is verified against it.
pub proof fn key_set_is_fetched_for_unknown_keys_only(
    dex: DexVerifier,
    token: Seq<char>,
    now: u64,
)
    ensures
        dex_lookup(dex, token, now) is Fetch <==> (header_key_id(token) matches Ok(Some(kid)) && (
        dex.cached() matches Some(keys) ==> first_with_id(keys, kid) is None)),
        (header_key_id(token) matches Ok(Some(kid)) && (dex.cached() matches Some(keys)
            && first_with_id(keys, kid) is Some)) ==> dex_lookup(dex, token, now) == Found::Done(
            verdict(token, dex.cached()->Some_0, dex.issuer(), dex.audiences(), now),
        ),
        header_key_id(token) matches Err(e) ==> dex_lookup(dex, token, now) == Found::Done(
            Err(Refusal::Malformed(e)),
        ),
        header_key_id(token) matches Ok(None) ==> dex_lookup(dex, token, now) == Found::Done(
            Err(Refusal::Malformed("no kid in header"@)),
        ),
{
}

/// A token is verified against the key set that was fetched for it, and from then on
/// every token whose key is in it is, without another fetch. A fetch that failed is what
/// the token is refused for, and keeps the key set that there was.
pub proof fn fetched_key_set_is_used_and_kept(
    before: DexVerifier,
    after: DexVerifier,
    token: Seq<char>,
    fetched: Result<Value, String>,
    now: u64,
    next: Seq<char>,
    kid: Seq<char>,
    later: u64,
)
    requires
        after_fetch(before, after, fetched),
        header_key_id(next) == Ok::<Option<Seq<char>>, Seq<char>>(Some(kid)),
    ensures
        fetched matches Ok(v) ==> (parsed_key_set(json_of(v)) matches Ok(keys) ==> {
            &&& fetched_verdict(before, token, fetched, now) == verdict(
                token,
                keys,
                before.issuer(),
                before.audiences(),
                now,
            )
            &&& first_with_id(keys, kid) is Some ==> dex_lookup(after, next, later) == Found::Done(
                verdict(next, keys, before.issuer(), before.audiences(), later),
            )
        }),
        fetched matches Ok(v) ==> (parsed_key_set(json_of(v)) matches Err(e) ==> fetched_verdict(
            before,
            token,
            fetched,
            now,
        ) == Err::<Claims, Refusal>(Refusal::Jwks("jwks parse: "@ + e))),
        fetched matches Err(m) ==> fetched_verdict(before, token, fetched, now) == Err::<
            Claims,
            Refusal,
        >(Refusal::Jwks(m@)),
        fetched_keys(fetched) is Err ==> dex_lookup(after, next, later) == dex_lookup(
            before,
            next,
            later,
        ),
{
}

/// The key of the service is that of its published key, or it is told what is wrong with
/// that.
pub proof fn own_key_is_the_published_one(v: Json)
    ensures
        parsed_jwk(v) matches Ok(jwk) ==> (material_of(jwk) matches Ok(key) ==> own_key(v) == Ok::<
            KeyMaterial,
            Refusal,
        >(key)),
        parsed_jwk(v) matches Ok(jwk) ==> (material_of(jwk) matches Err(e) ==> own_key(v) == Err::<
            KeyMaterial,
            Refusal,
        >(Refusal::Jwks("own jwk key: "@ + e))),
        parsed_jwk(v) matches Err(e) ==> own_key(v) == Err::<KeyMaterial, Refusal>(
            Refusal::Jwks("own jwk: "@ + e),
        ),
{
}

/// A claim that may be missing stands for a text, or for none where it is missing or
/// null.
pub open spec fn stands_for_text(claim: Option<Option<Json>>, t: Option<Seq<char>>) -> bool {
    match t {
        Some(t) => claim == Some(Some(Json::Text(t))),
        None => claim == Some(None::<Json>) || claim == Some(Some(Json::Null)),
    }
}

/// The same of a truth value.
pub open spec fn stands_for_bool(claim: Option<Option<Json>>, b: Option<bool>) -> bool {
    match b {
        Some(b) => claim == Some(Some(Json::Bool(b))),
        None => claim == Some(None::<Json>) || claim == Some(Some(Json::Null)),
    }
}

/// An identity is read claim by claim: it is what the claims of those names say, each of
/// its own kind, and there is one wherever they do.
pub proof fn identity_is_read_claim_by_claim(list: Seq<(Seq<char>, Seq<u8>)>, c: Claims)
    ensures
        identity_among(list) == Some(c) <==> {
            &&& claim_in(list, "sub"@) == Some(Some(Json::Text(c.sub)))
            &&& claim_in(list, "exp"@) == Some(Some(Json::Unsigned(c.exp)))
            &&& stands_for_text(claim_in(list, "preferred_username"@), c.preferred_username)
            &&& stands_for_text(claim_in(list, "name"@), c.name)
            &&& stands_for_text(claim_in(list, "email"@), c.email)
            &&& stands_for_bool(claim_in(list, "email_verified"@), c.email_verified)
        },
{
}

/// The identity in a token is that among the members of its payload.
pub proof fn token_identity_is_that_of_its_payload(token: Seq<char>)
    ensures
        payload(token) matches Some(p) ==> (members_in(p) matches Some(list) ==> token_identity(
            token,
        ) == identity_among(list)),
        payload(token) matches Some(p) ==> (members_in(p) is None ==> token_identity(token)
            is None),
        payload(token) is None ==> token_identity(token) is None,
        payload(token) matches Some(p) ==> (members_in(p) matches Some(list) ==> forall|
            name: Seq<char>,
        | #[trigger]
            token_claim(token, name) == claim_in(list, name)),
{
}

proof fn lemma_values_of(list: Seq<(Seq<char>, Seq<u8>)>, name: Seq<char>)
    ensures
        (forall|i: int| 0 <= i < list.len() ==> (#[trigger] list[i]).0 != name) ==> values_of(
            list,
            name,
        ).len() == 0,
        forall|i: int|
            0 <= i < list.len() && (#[trigger] list[i]).0 == name && (forall|j: int|
                0 <= j < list.len() && j != i ==> (#[trigger] list[j]).0 != name) ==> values_of(
                list,
                name,
            ) == seq![list[i].1],
        forall|i: int, j: int|
            0 <= i < j < list.len() && (#[trigger] list[i]).0 == name && (#[trigger] list[j]).0
                == name ==> values_of(list, name).len() >= 2,
        forall|i: int|
            0 <= i < list.len() && (#[trigger] list[i]).0 == name ==> values_of(list, name).len()
                >= 1,
    decreases list.len(),
{
    if list.len() > 0 {
        let init = list.drop_last();
        let n = list.len() - 1;
        lemma_values_of(init, name);
        assert(forall|i: int| 0 <= i < n ==> init[i] == list[i]);
        assert(list.last() == list[n]);
        assert forall|i: int|
            0 <= i < list.len() && (#[trigger] list[i]).0 == name && (forall|j: int|
                0 <= j < list.len() && j != i ==> (#[trigger] list[j]).0 != name) implies values_of(
            list,
            name,
        ) == seq![list[i].1] by {
            if i == n {
                assert forall|k: int| 0 <= k < init.len() implies (#[trigger] init[k]).0 != name by {
                    assert(list[k].0 != name);
                }
                assert(values_of(init, name).len() == 0);
                assert(values_of(list, name) =~= seq![list[i].1]);
            } else {
                assert(list[n].0 != name);
                assert(init[i].0 == name);
                assert forall|j: int| 0 <= j < init.len() && j != i implies (#[trigger] init[j]).0
                    != name by {
                    assert(list[j].0 != name);
                }
                assert(values_of(init, name) == seq![init[i].1]);
            }
        }
        assert forall|i: int, j: int|
            0 <= i < j < list.len() && (#[trigger] list[i]).0 == name && (#[trigger] list[j]).0
                == name implies values_of(list, name).len() >= 2 by {
            assert(init[i].0 == name);
            if j < n {
                assert(init[j].0 == name);
            }
        }
        assert forall|i: int|
            0 <= i < list.len() && (#[trigger] list[i]).0 == name implies values_of(list, name).len()
            >= 1 by {
            if i < n {
                assert(init[i].0 == name);
            }
        }
    }
}

/// A claim is the one member of its name, wherever it stands among the members; there is
/// none where no member has the name, and none can be told where two have it.
pub proof fn claim_is_the_one_member_of_its_name(
    list: Seq<(Seq<char>, Seq<u8>)>,
    name: Seq<char>,
    i: int,
    j: int,
)
    ensures
        (forall|k: int| 0 <= k < list.len() ==> (#[trigger] list[k]).0 != name) ==> claim_in(
            list,
            name,
        ) == Some(None::<Json>),
        0 <= i < list.len() && list[i].0 == name && (forall|k: int|
            0 <= k < list.len() && k != i ==> (#[trigger] list[k]).0 != name) ==> (match parsed(
            list[i].1,
        ) {
            Some(v) => claim_in(list, name) == Some(Some(v)),
            None => claim_in(list, name) is None,
        }),
        0 <= i < j < list.len() && list[i].0 == name && list[j].0 == name ==> claim_in(list, name)
            is None,
{
    lemma_values_of(list, name);
    if 0 <= i < list.len() && list[i].0 == name && (forall|k: int|
        0 <= k < list.len() && k != i ==> (#[trigger] list[k]).0 != name) {
        assert(values_of(list, name) == seq![list[i].1]);
        assert(values_of(list, name)[0] == list[i].1);
    }
}

/// The members of an object are read one after another: a name, a colon and a value,
/// then a comma and the members behind it, or the closing brace and nothing more. White
/// space may stand before the colon and behind the value.
pub proof fn members_are_read_one_after_another(
    p: Seq<u8>,
    name: Seq<char>,
    quoted: Seq<u8>,
    value: Seq<u8>,
    before: Seq<u8>,
    behind: Seq<u8>,
    rest: Seq<u8>,
)
    requires
        quoted.len() > 0,
        value.len() > 0,
        forall|i: int| 0 <= i < before.len() ==> is_space(#[trigger] before[i]),
        forall|i: int| 0 <= i < behind.len() ==> is_space(#[trigger] behind[i]),
        rest.len() > 0,
        rest[0] == COMMA || rest[0] == CLOSE,
        p == quoted + before + seq![COLON] + value + behind + rest,
        text_at(p) == Some((name, quoted.len() as int)),
        value_end(value + behind + rest) == Some(value.len() as int),
    ensures
        rest[0] == COMMA ==> (match members_from(rest.skip(1)) {
            Some(others) => members_from(p) == Some(seq![(name, value)] + others),
            None => members_from(p) is None,
        }),
        rest[0] == CLOSE && rest.len() == 1 ==> members_from(p) == Some(seq![(name, value)]),
{
    let v = value + behind + rest;
    let q = p.skip(quoted.len() as int);
    assert(q =~= before + (seq![COLON] + v));
    lemma_past_space(before, seq![COLON] + v);
    assert((seq![COLON] + v).skip(1) =~= v);
    assert(v.take(value.len() as int) =~= value);
    assert(v.skip(value.len() as int) =~= behind + rest);
    lemma_past_space(behind, rest);
    assert(next_member(p) == Some(((name, value), rest)));
    if rest[0] == CLOSE && rest.len() == 1 {
        assert(rest.skip(1) =~= seq![]);
    }
}

proof fn lemma_past_space(a: Seq<u8>, s: Seq<u8>)
    requires
        forall|i: int| 0 <= i < a.len() ==> is_space(#[trigger] a[i]),
        s.len() > 0 ==> !is_space(s[0]),
    ensures
        past_space(a + s) == s,
    decreases a.len(),
{
    if a.len() > 0 {
        assert((a + s).skip(1) =~= a.drop_first() + s);
        lemma_past_space(a.drop_first(), s);
    } else {
        assert(a + s =~= s);
    }
}

/// The members of an object are what stands between its braces, whatever white space is
/// in front; a payload that does not open with a brace has none.
pub proof fn object_opens_with_a_brace(space: Seq<u8>, p: Seq<u8>)
    requires
        forall|i: int| 0 <= i < space.len() ==> is_space(#[trigger] space[i]),
        p.len() > 0,
        !is_space(p[0]),
    ensures
        p[0] == OPEN && p.len() > 1 && !is_space(p[1]) && p[1] != CLOSE ==> members_in(space + p)
            == members_from(p.skip(1)),
        p == seq![OPEN, CLOSE] ==> members_in(space + p) == Some(
            Seq::<(Seq<char>, Seq<u8>)>::empty(),
        ),
        p[0] != OPEN ==> members_in(space + p) is None,
{
    lemma_past_space(space, p);
    if p[0] == OPEN && p.len() > 1 {
        assert(p.skip(1)[0] == p[1]);
        if p == seq![OPEN, CLOSE] {
            assert(p.skip(1) =~= seq![CLOSE]);
            assert(p.skip(1).skip(1) =~= seq![]);
            assert(closes(past_space(p.skip(1))));
        }
    }
}

/// The white space of JSON is the space, the line feed, the carriage return and the tab;
/// its signs are the braces, the comma and the colon.
pub proof fn signs_of_json(b: u8)
    ensures
        is_space(b) <==> b == ' ' as u8 || b == '\n' as u8 || b == '\r' as u8 || b == '\t' as u8,
        OPEN == '{' as u8,
        CLOSE == '}' as u8,
        COMMA == ',' as u8,
        COLON == ':' as u8,
{
}

proof fn lemma_last_dot(s: Seq<char>, t: Seq<char>)
    requires
        forall|i: int| 0 <= i < t.len() ==> t[i] != '.',
    ensures
        last_dot(s + seq!['.'] + t) == s.len(),
    decreases t.len(),
{
    let all = s + seq!['.'] + t;
    if t.len() > 0 {
        assert(all.drop_last() =~= s + seq!['.'] + t.drop_last());
        lemma_last_dot(s, t.drop_last());
    } else {
        assert(all.last() == '.');
    }
}

proof fn lemma_no_dot(b: Seq<u8>, i: int)
    requires
        0 <= i < base64url(b).len(),
    ensures
        base64url(b)[i] != '.',
    decreases b.len(),
{
    if b.len() >= 3 && i >= 4 {
        lemma_no_dot(b.skip(3), i - 4);
    }
}

/// The payload of a token is what was encoded in its second part from the end.
pub proof fn payload_is_the_middle_part(header: Seq<char>, claims: Seq<u8>, signature: Seq<char>)
    requires
        forall|i: int| 0 <= i < signature.len() ==> signature[i] != '.',
    ensures
        payload(header + seq!['.'] + base64url(claims) + seq!['.'] + signature) == Some(claims),
{
    let part = base64url(claims);
    let token = header + seq!['.'] + part + seq!['.'] + signature;
    let front = header + seq!['.'] + part;
    assert(token =~= front + seq!['.'] + signature);
    lemma_last_dot(front, signature);
    assert(token.take(front.len() as int) =~= front);
    assert forall|i: int| 0 <= i < part.len() implies part[i] != '.' by {
        lemma_no_dot(claims, i);
    }
    lemma_last_dot(header, part);
    assert(token.subrange(header.len() as int + 1, front.len() as int) =~= part);
    base64url_reads_back(claims, part);
}

/// A verified email address, in lowercase, is the account; without one the subject is,
/// whatever email address comes along.
pub proof fn account_is_the_verified_email_or_the_subject(c: Claims)
    ensures
        c.email_verified == Some(true) ==> (c.email matches Some(email) ==> (email.len() > 0
            ==> account_of(c) == lowercase(email))),
        c.email_verified != Some(true) ==> account_of(c) == c.sub,
        c.email is None ==> account_of(c) == c.sub,
        c.email matches Some(email) ==> (email.len() == 0 ==> account_of(c) == c.sub),
{
}

/// The lowercase form of an ASCII character keeps its letter, and every other character.
pub proof fn ascii_lowercase_keeps_the_letter(c: char)
    ensures
        'A' <= c <= 'Z' ==> 'a' <= ascii_lower(c) <= 'z' && ascii_lower(c) as int - 'a' as int
            == c as int - 'A' as int,
        !('A' <= c <= 'Z') ==> ascii_lower(c) == c,
{
}

/// A refusal in words says what it is told, after what it is.
pub proof fn refusal_says_what_it_is_told(m: Seq<char>)
    ensures
        refusal_text(Refusal::Malformed(m)) == "malformed token: "@ + m,
        refusal_text(Refusal::UnknownKid(m)) == "no Dex key for kid "@ + m,
        refusal_text(Refusal::Jwks(m)) == "Dex JWKS unavailable: "@ + m,
        refusal_text(Refusal::Invalid(m)) == "token rejected: "@ + m,
{
}

/// What is shown of claims is what they hold, field by field.
pub proof fn claims_show_what_they_hold(c: IdentityClaims)
    ensures
        c@.sub == c.sub@,
        c@.exp == c.exp,
        c@.email_verified == c.email_verified,
        c@.name is Some <==> c.name is Some,
        c.name matches Some(t) ==> c@.name == Some(t@),
        c@.preferred_username is Some <==> c.preferred_username is Some,
        c.preferred_username matches Some(t) ==> c@.preferred_username == Some(t@),
        c@.email is Some <==> c.email is Some,
        c.email matches Some(t) ==> c@.email == Some(t@),
{
}

/// What is shown of an outcome is what it is.
pub proof fn outcomes_show_what_they_are(c: IdentityClaims, e: VerifyError, m: String)
    ensures
        shown(Ok(c)) == Ok::<Claims, Refusal>(c@),
        shown(Err(e)) == Err::<Claims, Refusal>(e@),
        shown_claims(Some(c)) == Some(c@),
        shown_claims(None) is None,
        told(Ok(())) is Ok,
        told(Err(m)) == Err::<(), Seq<char>>(m@),
        VerifyError::Malformed(m)@ == Refusal::Malformed(m@),
        VerifyError::UnknownKid(m)@ == Refusal::UnknownKid(m@),
        VerifyError::Jwks(m)@ == Refusal::Jwks(m@),
        VerifyError::Invalid(m)@ == Refusal::Invalid(m@),
        Lookup::Done(Ok::<IdentityClaims, VerifyError>(c))@ == Found::Done(Ok(c@)),
        Lookup::Done(Err::<IdentityClaims, VerifyError>(e))@ == Found::Done(Err(e@)),
        Lookup::<IdentityClaims>::Fetch@ is Fetch,
{
}

/// What is shown of a list of members is their names and values, in order.
pub proof fn members_show_names_and_values(list: Seq<(String, Vec<u8>)>)
    ensures
        shown_members(list).len() == list.len(),
        forall|i: int|
            0 <= i < list.len() ==> (#[trigger] shown_members(list)[i]).0 == list[i].0@
                && shown_members(list)[i].1 == list[i].1@,
{
}

}
