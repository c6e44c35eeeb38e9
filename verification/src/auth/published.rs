//! What holds of the key that the service publishes, and of the tokens that are read with
//! it.
use jsonwebtoken::EncodingKey;
use rsa::RsaPrivateKey;
use serde_json::Value;
use vstd::prelude::*;
use vstd::utf8::*;

use crate::auth::jwks::{discovery_url, key_set_document, single_key_set};
use crate::auth::jwt::{header_key_id, rsa_jwk, signed_by, KeyMaterial};
use crate::auth::keys::{
    build_jwk, canonical_key, encoding_key, is_made, made_signer, key_text, minted, private_key, public_half, read_error,
    signed_token, signing_key_in, thumbprint, Signer, RSA_BITS,
};
use crate::auth::payload::{
    carries, closes, is_space, last_dot, members_from, next_member, past_space, payload,
    payload_part, token_claim, CLOSE, COMMA,
};
use crate::auth::verify::{SelfVerifier, VerifyError};
use crate::encoding::{base64url, base64url_digit, base64url_reads_back, sha256, unbase64url};
use crate::json::{json_of, json_text, member_of, members, shows, Json, Scalar};

verus! {

/// The thumbprint of a key is the digest of its members in the canonical order, whatever
/// else is published of it.
pub proof fn thumbprint_is_the_digest_of_the_key(n: &str, e: &str, r: String)
    requires
        call_ensures(thumbprint, (n, e), r),
    ensures
        unbase64url(r@) == Some(
            sha256(
                encode_utf8("{\"e\":\""@ + e@ + "\",\"kty\":\"RSA\",\"n\":\""@ + n@ + "\"}"@),
            ),
        ),
{
    base64url_reads_back(sha256(encode_utf8(canonical_key(n@, e@))), r@);
}

proof fn reveal_key_members()
    ensures
        "alg"@ == seq!['a', 'l', 'g'],
        "e"@ == seq!['e'],
        "kid"@ == seq!['k', 'i', 'd'],
        "kty"@ == seq!['k', 't', 'y'],
        "n"@ == seq!['n'],
        "use"@ == seq!['u', 's', 'e'],
        "keys"@ == seq!['k', 'e', 'y', 's'],
{
    reveal_strlit("alg");
    reveal_strlit("e");
    reveal_strlit("kid");
    reveal_strlit("kty");
    reveal_strlit("n");
    reveal_strlit("use");
    reveal_strlit("keys");
    assert("alg"@ =~= seq!['a', 'l', 'g']);
    assert("e"@ =~= seq!['e']);
    assert("kid"@ =~= seq!['k', 'i', 'd']);
    assert("kty"@ =~= seq!['k', 't', 'y']);
    assert("n"@ =~= seq!['n']);
    assert("use"@ =~= seq!['u', 's', 'e']);
    assert("keys"@ =~= seq!['k', 'e', 'y', 's']);
}

/// A published key tells its kind and use, its key id, and its modulus and exponent, each
/// under its own name.
pub proof fn published_key_tells_its_members(kid: &str, n: &str, e: &str, r: Value)
    requires
        call_ensures(build_jwk, (kid, n, e), r),
    ensures
        member_of(json_of(r), "kty"@) == Some(Json::Text("RSA"@)),
        member_of(json_of(r), "alg"@) == Some(Json::Text("RS256"@)),
        member_of(json_of(r), "use"@) == Some(Json::Text("sig"@)),
        member_of(json_of(r), "kid"@) == Some(Json::Text(kid@)),
        member_of(json_of(r), "n"@) == Some(Json::Text(n@)),
        member_of(json_of(r), "e"@) == Some(Json::Text(e@)),
{
    reveal_key_members();
    let (alg, ee, k, t, nn, u) = ("alg"@, "e"@, "kid"@, "kty"@, "n"@, "use"@);
    assert(alg.len() == 3 && ee.len() == 1 && k.len() == 3 && t.len() == 3 && nn.len() == 1
        && u.len() == 3);
    assert(alg[0] == 'a' && k[0] == 'k' && k[1] == 'i' && t[0] == 'k' && t[1] == 't' && u[0] == 'u'
        && ee[0] == 'e' && nn[0] == 'n');
}

/// The own key is published under the digest of its canonical members as its key id, with
/// the modulus and the exponent of the key that signs.
pub proof fn own_key_is_published_under_its_thumbprint(signer: Signer, r: Value)
    requires
        signer.wf(),
        call_ensures(Signer::own_jwk, (&signer,), &r),
    ensures
        member_of(json_of(r), "kid"@) == Some(Json::Text(signer.key_id())),
        member_of(json_of(r), "n"@) == Some(
            Json::Text(base64url(public_half(signer.signing_key()).0)),
        ),
        member_of(json_of(r), "e"@) == Some(
            Json::Text(base64url(public_half(signer.signing_key()).1)),
        ),
        unbase64url(signer.key_id()) == Some(
            sha256(
                encode_utf8(
                    "{\"e\":\""@ + base64url(public_half(signer.signing_key()).1)
                        + "\",\"kty\":\"RSA\",\"n\":\""@ + base64url(
                        public_half(signer.signing_key()).0,
                    ) + "\"}"@,
                ),
            ),
        ),
        signer.public_key() == (KeyMaterial::Rsa {
            n: public_half(signer.signing_key()).0,
            e: public_half(signer.signing_key()).1,
        }),
{
    reveal_key_members();
    let (alg, ee, k, t, nn, u) = ("alg"@, "e"@, "kid"@, "kty"@, "n"@, "use"@);
    assert(alg.len() == 3 && ee.len() == 1 && k.len() == 3 && t.len() == 3 && nn.len() == 1
        && u.len() == 3);
    assert(alg[0] == 'a' && k[0] == 'k' && k[1] == 'i' && t[0] == 'k' && t[1] == 't' && u[0] == 'u'
        && ee[0] == 'e' && nn[0] == 'n');
    let (n, e) = (base64url(signer.modulus()), base64url(signer.exponent()));
    base64url_reads_back(sha256(encode_utf8(canonical_key(n, e))), signer.key_id());
}

/// The published key set is the document of a list with the own key and no other.
pub proof fn published_key_set_has_the_own_key_only(own_jwk: Value, r: String)
    requires
        call_ensures(key_set_document, (&own_jwk,), r),
    ensures
        exists|v: Json|
            r@ == #[trigger] json_text(v) && member_of(v, "keys"@) == Some(
                Json::Array(seq![json_of(own_jwk)]),
            ),
{
    let v = single_key_set(json_of(own_jwk));
    assert(r@ == json_text(v));
}

/// A provider's discovery document is found below its issuer.
pub proof fn discovery_document_is_below_the_issuer(issuer: &str, r: String)
    requires
        call_ensures(discovery_url, (issuer,), r),
    ensures
        r@ == issuer@ + "/.well-known/openid-configuration"@,
{
}

/// The key that a signer signs with is that in the text it was read from; a text is refused
/// for what is wrong with it, and with nothing wrong it is not refused.
pub proof fn signer_signs_with_the_key_it_was_read_from(pem: &str, r: Result<Signer, String>)
    requires
        call_ensures(Signer::from_pkcs8_pem, (pem,), r),
    ensures
        private_key(pem@) matches Err(e) ==> (r matches Err(m) && m@ == e),
        private_key(pem@) matches Ok(key) ==> (key_text(key) matches Err(e) ==> (r matches Err(m)
            && m@ == e)),
        private_key(pem@) matches Ok(key) ==> (key_text(key) matches Ok(text) ==> (encoding_key(
            text,
        ) matches Err(e) ==> (r matches Err(m) && m@ == e))),
        private_key(pem@) matches Ok(key) ==> (key_text(key) matches Ok(text) ==> (encoding_key(
            text,
        ) matches Ok(k) ==> (r matches Ok(signer) && signer.wf() && signer.signing_key() == k))),
{
}

/// A stored key is used as it is, and nothing is written; where none is stored, the key that
/// is made is handed out to be stored, and is the one that signs.
pub proof fn stored_key_is_used(
    stored: Option<String>,
    r: Result<(Signer, Option<String>), String>,
)
    requires
        call_ensures(Signer::load_or_generate, (stored,), r),
    ensures
        stored matches Some(pem) ==> (r matches Ok((signer, written)) ==> written is None
            && signing_key_in(pem@) == Ok::<EncodingKey, Seq<char>>(signer.signing_key())),
        stored matches Some(pem) ==> (signing_key_in(pem@) matches Err(e) ==> (r matches Err(m)
            && m@ == e)),
        stored matches Some(pem) ==> (signing_key_in(pem@) is Ok ==> r is Ok),
        stored is None ==> (r matches Ok((signer, written)) ==> (written matches Some(pem)
            && signing_key_in(pem@) == Ok::<EncodingKey, Seq<char>>(signer.signing_key()))),
        r matches Ok((signer, _)) ==> signer.wf(),
{
}

/// Where no key is stored, a key is made, and a signer for it is what comes of that, unless
/// it cannot be made, written down or read again.
pub proof fn made_key_is_used(r: Result<(Signer, Option<String>), String>)
    requires
        call_ensures(Signer::load_or_generate, (None,), r),
    ensures
        exists|key: Result<RsaPrivateKey, String>| #[trigger]
            is_made(key) && {
                &&& key is Err ==> r is Err
                &&& key matches Ok(k) ==> (key_text(k) matches Ok(pem) ==> (signing_key_in(
                    pem,
                ) matches Ok(s) ==> (r matches Ok((signer, Some(text))) && text@ == pem
                    && signer.signing_key() == s)))
                &&& r is Err ==> key is Err || key_text(key->Ok_0) is Err || signing_key_in(
                    key_text(key->Ok_0)->Ok_0,
                ) is Err
            },
{
    let key = choose|key: Result<RsaPrivateKey, String>| #[trigger]
        is_made(key) && made_signer(key, r);
    assert(is_made(key));
}

/// A verifier of own tokens checks with the published key, for the issuer and the audience
/// that it was made for.
pub proof fn own_verifier_checks_with_the_published_key(
    own_jwk: Value,
    issuer: String,
    audience: String,
    r: Result<SelfVerifier, VerifyError>,
    kid: Seq<char>,
    n: Seq<u8>,
    e: Seq<u8>,
)
    requires
        call_ensures(SelfVerifier::new, (&own_jwk, issuer, audience), r),
        json_of(own_jwk) == rsa_jwk(kid, base64url(n), base64url(e)),
    ensures
        r matches Ok(v) && v.key() == (KeyMaterial::Rsa { n, e }) && v.issuer() == issuer@
            && v.audience() == audience@,
{
    let args = (&own_jwk, issuer, audience);
    assert(call_ensures(SelfVerifier::new, args, r));
    assert(json_of(*args.0) == rsa_jwk(kid, base64url(n), base64url(e)));
}

/// A token that was minted names the signer's key, is signed with it, and gives back what it
/// carries to whoever checks it with that key.
pub proof fn minted_token_is_signed_for_its_claims(
    signer: Signer,
    claims: Json,
    r: Result<String, String>,
    name: Seq<char>,
)
    requires
        minted(signer, claims, r),
    ensures
        r matches Ok(token) ==> {
            &&& header_key_id(token@) == Ok::<Option<Seq<char>>, Seq<char>>(Some(signer.key_id()))
            &&& signed_by(token@, signer.public_key())
            &&& token_claim(token@, name) == Some(member_of(claims, name))
            &&& signed_token(signer.key_id(), claims, signer.signing_key()) == Ok::<
                Seq<char>,
                Seq<char>,
            >(token@)
        },
        r matches Err(e) ==> signed_token(signer.key_id(), claims, signer.signing_key()) == Err::<
            Seq<char>,
            Seq<char>,
        >(e@),
{
}

/// A text that a signer can be built from is one with nothing wrong with it.
pub proof fn readable_key_has_no_error(pem: Seq<char>)
    ensures
        read_error(pem) is None <==> signing_key_in(pem) is Ok,
        signing_key_in(pem) matches Err(e) ==> read_error(pem) == Some(e),
        private_key(pem) matches Err(e) ==> signing_key_in(pem) == Err::<EncodingKey, Seq<char>>(e),
        private_key(pem) matches Ok(key) ==> (key_text(key) matches Err(e) ==> signing_key_in(pem)
            == Err::<EncodingKey, Seq<char>>(e)),
        private_key(pem) matches Ok(key) ==> (key_text(key) matches Ok(text) ==> signing_key_in(pem)
            == encoding_key(text)),
{
}

/// A member of an object is the value under its name, and nothing but an object has members.
pub proof fn member_is_the_value_under_its_name(
    m: Map<Seq<char>, Json>,
    name: Seq<char>,
    v: Json,
)
    ensures
        m.contains_key(name) ==> member_of(Json::Object(m), name) == Some(m[name]),
        !m.contains_key(name) ==> member_of(Json::Object(m), name) is None,
        !(v is Object) ==> member_of(v, name) is None,
{
}

/// The last of two values under one name is the one that counts, and values under other
/// names stay.
pub proof fn later_value_of_a_name_counts(
    list: Seq<(String, Value)>,
    name: String,
    value: Value,
    other: Seq<char>,
)
    ensures
        members(list.push((name, value))).contains_key(name@),
        members(list.push((name, value)))[name@] == json_of(value),
        other != name@ ==> (members(list.push((name, value))).contains_key(other) <==> members(
            list,
        ).contains_key(other)) && (members(list).contains_key(other) ==> members(
            list.push((name, value)),
        )[other] == members(list)[other]),
{
    assert(list.push((name, value)).drop_last() =~= list);
}

/// What is read of a value is of the value's own kind, and its text, truth or whole number
/// is the value's.
pub proof fn scalar_is_of_its_kind(s: Scalar, v: Json)
    requires
        shows(s, v),
    ensures
        s is Null <==> v is Null,
        s matches Scalar::Bool(b) ==> v == Json::Bool(b),
        s matches Scalar::Text(t) ==> v == Json::Text(t@),
        s matches Scalar::Number(Some(n)) ==> v == Json::Unsigned(n),
        s matches Scalar::Number(None) ==> v is Number,
        s is Array <==> v is Array,
        s is Object <==> v is Object,
{
}

/// The digits of base64url are the capital and the small letters, the decimal digits, the
/// hyphen and the underscore, in this order.
pub proof fn digits_of_base64url_are_in_order(d: int)
    requires
        0 <= d < 64,
    ensures
        d < 26 ==> base64url_digit(d) as int == 'A' as int + d,
        26 <= d < 52 ==> base64url_digit(d) as int == 'a' as int + (d - 26),
        52 <= d < 62 ==> base64url_digit(d) as int == '0' as int + (d - 52),
        d == 62 ==> base64url_digit(d) == '-',
        d == 63 ==> base64url_digit(d) == '_',
{
}

/// One or two bytes at the end are written with as many digits as they need, and no padding.
pub proof fn last_bytes_are_not_padded(a: u8, b: u8)
    ensures
        base64url(seq![]).len() == 0,
        base64url(seq![a]) == seq![
            base64url_digit(a as int / 4),
            base64url_digit((a as int % 4) * 16),
        ],
        base64url(seq![a, b]) == seq![
            base64url_digit(a as int / 4),
            base64url_digit((a as int % 4) * 16 + b as int / 16),
            base64url_digit((b as int % 16) * 4),
        ],
{
}

proof fn lemma_all_space(s: Seq<u8>)
    requires
        forall|i: int| 0 <= i < s.len() ==> is_space(#[trigger] s[i]),
    ensures
        past_space(s).len() == 0,
    decreases s.len(),
{
    if s.len() > 0 {
        assert(forall|i: int| 0 <= i < s.skip(1).len() ==> #[trigger] s.skip(1)[i] == s[i + 1]);
        lemma_all_space(s.skip(1));
    }
}

proof fn lemma_some_text(s: Seq<u8>, k: int)
    requires
        0 <= k < s.len(),
        !is_space(s[k]),
    ensures
        past_space(s).len() > 0,
    decreases s.len(),
{
    if is_space(s[0]) {
        assert(s.skip(1)[k - 1] == s[k]);
        lemma_some_text(s.skip(1), k - 1);
    }
}

/// An object may be followed by white space, and by nothing else.
pub proof fn object_ends_the_text(rest: Seq<u8>)
    requires
        rest.len() > 0,
        rest[0] == CLOSE,
    ensures
        (forall|i: int| 1 <= i < rest.len() ==> is_space(#[trigger] rest[i])) ==> closes(rest),
        (exists|i: int| 1 <= i < rest.len() && !is_space(#[trigger] rest[i])) ==> !closes(rest),
{
    let t = rest.skip(1);
    if forall|i: int| 1 <= i < rest.len() ==> is_space(#[trigger] rest[i]) {
        assert forall|i: int| 0 <= i < t.len() implies is_space(#[trigger] t[i]) by {
            assert(is_space(rest[i + 1]));
        }
        lemma_all_space(t);
    }
    if exists|i: int| 1 <= i < rest.len() && !is_space(#[trigger] rest[i]) {
        let i = choose|i: int| 1 <= i < rest.len() && !is_space(#[trigger] rest[i]);
        assert(t[i - 1] == rest[i]);
        lemma_some_text(t, i - 1);
    }
}

/// A member is followed by a comma and another one, or by the end of the object; anything
/// else is no object.
pub proof fn member_is_followed_by_comma_or_end(
    p: Seq<u8>,
    member: (Seq<char>, Seq<u8>),
    rest: Seq<u8>,
)
    requires
        next_member(p) == Some((member, rest)),
    ensures
        closes(rest) ==> members_from(p) == Some(seq![member]),
        rest.len() > 0 && rest[0] == COMMA ==> (match members_from(rest.skip(1)) {
            Some(others) => members_from(p) == Some(seq![member] + others),
            None => members_from(p) is None,
        }),
        rest.len() == 0 || (rest[0] != COMMA && rest[0] != CLOSE) ==> members_from(p) is None,
{
}

proof fn lemma_no_dot_at_all(s: Seq<char>)
    requires
        forall|i: int| 0 <= i < s.len() ==> s[i] != '.',
    ensures
        last_dot(s) == -1,
    decreases s.len(),
{
    if s.len() > 0 {
        lemma_no_dot_at_all(s.drop_last());
    }
}

proof fn lemma_dot_before(s: Seq<char>, t: Seq<char>)
    requires
        forall|i: int| 0 <= i < t.len() ==> t[i] != '.',
    ensures
        last_dot(s + seq!['.'] + t) == s.len(),
    decreases t.len(),
{
    let all = s + seq!['.'] + t;
    if t.len() > 0 {
        assert(all.drop_last() =~= s + seq!['.'] + t.drop_last());
        lemma_dot_before(s, t.drop_last());
    } else {
        assert(all.last() == '.');
    }
}

/// A text of one or two parts is no token: it has no payload, and no claims.
pub proof fn text_without_three_parts_has_no_payload(
    first: Seq<char>,
    second: Seq<char>,
    name: Seq<char>,
)
    requires
        forall|i: int| 0 <= i < first.len() ==> first[i] != '.',
        forall|i: int| 0 <= i < second.len() ==> second[i] != '.',
    ensures
        payload(first) is None,
        payload(first + seq!['.'] + second) is None,
        token_claim(first, name) is None,
        token_claim(first + seq!['.'] + second, name) is None,
{
    lemma_no_dot_at_all(first);
    lemma_dot_before(first, second);
    let all = first + seq!['.'] + second;
    assert(all.take(first.len() as int) =~= first);
    assert(payload_part(first) is None);
    assert(payload_part(all) is None);
}

/// A key that is made has a modulus of 2048 bits.
pub proof fn made_key_has_2048_bits()
    ensures
        RSA_BITS == 2048,
{
}

}
