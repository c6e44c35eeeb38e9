//! Signed tokens and the keys that verify them, as `jsonwebtoken` reads them.
use jsonwebtoken::jwk::{Jwk, JwkSet};
use jsonwebtoken::{Algorithm, DecodingKey, Validation};
use serde::de::IgnoredAny;
use serde_json::Value;
use vstd::prelude::*;

use crate::auth::jwks::single_key_set;
use crate::auth::payload::{carries, token_claim};
use crate::encoding::base64url;
use crate::json::{json_of, member_of, Json};
use crate::text::texts;

verus! {

/// `jsonwebtoken::jwk::Jwk`, a published key.
#[verifier::external_type_specification]
#[verifier::external_body]
pub struct ExJwk(jsonwebtoken::jwk::Jwk);

/// `jsonwebtoken::jwk::JwkSet`, a list of published keys.
#[verifier::external_type_specification]
#[verifier::external_body]
pub struct ExJwkSet(jsonwebtoken::jwk::JwkSet);

/// `jsonwebtoken::DecodingKey`, a key that signatures are checked with.
#[verifier::external_type_specification]
#[verifier::external_body]
pub struct ExDecodingKey(jsonwebtoken::DecodingKey);

/// The key that a signature is checked with.
pub enum KeyMaterial {
    /// An RSA public key: modulus and exponent, as big-endian bytes.
    Rsa { n: Seq<u8>, e: Seq<u8> },
    /// A key of another family, by the number of the family and its bytes.
    Other { family: u8, bytes: Seq<u8> },
}

/// A published key, as its JSON members.
pub uninterp spec fn jwk_json(jwk: jsonwebtoken::jwk::Jwk) -> Json;

/// The keys of a key set in their order, each as its JSON members.
pub uninterp spec fn key_set(set: jsonwebtoken::jwk::JwkSet) -> Seq<Json>;

/// The key material that a decoding key holds.
pub uninterp spec fn key_material(key: jsonwebtoken::DecodingKey) -> KeyMaterial;

/// The key id in a token's header (if it has one), or why the header cannot be
/// read.
pub uninterp spec fn header_key_id(token: Seq<char>) -> Result<Option<Seq<char>>, Seq<char>>;

/// The published key that a JSON value describes, or why it describes none.
pub uninterp spec fn parsed_jwk(v: Json) -> Result<Json, Seq<char>>;

/// The key set that a JSON value describes, or why it describes none.
pub uninterp spec fn parsed_key_set(v: Json) -> Result<Seq<Json>, Seq<char>>;

/// The key material of a published key, or why it has none.
pub uninterp spec fn material_of(jwk: Json) -> Result<KeyMaterial, Seq<char>>;

/// The outcome of checking a token's signature with a key, and of reading its
/// registered claims, or why they are refused.
pub uninterp spec fn checked(token: Seq<char>, key: KeyMaterial) -> Result<(), Seq<char>>;

/// The outcome of checking a token with a key, for an issuer and a list of
/// audiences. The clock plays no part.
pub uninterp spec fn addressee(
    token: Seq<char>,
    key: KeyMaterial,
    issuer: Seq<char>,
    audiences: Seq<Seq<char>>,
) -> Result<(), Seq<char>>;

/// A token asks for RS256 in its header, and carries a signature that a key
/// verifies.
pub uninterp spec fn signed_by(token: Seq<char>, key: KeyMaterial) -> bool;

/// The key id of a published key.
pub open spec fn key_id(jwk: Json) -> Option<Seq<char>> {
    match member_of(jwk, "kid"@) {
        Some(Json::Text(kid)) => Some(kid),
        _ => None,
    }
}

/// The first of a list of keys that has a key id.
pub open spec fn first_with_id(keys: Seq<Json>, kid: Seq<char>) -> Option<Json>
    decreases keys.len(),
{
    if keys.len() == 0 {
        None
    } else if key_id(keys[0]) == Some(kid) {
        Some(keys[0])
    } else {
        first_with_id(keys.drop_first(), kid)
    }
}

/// An RSA signing key for RS256, published under a key id. `n` and `e` are the
/// modulus and the exponent in base64url.
pub open spec fn rsa_jwk(kid: Seq<char>, n: Seq<char>, e: Seq<char>) -> Json {
    Json::Object(
        map![
            "alg"@ => Json::Text("RS256"@),
            "e"@ => Json::Text(e),
            "kid"@ => Json::Text(kid),
            "kty"@ => Json::Text("RSA"@),
            "n"@ => Json::Text(n),
            "use"@ => Json::Text("sig"@),
        ],
    )
}

/// A list of JSON texts.
pub open spec fn all_texts(list: Seq<Json>) -> bool {
    forall|i: int| 0 <= i < list.len() ==> (#[trigger] list[i]) is Text
}

/// The `iss` claim names no other issuer: where there is one, it is the issuer or a
/// list with it.
pub open spec fn issuer_fits(iss: Option<Option<Json>>, issuer: Seq<char>) -> bool {
    match iss {
        Some(Some(Json::Text(iss))) => iss == issuer,
        Some(Some(Json::Array(list))) => all_texts(list) ==> list.contains(Json::Text(issuer)),
        _ => true,
    }
}

/// The `aud` claim names no other audience: where there is one, it is one of the
/// audiences or a list with one of them.
pub open spec fn audience_fits(aud: Option<Option<Json>>, audiences: Seq<Seq<char>>) -> bool {
    match aud {
        Some(Some(Json::Text(aud))) => audiences.contains(aud),
        Some(Some(Json::Array(list))) => all_texts(list) ==> exists|aud: Seq<char>| #[trigger]
            audiences.contains(aud) && list.contains(Json::Text(aud)),
        _ => true,
    }
}

/// A token fits an issuer and a list of audiences.
pub open spec fn fits(token: Seq<char>, issuer: Seq<char>, audiences: Seq<Seq<char>>) -> bool {
    &&& issuer_fits(token_claim(token, "iss"@), issuer)
    &&& audience_fits(token_claim(token, "aud"@), audiences)
}

/// A token with the registered claims of an identity: a subject, an issuer, an
/// audience or a list of them, and an end in whole seconds. A beginning, where there
/// is one, is in whole seconds too.
pub open spec fn is_registered(token: Seq<char>) -> bool {
    &&& token_claim(token, "exp"@) matches Some(Some(Json::Unsigned(_)))
    &&& match token_claim(token, "nbf"@) {
        Some(None) => true,
        Some(Some(nbf)) => nbf is Unsigned,
        None => false,
    }
    &&& token_claim(token, "sub"@) matches Some(Some(Json::Text(_)))
    &&& token_claim(token, "iss"@) matches Some(Some(Json::Text(_)))
    &&& match token_claim(token, "aud"@) {
        Some(Some(Json::Text(_))) => true,
        Some(Some(Json::Array(list))) => all_texts(list),
        _ => false,
    }
}

/// A token gives its claims back to whoever checks it with the key, for an issuer
/// and audiences that fit them, and to nobody else who checks it with that key.
pub open spec fn reads_back(token: Seq<char>, key: KeyMaterial, claims: Json) -> bool {
    &&& carries(token, claims)
    &&& checked(token, key) is Ok
    &&& forall|issuer: Seq<char>, audiences: Seq<Seq<char>>| #[trigger]
        addressee(token, key, issuer, audiences) is Ok <==> fits(token, issuer, audiences)
}

/// `jsonwebtoken::decode_header` reads the header in the first of a token's
/// three parts, of which this gives the key id. Its error is given by its text.
#[verifier::external_body]
pub(crate) fn read_key_id(token: &str) -> (r: Result<Option<String>, String>)
    ensures
        match r {
            Ok(Some(kid)) => header_key_id(token@) == Ok::<Option<Seq<char>>, Seq<char>>(
                Some(kid@),
            ),
            Ok(None) => header_key_id(token@) == Ok::<Option<Seq<char>>, Seq<char>>(None),
            Err(e) => header_key_id(token@) == Err::<Option<Seq<char>>, Seq<char>>(e@),
        },
{
    jsonwebtoken::decode_header(token).map(|h| h.kid).map_err(|e| e.to_string())
}

/// `serde_json::from_value` reads a published key from its JSON members. What
/// the members of an RSA signing key for RS256 describe is read in full. Its
/// error is given by its text.
#[verifier::external_body]
pub(crate) fn parse_jwk(v: &Value) -> (r: Result<Jwk, String>)
    ensures
        match r {
            Ok(jwk) => parsed_jwk(json_of(*v)) == Ok::<Json, Seq<char>>(jwk_json(jwk)),
            Err(e) => parsed_jwk(json_of(*v)) == Err::<Json, Seq<char>>(e@),
        },
        forall|kid: Seq<char>, n: Seq<char>, e: Seq<char>|
            json_of(*v) == #[trigger] rsa_jwk(kid, n, e) ==> r is Ok && jwk_json(r->Ok_0)
                == rsa_jwk(kid, n, e),
{
    serde_json::from_value::<Jwk>(v.clone()).map_err(|e| e.to_string())
}

/// `serde_json::from_value` reads a key set from JSON. What the members of an RSA
/// signing key for RS256 describe is read in full, where it is the only key. Its
/// error is given by its text.
#[verifier::external_body]
pub(crate) fn parse_key_set(v: &Value) -> (r: Result<JwkSet, String>)
    ensures
        match r {
            Ok(set) => parsed_key_set(json_of(*v)) == Ok::<Seq<Json>, Seq<char>>(key_set(set)),
            Err(e) => parsed_key_set(json_of(*v)) == Err::<Seq<Json>, Seq<char>>(e@),
        },
        forall|kid: Seq<char>, n: Seq<char>, e: Seq<char>|
            json_of(*v) == single_key_set(#[trigger] rsa_jwk(kid, n, e)) ==> r is Ok && key_set(
                r->Ok_0,
            ) == seq![rsa_jwk(kid, n, e)],
{
    serde_json::from_value::<JwkSet>(v.clone()).map_err(|e| e.to_string())
}

/// `JwkSet::find` gives the first key of the set with the key id.
#[verifier::external_body]
pub(crate) fn find_key<'a>(set: &'a JwkSet, kid: &str) -> (r: Option<&'a Jwk>)
    ensures
        match first_with_id(key_set(*set), kid@) {
            Some(json) => r matches Some(jwk) && jwk_json(*jwk) == json,
            None => r is None,
        },
{
    set.find(kid)
}

/// `DecodingKey::from_jwk` reads the key material out of a published key: for an
/// RSA key the bytes of its modulus and exponent, which are encoded in base64url.
/// Its error is given by its text.
#[verifier::external_body]
pub(crate) fn decoding_key(jwk: &Jwk) -> (r: Result<DecodingKey, String>)
    ensures
        match r {
            Ok(key) => material_of(jwk_json(*jwk)) == Ok::<KeyMaterial, Seq<char>>(
                key_material(key),
            ),
            Err(e) => material_of(jwk_json(*jwk)) == Err::<KeyMaterial, Seq<char>>(e@),
        },
        forall|kid: Seq<char>, n: Seq<u8>, e: Seq<u8>|
            jwk_json(*jwk) == #[trigger] rsa_jwk(kid, base64url(n), base64url(e)) ==> r is Ok
                && key_material(r->Ok_0) == (KeyMaterial::Rsa { n, e }),
{
    DecodingKey::from_jwk(jwk).map_err(|e| e.to_string())
}

/// `jsonwebtoken::decode` checks the signature of a token, which has to be an RS256
/// one that the key verifies, whatever algorithm the token's header asks for. It is
/// told to compare no claim with anything, neither the clock nor an issuer or an
/// audience, so that the result depends on the token and the key alone. A token that
/// is signed and has the registered claims of an identity passes. Of other tokens
/// nothing is claimed of when they pass. The error is given by its text.
#[verifier::external_body]
pub(crate) fn check_signature(token: &str, key: &DecodingKey) -> (r: Result<(), String>)
    ensures
        match r {
            Ok(_) => checked(token@, key_material(*key)) == Ok::<(), Seq<char>>(()),
            Err(e) => checked(token@, key_material(*key)) == Err::<(), Seq<char>>(e@),
        },
        r is Ok ==> signed_by(token@, key_material(*key)),
        signed_by(token@, key_material(*key)) && is_registered(token@) ==> r is Ok,
{
    let mut validation = Validation::new(Algorithm::RS256);
    validation.required_spec_claims.clear();
    validation.validate_exp = false;
    validation.validate_aud = false;
    jsonwebtoken::decode::<IgnoredAny>(token, key, &validation)
        .map(|_| ())
        .map_err(|e| e.to_string())
}

/// `jsonwebtoken::decode` checks a token for an issuer and a list of audiences, after
/// its signature. Another issuer or audience is refused; a token that names none is
/// not. There has to be a numeric `exp` claim, which is not compared with the clock
/// here, so that the result depends on the arguments alone. A token that is signed,
/// has the registered claims of an identity and names the issuer and one of the
/// audiences passes. Of other tokens that name neither wrongly nothing is claimed of
/// when they pass. The error is given by its text.
#[verifier::external_body]
pub(crate) fn check_addressee(
    token: &str,
    key: &DecodingKey,
    issuer: &str,
    audiences: &[String],
) -> (r: Result<(), String>)
    ensures
        match r {
            Ok(_) => addressee(token@, key_material(*key), issuer@, texts(audiences@)) == Ok::<
                (),
                Seq<char>,
            >(()),
            Err(e) => addressee(token@, key_material(*key), issuer@, texts(audiences@)) == Err::<
                (),
                Seq<char>,
            >(e@),
        },
        r is Ok ==> signed_by(token@, key_material(*key)) && fits(
            token@,
            issuer@,
            texts(audiences@),
        ),
        signed_by(token@, key_material(*key)) && is_registered(token@) && fits(
            token@,
            issuer@,
            texts(audiences@),
        ) ==> r is Ok,
{
    let mut validation = Validation::new(Algorithm::RS256);
    validation.set_issuer(&[issuer]);
    validation.set_audience(audiences);
    validation.validate_exp = false;
    jsonwebtoken::decode::<IgnoredAny>(token, key, &validation)
        .map(|_| ())
        .map_err(|e| e.to_string())
}

}
