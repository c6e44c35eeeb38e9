//! The key set that this service publishes, and where a provider's is found.
//!
//! loreserver trusts a single issuer, this service, so the published key set
//! holds only the own signing key. Dex-issued tokens are never presented to
//! loreserver; they are verified separately, during login, against Dex's key set.
use serde_json::Value;
use vstd::prelude::*;
use vstd::utf8::*;

use crate::auth::jwt::rsa_jwk;
use crate::json::{
    array_value, copy_value, json_of, json_text, jsons, members, nests, object_value, parsed,
    value_text, Json, READABLE_DEPTH,
};

verus! {

/// Where an issuer publishes its discovery document.
pub open spec fn discovery_url_of(issuer: Seq<char>) -> Seq<char> {
    issuer + "/.well-known/openid-configuration"@
}

/// Where an issuer publishes its discovery document.
pub fn discovery_url(issuer: &str) -> (r: String)
    ensures
        r@ == discovery_url_of(issuer@),
{
    let mut url = issuer.to_owned();
    url.append("/.well-known/openid-configuration");
    url
}

/// The key set of a single key.
pub open spec fn single_key_set(own_jwk: Json) -> Json {
    Json::Object(map!["keys"@ => Json::Array(seq![own_jwk])])
}

/// The key set of the own key, as it is published for loreserver to read. The
/// document of an RSA signing key reads back as the key set of that key.
pub fn key_set_document(own_jwk: &Value) -> (r: String)
    ensures
        r@ == json_text(single_key_set(json_of(*own_jwk))),
        forall|kid: Seq<char>, n: Seq<char>, e: Seq<char>|
            json_of(*own_jwk) == #[trigger] rsa_jwk(kid, n, e) ==> parsed(encode_utf8(r@)) == Some(
                single_key_set(rsa_jwk(kid, n, e)),
            ),
{
    let mut keys: Vec<Value> = Vec::new();
    keys.push(copy_value(own_jwk));
    assert(jsons(keys@) =~= seq![json_of(*own_jwk)]);
    let mut list: Vec<(String, Value)> = Vec::new();
    list.push(("keys".to_owned(), array_value(keys)));
    proof {
        reveal_with_fuel(members, 2);
        assert forall|kid: Seq<char>, n: Seq<char>, e: Seq<char>|
            json_of(*own_jwk) == #[trigger] rsa_jwk(kid, n, e) implies nests(
            single_key_set(json_of(*own_jwk)),
            READABLE_DEPTH as nat,
        ) by {
            reveal_with_fuel(nests, 4);
        }
    }
    value_text(&object_value(list))
}

}
