use jsonwebtoken::jwk::{Jwk, JwkSet};
use jsonwebtoken::{decode, Algorithm, DecodingKey, Validation};
use kaguya::auth::jwks::key_set_document;
use kaguya::auth::keys::{build_jwk, thumbprint, ResourceGrant, Signer};
use kaguya::clock::now_secs;
use rsa::pkcs8::{EncodePrivateKey, LineEnding};
use rsa::{BigUint, RsaPrivateKey};
use serde_json::Value;

const ISS: &str = "https://auth.lore.example.com";
const AUD: &str = "lore.example.com";

const P1: &str = "\
    d756ff0d729f898665ad59158a383125e027c884c5dabc4c9d002db4cddbc397\
    9d0c4e833e4562e3ed16b7c1568a663293e5bd54554d7665c014f730e811a88b\
    3912761054e15d4aed90f29be15b408c4ae75a449732bb1f2fb80b1276ff2daf\
    fd49d4148f6b304af606295874661a0460ceed27f92f5f3ca650152a0d474787";
const Q1: &str = "\
    c2fe4aebf38a81b9029c20be0458c4c5c651bdc4c9999bb6766c0eff76b8ae94\
    86f775fc4cf7d07ebd5c2c76ddc33a96201a3b3c71f1cbe4f2e07b5d5afd138f\
    b2d1c446e0343d0621700bfc40ed915db6c1b6a2b3673b6e2f826dda41972437\
    29bdd330baf26aea38906829bfff21af2f1364af9bd2106e3524000a725e01cb";
const P2: &str = "\
    fd176cd145b7fed54a91c9ece1f54c6804c24d3c120f3132bc13ff30f936e3d4\
    2d6f4a6656560397bd4304bbf1151c8e04a7a728a55b3b0c08c77a8d6069aa34\
    eb86b1ae3909e98cace42846c092fa52b8747828064628a7fe84304c6300fe0c\
    05f9c6f925ca5a8d8e43af72b60e8710d8e57cb2ac1201d040523cf20ef9e597";
const Q2: &str = "\
    f27a479623ed13814548a2d527eef4bd131a9fafb0fc9014268e5f00b8b4db3b\
    3192a4edc071da5d06b26ff6af9399f2c925e2d79ba56dd26320bb8f4239202a\
    c0c22aa3f42bbc463da09429c23bb38b5194179f0bc4b03af2e5414d25fd2101\
    edf114c541dc466c8349486067e731748404f52ca172d8920333897cbceedfcb";

fn key_pem(p: &str, q: &str) -> String {
    let number = |s: &str| BigUint::parse_bytes(s.as_bytes(), 16).unwrap();
    RsaPrivateKey::from_p_q(number(p), number(q), BigUint::from(65537u32))
        .unwrap()
        .to_pkcs8_pem(LineEnding::LF)
        .unwrap()
        .to_string()
}

fn signer() -> Signer {
    Signer::from_pkcs8_pem(&key_pem(P1, Q1)).expect("read signer")
}

fn grants(ids: &[&str]) -> Vec<ResourceGrant> {
    ids.iter()
        .map(|id| ResourceGrant {
            resource_id: id.to_string(),
            permission: vec!["read".to_string(), "write".to_string()],
        })
        .collect()
}

fn decoding_key(signer: &Signer) -> DecodingKey {
    let jwk: Jwk = serde_json::from_value(signer.own_jwk().clone()).expect("own jwk parses");
    DecodingKey::from_jwk(&jwk).expect("decoding key from jwk")
}

fn validation() -> Validation {
    let mut v = Validation::new(Algorithm::RS256);
    v.set_audience(&[AUD]);
    v.set_issuer(&[ISS]);
    v.validate_exp = true;
    v
}

#[test]
fn minted_token_verifies_against_published_jwk() {
    let signer = signer();
    let exp = now_secs() + 3600;

    let token = signer
        .mint(ISS, AUD, "user-1", "User One", "user1", exp, grants(&["urc-abc", "urc-def"]))
        .unwrap();
    let data = decode::<Value>(&token, &decoding_key(&signer), &validation())
        .expect("minted token must verify against its own JWK");

    assert_eq!(data.claims["iss"], ISS);
    assert_eq!(data.claims["aud"].as_array().unwrap(), &vec![Value::from(AUD)]);
    assert_eq!(data.claims["sub"], "user-1");
    assert_eq!(data.claims["exp"], exp);
    assert_eq!(data.claims["name"], "User One");
    assert_eq!(data.claims["preferred_username"], "user1");
    assert_eq!(data.claims["is_service_account"], false);
    assert!(data.claims["iat"].as_u64().unwrap() <= now_secs());
    let resources = data.claims["resources"].as_array().unwrap();
    let ids: Vec<&str> = resources.iter().map(|r| r["resource_id"].as_str().unwrap()).collect();
    assert_eq!(ids, vec!["urc-abc", "urc-def"]);
    assert!(resources
        .iter()
        .all(|r| r["permission"].as_array().unwrap() == &vec![Value::from("read"), Value::from("write")]));
    assert_eq!(data.header.kid, Some(signer.kid.clone()));
}

#[test]
fn minted_token_authorizes_the_requested_repository() {
    let signer = signer();
    let repo = "urc-0194b726b34e72b0b45550b88a967076";
    let token = signer
        .mint(ISS, AUD, "u", "U", "u", now_secs() + 60, grants(&[repo]))
        .unwrap();
    let data = decode::<Value>(&token, &decoding_key(&signer), &validation()).unwrap();
    assert!(data.claims["resources"]
        .as_array()
        .unwrap()
        .iter()
        .any(|r| r["resource_id"] == repo));
}

#[test]
fn keys_wrong_audience_is_rejected() {
    let signer = signer();
    let token = signer
        .mint(ISS, "someone-else", "u", "U", "u", now_secs() + 60, grants(&["urc-x"]))
        .unwrap();
    decode::<Value>(&token, &decoding_key(&signer), &validation())
        .expect_err("a token minted for another audience must not verify");
}

#[test]
fn keys_expired_token_is_rejected() {
    let signer = signer();
    let token = signer
        .mint(ISS, AUD, "u", "U", "u", now_secs() - 3600, grants(&["urc-x"]))
        .unwrap();
    decode::<Value>(&token, &decoding_key(&signer), &validation())
        .expect_err("an expired token must not verify");
}

// Making a key takes a time that varies widely, so several are made side by side
// and the first one is taken.
fn generated() -> (Signer, Option<String>) {
    let runtime = tokio::runtime::Builder::new_multi_thread().worker_threads(1).build().unwrap();
    let (sender, receiver) = std::sync::mpsc::channel();
    for _ in 0..4 {
        let sender = sender.clone();
        runtime.spawn_blocking(move || sender.send(Signer::load_or_generate(None)).is_ok());
    }
    let made = receiver.recv_timeout(std::time::Duration::from_secs(18));
    runtime.shutdown_background();
    made.expect("a key in time").expect("generate signer")
}

#[test]
fn kid_is_stable_across_reload() {
    let (first, written) = generated();
    let stored = written.expect("a key to store");
    let (second, again) = Signer::load_or_generate(Some(stored.clone())).unwrap();
    assert!(again.is_none());
    assert_eq!(first.kid, second.kid);
    assert_eq!(first.own_jwk(), second.own_jwk());
    assert_eq!(first.own_jwk()["n"].as_str().unwrap().len(), 342);
    let token = first.mint(ISS, AUD, "u", "U", "u", now_secs() + 60, grants(&[])).unwrap();
    assert!(decode::<Value>(&token, &decoding_key(&second), &validation()).is_ok());
}

#[test]
fn a_stored_key_is_loaded_and_not_written_again() {
    let stored = key_pem(P1, Q1);
    let (first, written) = Signer::load_or_generate(Some(stored.clone())).unwrap();
    let (second, again) = Signer::load_or_generate(Some(stored)).unwrap();
    assert!(written.is_none());
    assert!(again.is_none());
    assert_eq!(first.kid, signer().kid);
    assert_eq!(first.own_jwk(), second.own_jwk());
    let mint = |s: &Signer| s.mint_at(ISS, AUD, "u", "U", "u", 1000, grants(&["urc-x"]), 900).unwrap();
    assert_eq!(mint(&first), mint(&second));
}

#[test]
fn the_key_that_signs_is_the_key_that_is_published() {
    let text = format!("# {}{}", key_pem(P1, Q1), key_pem(P2, Q2));
    let mixed = Signer::from_pkcs8_pem(&text).unwrap();
    let second = Signer::from_pkcs8_pem(&key_pem(P2, Q2)).unwrap();
    assert_eq!(mixed.own_jwk(), second.own_jwk());
    let token = mixed.mint(ISS, AUD, "u", "U", "u", now_secs() + 60, grants(&[])).unwrap();
    assert!(decode::<Value>(&token, &decoding_key(&mixed), &validation()).is_ok());
    assert!(decode::<Value>(&token, &decoding_key(&signer()), &validation()).is_err());
}

#[test]
fn a_text_that_is_no_key_is_refused() {
    assert!(Signer::from_pkcs8_pem("not a key").is_err());
    assert!(Signer::load_or_generate(Some("not a key".to_string())).is_err());
}

#[test]
fn publishes_our_key_as_a_parseable_jwks() {
    let own = build_jwk("ours", "AQAB", "AQAB");
    let written = key_set_document(&own);
    let set: JwkSet = serde_json::from_str(&written).expect("published file parses as JwkSet");
    assert_eq!(set.keys.len(), 1);
    assert!(set.find("ours").is_some());
}

#[test]
fn the_published_key_set_is_written_out() {
    assert_eq!(
        key_set_document(&build_jwk("ours", "AQAB", "AQAB")),
        "{\"keys\":[{\"alg\":\"RS256\",\"e\":\"AQAB\",\"kid\":\"ours\",\"kty\":\"RSA\",\"n\":\"AQAB\",\"use\":\"sig\"}]}"
    );
}

#[test]
fn the_thumbprint_of_a_known_key() {
    let n = "0vx7agoebGcQSuuPiLJXZptN9nndrQmbXEps2aiAFbWhM78LhWx4cbbfAAtVT86zwu1RK7aPFFxuhDR1L6tSoc_BJECPebWKRXjBZCiFV4n3oknjhMstn64tZ_2W-5JsGY4Hc5n9yBXArwl93lqt7_RN5w6Cf0h4QyQ5v-65YGjQR0_FDW2QvzqY368QQMicAtaSqzs8KJZgnYb9c7d0zgdAZHzu6qMQvRL5hajrn1n91CbOpbISD08qNLyrdkt-bFTWhAI4vMQFh6WeZu0fM4lFd2NcRwr3XPksINHaQ-G_xBniIqbw0Ls1jF44-csFCur-kEgU8awapJzKnqDKgw";
    assert_eq!(thumbprint(n, "AQAB"), "NzbLsXh8uDCcd-6MNwXF4W_7noWXFZAfHkxZsRGC9Xs");
}

#[test]
fn the_key_id_is_the_thumbprint_of_the_published_key() {
    let signer = signer();
    let jwk = signer.own_jwk();
    assert_eq!(signer.kid, thumbprint(jwk["n"].as_str().unwrap(), jwk["e"].as_str().unwrap()));
    assert_eq!(jwk["kid"], signer.kid);
    assert_eq!(jwk["kty"], "RSA");
    assert_eq!(jwk["use"], "sig");
    assert_eq!(jwk["alg"], "RS256");
}

#[test]
fn different_keys_have_different_ids() {
    let other = Signer::from_pkcs8_pem(&key_pem(P2, Q2)).unwrap();
    assert!(signer().kid != other.kid);
    assert!(signer().own_jwk() != other.own_jwk());
}
