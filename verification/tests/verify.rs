use base64::engine::general_purpose::URL_SAFE_NO_PAD;
use base64::Engine;
use jsonwebtoken::jwk::JwkSet;
use jsonwebtoken::{encode, Algorithm, EncodingKey, Header};
use kaguya::auth::keys::{build_jwk, Signer};
use kaguya::auth::payload::{read_members, read_payload};
use kaguya::auth::verify::{
    identity_from, read_identity, read_token_identity, subject_of, verify_with_jwks,
    verify_with_jwks_at, DexVerifier, Identity, IdentityClaims, Lookup, SelfVerifier, VerifyError,
};
use kaguya::clock::now_secs;
use rsa::pkcs8::{EncodePrivateKey, LineEnding};
use rsa::{BigUint, RsaPrivateKey};
use serde_json::Value;

const ISS: &str = "https://dex.example.com/dex";
const AUD: &str = "lore.example.com";
const KID: &str = "test-key";
const P1: &str = "\
    d756ff0d729f898665ad59158a383125e027c884c5dabc4c9d002db4cddbc397\
    9d0c4e833e4562e3ed16b7c1568a663293e5bd54554d7665c014f730e811a88b\
    3912761054e15d4aed90f29be15b408c4ae75a449732bb1f2fb80b1276ff2daf\
    fd49d4148f6b304af606295874661a0460ceed27f92f5f3ca650152a0d474787";
const Q1: &str = "\
    c2fe4aebf38a81b9029c20be0458c4c5c651bdc4c9999bb6766c0eff76b8ae94\
    86f775fc4cf7d07ebd5c2c76ddc33a96201a3b3c71f1cbe4f2e07b5d5afd138f\
    b2d1c446e0343d0621700bfc40ed915db6c1b6a2b3673b6e2f826dda41972437\
    29bdd330baf26aea38906829bfff21af2f1364af9bd2106e3524000a725e01cb";
const P2: &str = "\
    fd176cd145b7fed54a91c9ece1f54c6804c24d3c120f3132bc13ff30f936e3d4\
    2d6f4a6656560397bd4304bbf1151c8e04a7a728a55b3b0c08c77a8d6069aa34\
    eb86b1ae3909e98cace42846c092fa52b8747828064628a7fe84304c6300fe0c\
    05f9c6f925ca5a8d8e43af72b60e8710d8e57cb2ac1201d040523cf20ef9e597";
const Q2: &str = "\
    f27a479623ed13814548a2d527eef4bd131a9fafb0fc9014268e5f00b8b4db3b\
    3192a4edc071da5d06b26ff6af9399f2c925e2d79ba56dd26320bb8f4239202a\
    c0c22aa3f42bbc463da09429c23bb38b5194179f0bc4b03af2e5414d25fd2101\
    edf114c541dc466c8349486067e731748404f52ca172d8920333897cbceedfcb";

fn key_pem(p: &str, q: &str) -> String {
    let number = |s: &str| BigUint::parse_bytes(s.as_bytes(), 16).unwrap();
    RsaPrivateKey::from_p_q(number(p), number(q), BigUint::from(65537u32))
        .unwrap()
        .to_pkcs8_pem(LineEnding::LF)
        .unwrap()
        .to_string()
}

fn claims(email: Option<&str>, verified: Option<bool>) -> IdentityClaims {
    IdentityClaims {
        sub: "Cixxxxxxx".to_string(),
        exp: 0,
        preferred_username: None,
        name: None,
        email: email.map(String::from),
        email_verified: verified,
    }
}

#[test]
fn verified_email_is_the_canonical_subject_lowercased() {
    assert_eq!(
        claims(Some("User@Example.com"), Some(true)).canonical_subject(),
        "user@example.com"
    );
}

#[test]
fn unverified_or_missing_email_falls_back_to_the_connector_subject() {
    assert_eq!(
        claims(Some("u@example.com"), Some(false)).canonical_subject(),
        "Cixxxxxxx"
    );
    assert_eq!(claims(Some("u@example.com"), None).canonical_subject(), "Cixxxxxxx");
    assert_eq!(claims(None, Some(true)).canonical_subject(), "Cixxxxxxx");
}

#[test]
fn an_empty_email_is_no_account() {
    assert_eq!(claims(Some(""), Some(true)).canonical_subject(), "Cixxxxxxx");
}

#[test]
fn other_letters_are_lowercased_too() {
    assert_eq!(claims(Some("ÄRA@X.COM"), Some(true)).canonical_subject(), "ära@x.com");
}

struct FakeIdp {
    encoding: EncodingKey,
    document: Value,
    jwks: JwkSet,
}

fn fake_idp() -> FakeIdp {
    idp_with(key_pem(P1, Q1))
}

fn idp_with(pem: String) -> FakeIdp {
    let signer = Signer::from_pkcs8_pem(&pem).unwrap();
    let n = signer.own_jwk()["n"].as_str().unwrap();
    let e = signer.own_jwk()["e"].as_str().unwrap();
    let document = value(&format!(
        "{{\"keys\": [{{\"kty\": \"RSA\", \"use\": \"sig\", \"alg\": \"RS256\", \"kid\": \"{KID}\", \"n\": \"{n}\", \"e\": \"{e}\"}}]}}"
    ));
    let jwks: JwkSet = serde_json::from_value(document.clone()).unwrap();
    FakeIdp {
        encoding: EncodingKey::from_rsa_pem(pem.as_bytes()).unwrap(),
        document,
        jwks,
    }
}

fn value(text: &str) -> Value {
    serde_json::from_str(text).unwrap()
}

fn sign(idp: &FakeIdp, claims: Value) -> String {
    let mut header = Header::new(Algorithm::RS256);
    header.kid = Some(KID.to_string());
    encode(&header, &claims, &idp.encoding).unwrap()
}

fn claim_set(iss: &str, aud: &str, sub: &str, exp: u64) -> Value {
    value(&format!(
        "{{\"iss\": \"{iss}\", \"aud\": \"{aud}\", \"sub\": \"{sub}\", \"exp\": {exp}, \"iat\": {}}}",
        now_secs()
    ))
}

fn valid_claims() -> Value {
    claim_set(ISS, AUD, "abc-123", now_secs() + 3600)
}

#[test]
fn valid_dex_token_is_accepted() {
    let idp = fake_idp();
    let token = sign(&idp, valid_claims());
    let claims = verify_with_jwks(&token, &idp.jwks, ISS, &[AUD.to_string()]).expect("valid token accepted");
    assert_eq!(claims.sub, "abc-123");
}

#[test]
fn tampered_signature_is_rejected() {
    let idp = fake_idp();
    let mut token = sign(&idp, valid_claims());
    let last = token.pop().unwrap();
    token.push(if last == 'A' { 'B' } else { 'A' });
    assert!(matches!(
        verify_with_jwks(&token, &idp.jwks, ISS, &[AUD.to_string()]),
        Err(VerifyError::Invalid(_))
    ));
}

#[test]
fn verify_wrong_audience_is_rejected() {
    let idp = fake_idp();
    let token = sign(&idp, claim_set(ISS, "other", "s", now_secs() + 60));
    assert!(matches!(
        verify_with_jwks(&token, &idp.jwks, ISS, &[AUD.to_string()]),
        Err(VerifyError::Invalid(_))
    ));
}

#[test]
fn wrong_issuer_is_rejected() {
    let idp = fake_idp();
    let token = sign(&idp, claim_set("https://evil.example.com", AUD, "s", now_secs() + 60));
    assert!(matches!(
        verify_with_jwks(&token, &idp.jwks, ISS, &[AUD.to_string()]),
        Err(VerifyError::Invalid(_))
    ));
}

#[test]
fn verify_expired_token_is_rejected() {
    let idp = fake_idp();
    let token = sign(&idp, claim_set(ISS, AUD, "s", now_secs() - 3600));
    assert!(matches!(
        verify_with_jwks(&token, &idp.jwks, ISS, &[AUD.to_string()]),
        Err(VerifyError::Invalid(_))
    ));
}

#[test]
fn unknown_kid_is_reported() {
    let idp = fake_idp();
    let other = idp_with(key_pem(P2, Q2));
    let token = sign(&other, valid_claims());
    assert!(matches!(
        verify_with_jwks(&token, &idp.jwks, ISS, &[AUD.to_string()]),
        Err(VerifyError::Invalid(_))
    ));

    let mut header = Header::new(Algorithm::RS256);
    header.kid = Some("nonexistent".to_string());
    let token = encode(&header, &valid_claims(), &idp.encoding).unwrap();
    assert!(matches!(
        verify_with_jwks(&token, &idp.jwks, ISS, &[AUD.to_string()]),
        Err(VerifyError::UnknownKid(kid)) if kid == "nonexistent"
    ));
}

#[test]
fn a_token_without_a_kid_is_malformed() {
    let idp = fake_idp();
    let token = encode(&Header::new(Algorithm::RS256), &valid_claims(), &idp.encoding).unwrap();
    assert!(matches!(
        verify_with_jwks(&token, &idp.jwks, ISS, &[AUD.to_string()]),
        Err(VerifyError::Malformed(m)) if m == "no kid in header"
    ));
    assert!(matches!(
        verify_with_jwks("garbage", &idp.jwks, ISS, &[AUD.to_string()]),
        Err(VerifyError::Malformed(_))
    ));
}

#[test]
fn a_key_that_cannot_be_used_is_reported() {
    let idp = fake_idp();
    let jwks: JwkSet = serde_json::from_value(value(&format!(
        "{{\"keys\": [{{\"kty\": \"RSA\", \"kid\": \"{KID}\", \"n\": \"?\", \"e\": \"?\"}}]}}"
    )))
    .unwrap();
    match verify_with_jwks(&sign(&idp, valid_claims()), &jwks, ISS, &[AUD.to_string()]) {
        Err(VerifyError::Jwks(m)) => assert!(m.starts_with("bad jwk test-key: "), "{m}"),
        other => panic!("{other:?}"),
    }
}

#[test]
fn any_of_the_audiences_will_do() {
    let idp = fake_idp();
    let audiences = [AUD.to_string(), "web".to_string()];
    let token = sign(&idp, claim_set(ISS, "web", "s", now_secs() + 60));
    assert!(verify_with_jwks(&token, &idp.jwks, ISS, &audiences).is_ok());
}

#[test]
fn a_token_that_never_ends_is_accepted() {
    let idp = fake_idp();
    let token = sign(&idp, claim_set(ISS, AUD, "s", u64::MAX));
    let claims = verify_with_jwks(&token, &idp.jwks, ISS, &[AUD.to_string()]).unwrap();
    assert_eq!(claims.exp, u64::MAX);
}

#[test]
fn a_token_that_names_no_issuer_and_no_audience_is_accepted() {
    let idp = fake_idp();
    let token = sign(&idp, value(&format!("{{\"sub\": \"s\", \"exp\": {}}}", now_secs() + 60)));
    assert_eq!(verify_with_jwks(&token, &idp.jwks, ISS, &[AUD.to_string()]).unwrap().sub, "s");
}

#[test]
fn all_claims_are_read() {
    let c = read_identity(
        b"{\"sub\": \"s\", \"exp\": 7, \"preferred_username\": \"pu\", \"name\": \"n\", \"email\": \"e@x\", \"email_verified\": true, \"more\": [1]}",
    )
    .unwrap();
    assert_eq!(c.sub, "s");
    assert_eq!(c.exp, 7);
    assert_eq!(c.preferred_username.as_deref(), Some("pu"));
    assert_eq!(c.name.as_deref(), Some("n"));
    assert_eq!(c.email.as_deref(), Some("e@x"));
    assert_eq!(c.email_verified, Some(true));
}

#[test]
fn claims_that_are_missing_or_null_are_none() {
    let c = read_identity(b"{\"sub\": \"s\", \"exp\": 7, \"name\": null, \"email_verified\": null}").unwrap();
    assert!(c.preferred_username.is_none());
    assert!(c.name.is_none());
    assert!(c.email.is_none());
    assert!(c.email_verified.is_none());
}

#[test]
fn claims_of_the_wrong_type_hold_no_identity() {
    for text in [
        "{\"exp\": 7}",
        "{\"sub\": \"s\"}",
        "{\"sub\": 1, \"exp\": 7}",
        "{\"sub\": null, \"exp\": 7}",
        "{\"sub\": \"s\", \"exp\": \"7\"}",
        "{\"sub\": \"s\", \"exp\": -7}",
        "{\"sub\": \"s\", \"exp\": 7.5}",
        "{\"sub\": \"s\", \"exp\": 7, \"name\": 1}",
        "{\"sub\": \"s\", \"exp\": 7, \"preferred_username\": []}",
        "{\"sub\": \"s\", \"exp\": 7, \"email\": {}}",
        "{\"sub\": \"s\", \"exp\": 7, \"email_verified\": \"true\"}",
        "[\"s\", 7]",
        "\"s\"",
    ] {
        assert!(read_identity(text.as_bytes()).is_none(), "{text}");
    }
}

#[test]
fn a_claim_that_is_named_twice_holds_no_identity() {
    for again in [
        "\"sub\": \"s\"",
        "\"exp\": 7",
        "\"name\": \"n\"",
        "\"n\\u0061me\": \"n\"",
        "\"preferred_username\": null",
        "\"email\": \"e@x\"",
        "\"email_verified\": true",
    ] {
        let text = format!(
            "{{\"sub\": \"s\", \"exp\": 7, \"name\": null, \"preferred_username\": \"u\", \"email\": \"e@x\", \"email_verified\": true, {again}}}"
        );
        assert!(read_identity(text.as_bytes()).is_none(), "{text}");
    }
    let c = read_identity(b"{\"sub\": \"s\", \"more\": 1, \"exp\": 7, \"more\": 2}").unwrap();
    assert_eq!(c.sub, "s");
}

#[test]
fn other_claims_do_not_matter() {
    let deep = format!("{}{}", "[".repeat(300), "]".repeat(300));
    let text = format!(
        " {{\n\"a\" : 1e999,\t\"b\":{deep}, \"sub\" : \"s\", \"c\": {{\"sub\": \"x\"}}, \"exp\":7\r}} "
    );
    let c = read_identity(text.as_bytes()).unwrap();
    assert_eq!((c.sub.as_str(), c.exp), ("s", 7));
}

#[test]
fn a_payload_that_is_no_object_holds_no_identity() {
    for text in [
        "",
        " ",
        "{",
        "{}",
        "{ } x",
        "{\"sub\": \"s\", \"exp\": 7",
        "{\"sub\": \"s\", \"exp\": 7}}",
        "{\"sub\": \"s\", \"exp\": 7,}",
        "{\"sub\": \"s\" \"exp\": 7}",
        "{\"sub\" \"s\", \"exp\": 7}",
        "{sub: \"s\", \"exp\": 7}",
    ] {
        assert!(read_identity(text.as_bytes()).is_none(), "{text}");
    }
    assert!(read_members(b" { } ").unwrap().is_empty());
    assert!(read_members(b"null").is_none());
}

#[test]
fn the_payload_stands_between_the_last_two_dots() {
    assert_eq!(read_payload("x.aGk.y").unwrap(), b"hi");
    assert_eq!(read_payload("w.x.aGk.y").unwrap(), b"hi");
    assert_eq!(read_payload("x..y").unwrap(), b"");
    assert!(read_payload("aGk.y").is_none());
    assert!(read_payload("").is_none());
    assert!(read_payload("x.aGl.y").is_none());
    assert!(read_payload("x.aGk=.y").is_none());
    assert!(read_payload("x.?.y").is_none());
    assert_eq!(read_token_identity("x.eyJzdWIiOiJzIiwiZXhwIjo3fQ.y").unwrap().sub, "s");
}

fn sign_raw(idp: &FakeIdp, payload: &str) -> String {
    let header = format!("{{\"typ\":\"JWT\",\"alg\":\"RS256\",\"kid\":\"{KID}\"}}");
    let message = format!("{}.{}", URL_SAFE_NO_PAD.encode(header), URL_SAFE_NO_PAD.encode(payload));
    let signature = jsonwebtoken::crypto::sign(message.as_bytes(), &idp.encoding, Algorithm::RS256).unwrap();
    format!("{message}.{signature}")
}

#[test]
fn signed_payloads_are_read_claim_by_claim() {
    let idp = fake_idp();
    let at = |payload: &str| {
        verify_with_jwks_at(&sign_raw(&idp, payload), &idp.jwks, ISS, &[AUD.to_string()], 0)
    };
    let head = format!("\"iss\": \"{ISS}\", \"aud\": \"{AUD}\", \"sub\": \"s\", \"exp\": 7");
    assert_eq!(at(&format!("{{{head}}}")).unwrap().sub, "s");
    assert_eq!(at(&format!("{{{head}, \"nbf\": 100}}")).unwrap().sub, "s");
    assert_eq!(at(&format!("{{{head}, \"more\": 1e999, \"more\": 2}}")).unwrap().sub, "s");
    assert_eq!(at(&format!("{{{head}, \"name\": \"n\"}}")).unwrap().name.as_deref(), Some("n"));
    for more in ["\"name\": \"n\", \"name\": \"n\"", "\"exp\": 7", "\"aud\": \"x\"", "\"email\": 1"] {
        let r = at(&format!("{{{head}, {more}}}"));
        assert!(matches!(r, Err(VerifyError::Invalid(_))), "{more}");
    }
    assert!(matches!(at("[]"), Err(VerifyError::Invalid(_))));
    assert!(matches!(at("{"), Err(VerifyError::Invalid(_))));
}

fn identity(exp: u64) -> Option<IdentityClaims> {
    Some(IdentityClaims { exp, ..claims(None, None) })
}

#[test]
fn the_first_fault_is_the_one_that_is_told() {
    let bad = |m: &str| Err(m.to_string());
    let told = |r: Result<IdentityClaims, VerifyError>| match r {
        Err(VerifyError::Invalid(m)) => m,
        other => panic!("{other:?}"),
    };
    assert_eq!(told(identity_from(bad("A"), None, bad("B"), 8)), "A");
    assert_eq!(
        told(identity_from(Ok(()), None, bad("B"), 8)),
        "claims of the wrong type, or named twice, or no sub or exp"
    );
    assert_eq!(told(identity_from(Ok(()), identity(7), bad("B"), 8)), "ExpiredSignature");
    assert_eq!(told(identity_from(Ok(()), identity(7), bad("B"), 7)), "B");
    assert_eq!(identity_from(Ok(()), identity(7), Ok(()), 7).unwrap().sub, "Cixxxxxxx");
}

#[test]
fn an_expired_token_of_another_issuer_is_told_to_have_expired() {
    let idp = fake_idp();
    let token = sign(&idp, claim_set("https://other", "other", "s", 1000));
    let at = |now| verify_with_jwks_at(&token, &idp.jwks, ISS, &[AUD.to_string()], now);
    assert!(expired(at(1001)));
    assert!(matches!(at(1000), Err(VerifyError::Invalid(m)) if m == "InvalidIssuer"));
    let token = sign(&idp, claim_set(ISS, "other", "s", 1000));
    let r = verify_with_jwks_at(&token, &idp.jwks, ISS, &[AUD.to_string()], 1000);
    assert!(matches!(r, Err(VerifyError::Invalid(m)) if m == "InvalidAudience"));
}

fn expired<T: std::fmt::Debug>(r: Result<T, VerifyError>) -> bool {
    matches!(r, Err(VerifyError::Invalid(m)) if m == "ExpiredSignature")
}

#[test]
fn claims_hold_until_they_expire() {
    assert!(identity_from(Ok(()), identity(7), Ok(()), 6).is_ok());
    assert!(identity_from(Ok(()), identity(7), Ok(()), 7).is_ok());
    assert!(expired(identity_from(Ok(()), identity(7), Ok(()), 8)));
    assert!(expired(identity_from(Ok(()), identity(7), Ok(()), u64::MAX)));
}

#[test]
fn a_dex_token_is_accepted_until_it_expires() {
    let idp = fake_idp();
    let token = sign(&idp, claim_set(ISS, AUD, "s", 1000));
    let audiences = [AUD.to_string()];
    let at = |now| verify_with_jwks_at(&token, &idp.jwks, ISS, &audiences, now);
    assert_eq!(at(0).unwrap().sub, "s");
    assert_eq!(at(1000).unwrap().exp, 1000);
    assert!(expired(at(1001)));
    let mut dex = dex();
    assert!(matches!(dex.verify_at(&token, 1000), Lookup::Fetch));
    assert!(expired(dex.verify_fetched_at(&token, Ok(idp.document.clone()), 1001)));
    assert!(done(dex.verify_at(&token, 1000)).is_ok());
    assert!(expired(done(dex.verify_at(&token, 1001))));
}

#[test]
fn a_token_that_expired_a_moment_ago_is_refused() {
    let idp = fake_idp();
    let token = sign(&idp, claim_set(ISS, AUD, "s", now_secs() - 30));
    assert!(expired(verify_with_jwks(&token, &idp.jwks, ISS, &[AUD.to_string()])));
}

#[test]
fn errors_in_words() {
    assert_eq!(VerifyError::Malformed("m".to_string()).message(), "malformed token: m");
    assert_eq!(VerifyError::UnknownKid("k".to_string()).message(), "no Dex key for kid k");
    assert_eq!(VerifyError::Jwks("j".to_string()).message(), "Dex JWKS unavailable: j");
    assert_eq!(VerifyError::Invalid("i".to_string()).message(), "token rejected: i");
}

fn dex() -> DexVerifier {
    DexVerifier::new(ISS.to_string(), vec![AUD.to_string()])
}

fn done<T>(l: Lookup<T>) -> Result<T, VerifyError> {
    match l {
        Lookup::Done(r) => r,
        Lookup::Fetch => panic!("asked for a fetch"),
    }
}

#[test]
fn a_key_set_is_fetched_once() {
    let idp = fake_idp();
    let token = sign(&idp, valid_claims());
    let mut dex = dex();
    assert!(matches!(dex.verify(&token), Lookup::Fetch));
    assert_eq!(dex.verify_fetched(&token, Ok(idp.document.clone())).unwrap().sub, "abc-123");
    assert_eq!(done(dex.verify(&token)).unwrap().sub, "abc-123");
}

#[test]
fn a_rotated_key_is_fetched() {
    let idp = fake_idp();
    let mut dex = dex();
    let _ = dex.verify_fetched("x", Ok(value("{\"keys\": []}")));
    let token = sign(&idp, valid_claims());
    assert!(matches!(dex.verify(&token), Lookup::Fetch));
    assert!(dex.verify_fetched(&token, Ok(idp.document.clone())).is_ok());
    assert!(done(dex.verify(&token)).is_ok());
}

#[test]
fn a_malformed_token_asks_for_no_fetch() {
    assert!(matches!(dex().verify(""), Lookup::Done(Err(VerifyError::Malformed(_)))));
    assert!(matches!(dex().verify("a.b.c"), Lookup::Done(Err(VerifyError::Malformed(_)))));
}

#[test]
fn a_fetch_that_failed_is_reported_and_keeps_the_key_set() {
    let idp = fake_idp();
    let token = sign(&idp, valid_claims());
    let mut dex = dex();
    assert!(dex.verify_fetched(&token, Ok(idp.document.clone())).is_ok());
    assert!(matches!(
        dex.verify_fetched(&token, Err("discovery: down".to_string())),
        Err(VerifyError::Jwks(m)) if m == "discovery: down"
    ));
    match dex.verify_fetched(&token, Ok(value("[]"))) {
        Err(VerifyError::Jwks(m)) => assert!(m.starts_with("jwks parse: "), "{m}"),
        other => panic!("{other:?}"),
    }
    assert!(done(dex.verify(&token)).is_ok());
}

#[test]
fn the_key_set_is_kept_even_where_the_token_is_refused() {
    let idp = fake_idp();
    let mut dex = dex();
    let expired = sign(&idp, claim_set(ISS, AUD, "s", now_secs() - 3600));
    assert!(dex.verify_fetched(&expired, Ok(idp.document.clone())).is_err());
    assert!(done(dex.verify(&sign(&idp, valid_claims()))).is_ok());
}

#[test]
fn the_discovery_document_of_dex() {
    assert_eq!(
        dex().discovery_url(),
        "https://dex.example.com/dex/.well-known/openid-configuration"
    );
}

#[test]
fn own_tokens_come_before_dex() {
    let signer = Signer::from_pkcs8_pem(&key_pem(P2, Q2)).unwrap();
    let own = SelfVerifier::new(signer.own_jwk(), "https://auth".to_string(), AUD.to_string()).unwrap();
    let id = Identity { self_verifier: own, dex: dex() };
    let token = signer
        .mint("https://auth", AUD, "me", "Me", "me1", now_secs() + 60, vec![])
        .unwrap();
    let claims = done(id.claims(&token)).unwrap();
    assert_eq!(claims.sub, "me");
    assert_eq!(claims.name.as_deref(), Some("Me"));
    assert_eq!(claims.preferred_username.as_deref(), Some("me1"));
    assert_eq!(done(id.subject(&token)).unwrap(), "me");

    let idp = fake_idp();
    let dex_token = sign(&idp, valid_claims());
    assert!(matches!(id.claims(&dex_token), Lookup::Fetch));
    assert!(matches!(id.subject(&dex_token), Lookup::Fetch));
    assert!(matches!(id.subject(""), Lookup::Done(Err(VerifyError::Malformed(_)))));
}

#[test]
fn own_tokens_for_another_issuer_or_audience_or_time_are_not_ours() {
    let signer = Signer::from_pkcs8_pem(&key_pem(P2, Q2)).unwrap();
    let own = SelfVerifier::new(signer.own_jwk(), "https://auth".to_string(), AUD.to_string()).unwrap();
    let exp = now_secs() + 60;
    assert!(own.claims(&signer.mint("https://auth", AUD, "me", "M", "m", exp, vec![]).unwrap()).is_some());
    assert!(own.claims(&signer.mint("https://other", AUD, "me", "M", "m", exp, vec![]).unwrap()).is_none());
    assert!(own.claims(&signer.mint("https://auth", "x", "me", "M", "m", exp, vec![]).unwrap()).is_none());
    assert!(own.claims(&signer.mint("https://auth", AUD, "me", "M", "m", 1000, vec![]).unwrap()).is_none());
    assert!(own.claims("").is_none());
    let other = Signer::from_pkcs8_pem(&key_pem(P1, Q1)).unwrap();
    assert!(own.claims(&other.mint("https://auth", AUD, "me", "M", "m", exp, vec![]).unwrap()).is_none());
}

#[test]
fn an_own_token_is_read_back_until_it_expires() {
    let signer = Signer::from_pkcs8_pem(&key_pem(P2, Q2)).unwrap();
    let own = SelfVerifier::new(signer.own_jwk(), "https://auth".to_string(), AUD.to_string()).unwrap();
    let token = signer.mint_at("https://auth", AUD, "me", "Me", "me1", 1000, vec![], 900).unwrap();
    let c = own.claims_at(&token, 1000).unwrap();
    assert_eq!((c.sub.as_str(), c.exp), ("me", 1000));
    assert_eq!(c.name.as_deref(), Some("Me"));
    assert_eq!(c.preferred_username.as_deref(), Some("me1"));
    assert!(c.email.is_none());
    assert!(own.claims_at(&token, 1001).is_none());
    let recent = signer.mint("https://auth", AUD, "me", "M", "m", now_secs() - 30, vec![]).unwrap();
    assert!(own.claims(&recent).is_none());

    let id = Identity { self_verifier: own, dex: dex() };
    assert_eq!(done(id.claims_at(&token, 1000)).unwrap().sub, "me");
    assert!(matches!(id.claims_at(&token, 1001), Lookup::Fetch));
}

#[test]
fn dex_is_asked_only_where_the_own_key_gave_nothing() {
    let idp = fake_idp();
    let signer = Signer::from_pkcs8_pem(&key_pem(P2, Q2)).unwrap();
    let own = SelfVerifier::new(signer.own_jwk(), "https://auth".to_string(), AUD.to_string()).unwrap();
    let mut id = Identity { self_verifier: own, dex: dex() };
    let token = sign(&idp, claim_set(ISS, AUD, "s", 1000));
    let found = done(id.claims_from(Some(claims(None, None)), &token, 0)).unwrap();
    assert_eq!(found.sub, "Cixxxxxxx");
    assert!(matches!(id.claims_from(None, &token, 0), Lookup::Fetch));
    assert!(id.dex.verify_fetched_at(&token, Ok(idp.document.clone()), 0).is_ok());
    assert_eq!(done(id.claims_from(None, &token, 1000)).unwrap().sub, "s");
    assert!(expired(done(id.claims_from(None, &token, 1001))));
}

#[test]
fn a_published_key_that_cannot_be_used_is_refused() {
    match SelfVerifier::new(&value("{}"), "i".to_string(), "a".to_string()) {
        Err(VerifyError::Jwks(m)) => assert!(m.starts_with("own jwk: "), "{m}"),
        _ => panic!("accepted"),
    }
    match SelfVerifier::new(&build_jwk("k", "?", "?"), "i".to_string(), "a".to_string()) {
        Err(VerifyError::Jwks(m)) => assert!(m.starts_with("own jwk key: "), "{m}"),
        _ => panic!("accepted"),
    }
}

#[test]
fn the_subject_of_an_outcome() {
    assert_eq!(subject_of(Ok(claims(None, None))).unwrap(), "Cixxxxxxx");
    assert!(matches!(
        subject_of(Err(VerifyError::Invalid("x".to_string()))),
        Err(VerifyError::Invalid(m)) if m == "x"
    ));
}
