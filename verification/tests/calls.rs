use jsonwebtoken::{encode, Algorithm, EncodingKey, Header};
use kaguya::auth::calls::{
    call_check_user_permission, call_create_resource, call_delete_resource,
    call_exchange_external_token, call_exchange_user_token, call_finish_auth_session,
    call_lookup_user_permissions, Turn,
};
use kaguya::auth::dexlogin::DeviceStart;
use kaguya::auth::keys::Signer;
use kaguya::auth::service::{start_auth_session, Auth, Code};
use kaguya::auth::sessions::Sessions;
use kaguya::auth::store::{Role, Store};
use kaguya::auth::verify::{DexVerifier, Identity};
use kaguya::clock::now_secs;
use rsa::pkcs8::{EncodePrivateKey, LineEnding};
use rsa::{BigUint, RsaPrivateKey};
use serde_json::Value;

const ISS: &str = "https://dex.example.com/dex";
const AUD: &str = "lore.example.com";
const KID: &str = "dex-key";
const REPO: &str = "urc-0194b726b34e72b0b45550b88a967076";
const P1: &str = "\
    d756ff0d729f898665ad59158a383125e027c884c5dabc4c9d002db4cddbc397\
    9d0c4e833e4562e3ed16b7c1568a663293e5bd54554d7665c014f730e811a88b\
    3912761054e15d4aed90f29be15b408c4ae75a449732bb1f2fb80b1276ff2daf\
    fd49d4148f6b304af606295874661a0460ceed27f92f5f3ca650152a0d474787";
const Q1: &str = "\
    c2fe4aebf38a81b9029c20be0458c4c5c651bdc4c9999bb6766c0eff76b8ae94\
    86f775fc4cf7d07ebd5c2c76ddc33a96201a3b3c71f1cbe4f2e07b5d5afd138f\
    b2d1c446e0343d0621700bfc40ed915db6c1b6a2b3673b6e2f826dda41972437\
    29bdd330baf26aea38906829bfff21af2f1364af9bd2106e3524000a725e01cb";
const P2: &str = "\
    fd176cd145b7fed54a91c9ece1f54c6804c24d3c120f3132bc13ff30f936e3d4\
    2d6f4a6656560397bd4304bbf1151c8e04a7a728a55b3b0c08c77a8d6069aa34\
    eb86b1ae3909e98cace42846c092fa52b8747828064628a7fe84304c6300fe0c\
    05f9c6f925ca5a8d8e43af72b60e8710d8e57cb2ac1201d040523cf20ef9e597";
const Q2: &str = "\
    f27a479623ed13814548a2d527eef4bd131a9fafb0fc9014268e5f00b8b4db3b\
    3192a4edc071da5d06b26ff6af9399f2c925e2d79ba56dd26320bb8f4239202a\
    c0c22aa3f42bbc463da09429c23bb38b5194179f0bc4b03af2e5414d25fd2101\
    edf114c541dc466c8349486067e731748404f52ca172d8920333897cbceedfcb";

fn key_pem(p: &str, q: &str) -> String {
    let number = |s: &str| BigUint::parse_bytes(s.as_bytes(), 16).unwrap();
    RsaPrivateKey::from_p_q(number(p), number(q), BigUint::from(65537u32))
        .unwrap()
        .to_pkcs8_pem(LineEnding::LF)
        .unwrap()
        .to_string()
}

fn value(text: &str) -> Value {
    serde_json::from_str(text).unwrap()
}

struct World {
    auth: Auth,
    id: Identity,
    store: Store,
    dex_pem: String,
}

fn world() -> World {
    let auth = Auth {
        signer: Signer::from_pkcs8_pem(&key_pem(P1, Q1)).unwrap(),
        auth_issuer: "https://auth.lore.example.com".to_string(),
        audience: AUD.to_string(),
    };
    let dex = DexVerifier::new(ISS.to_string(), vec![AUD.to_string()]);
    let id = auth.identity(dex).ok().unwrap();
    World { auth, id, store: Store::open_in_memory(), dex_pem: key_pem(P2, Q2) }
}

impl World {
    fn dex_token(&self, sub: &str, exp: u64) -> String {
        let mut header = Header::new(Algorithm::RS256);
        header.kid = Some(KID.to_string());
        let claims = value(&format!(
            "{{\"iss\": \"{ISS}\", \"aud\": \"{AUD}\", \"sub\": \"{sub}\", \"exp\": {exp}, \"email\": \"{sub}@X.com\", \"email_verified\": true}}"
        ));
        encode(&header, &claims, &EncodingKey::from_rsa_pem(self.dex_pem.as_bytes()).unwrap()).unwrap()
    }

    fn keys(&self) -> Option<Result<Value, String>> {
        let signer = Signer::from_pkcs8_pem(&self.dex_pem).unwrap();
        let (n, e) = (&signer.own_jwk()["n"], &signer.own_jwk()["e"]);
        Some(Ok(value(&format!(
            "{{\"keys\": [{{\"kty\": \"RSA\", \"alg\": \"RS256\", \"kid\": \"{KID}\", \"n\": {n}, \"e\": {e}}}]}}"
        ))))
    }

    fn own_header(&self, sub: &str) -> String {
        let token = self
            .auth
            .signer
            .mint("https://auth.lore.example.com", AUD, sub, sub, sub, now_secs() + 60, vec![])
            .unwrap();
        format!("Bearer {token}")
    }
}

fn answer<T>(t: Turn<T>) -> T {
    match t {
        Turn::Answer(a) => a,
        Turn::Fetch => panic!("asked for a fetch"),
    }
}

#[test]
fn calls_with_an_own_token_are_answered_at_once() {
    let mut w = world();
    let alice = w.own_header("alice");
    let bob = w.own_header("bob");
    assert!(answer(call_create_resource(&mut w.store, &mut w.id, Some(&alice), REPO, "n", None, now_secs())).is_ok());
    assert_eq!(w.store.role_for("alice", REPO), Some(Role::Owner));

    let (yes, no) = answer(call_check_user_permission(
        &w.store,
        &mut w.id,
        Some(&alice),
        vec![REPO.to_string(), "urc-x".to_string()],
        None,
        now_secs(),
    ))
    .unwrap();
    assert_eq!(yes[0].resource_id, REPO);
    assert_eq!(no[0].resource_id, "urc-x");
    let list = answer(call_lookup_user_permissions(&w.store, &mut w.id, Some(&alice), None, now_secs())).unwrap();
    assert_eq!(list.len(), 1);

    let e = answer(call_delete_resource(&mut w.store, &mut w.id, Some(&bob), REPO, None, now_secs())).unwrap_err();
    assert_eq!(e.code, Code::PermissionDenied);
    assert!(answer(call_delete_resource(&mut w.store, &mut w.id, Some(&alice), REPO, None, now_secs())).is_ok());
    assert_eq!(w.store.role_for("alice", REPO), None);
}

#[test]
fn calls_without_a_bearer_are_turned_away() {
    let mut w = world();
    for header in [None, Some("Basic x"), Some("Bearer x")] {
        let e = answer(call_create_resource(&mut w.store, &mut w.id, header, REPO, "n", None, now_secs())).unwrap_err();
        assert_eq!((e.code, e.message.as_str()), (Code::Unauthenticated, "invalid token"));
        let e = answer(call_lookup_user_permissions(&w.store, &mut w.id, header, None, now_secs())).unwrap_err();
        assert_eq!((e.code, e.message.as_str()), (Code::Unauthenticated, "invalid token"));
    }
    let e = answer(call_exchange_user_token(&w.auth, &w.store, &mut w.id, None, &vec![], None, now_secs())).unwrap_err();
    assert_eq!((e.code, e.message.as_str()), (Code::Unauthenticated, "missing bearer token"));
    let e = answer(call_exchange_external_token(&w.auth, &mut w.id, "", None, now_secs())).unwrap_err();
    assert_eq!((e.code, e.message.as_str()), (Code::Unauthenticated, "missing external token"));
    assert!(w.store.resource_rows().is_empty());
}

#[test]
fn a_call_without_a_token_looks_nothing_up() {
    let mut w = world();
    let keys = w.keys();
    let e = answer(call_exchange_external_token(&w.auth, &mut w.id, "", keys, now_secs())).unwrap_err();
    assert_eq!((e.code, e.message.as_str()), (Code::Unauthenticated, "missing external token"));
    let keys = w.keys();
    let e = answer(call_exchange_user_token(&w.auth, &w.store, &mut w.id, None, &vec![], keys, now_secs()))
        .unwrap_err();
    assert_eq!((e.code, e.message.as_str()), (Code::Unauthenticated, "missing bearer token"));
    let token = w.dex_token("alice", now_secs() + 60);
    assert!(matches!(
        call_exchange_external_token(&w.auth, &mut w.id, &token, None, now_secs()),
        Turn::Fetch
    ));
}

#[test]
fn a_login_token_counts_until_it_expires() {
    let mut w = world();
    let dex_token = w.dex_token("Alice", 1000);
    let keys = w.keys();
    let login =
        answer(call_exchange_external_token(&w.auth, &mut w.id, &dex_token, keys, 1000)).unwrap();
    assert_eq!(login.expires_at, 1000);
    let e = answer(call_exchange_external_token(&w.auth, &mut w.id, &dex_token, None, 1001)).unwrap_err();
    assert_eq!((e.code, e.message.as_str()), (Code::Unauthenticated, "invalid external token"));

    let header = format!("Bearer {}", login.user_token);
    let list = call_lookup_user_permissions(&w.store, &mut w.id, Some(&header), None, 1000);
    assert!(answer(list).unwrap().is_empty());
    assert!(matches!(
        call_lookup_user_permissions(&w.store, &mut w.id, Some(&header), None, 1001),
        Turn::Fetch
    ));
}

#[test]
fn a_dex_token_asks_for_one_fetch() {
    let mut w = world();
    let header = format!("Bearer {}", w.dex_token("alice", now_secs() + 60));
    assert!(matches!(
        call_create_resource(&mut w.store, &mut w.id, Some(&header), REPO, "n", None, now_secs()),
        Turn::Fetch
    ));
    assert!(w.store.resource_rows().is_empty());
    let keys = w.keys();
    assert!(answer(call_create_resource(&mut w.store, &mut w.id, Some(&header), REPO, "n", keys, now_secs())).is_ok());
    assert_eq!(w.store.role_for("alice", REPO), Some(Role::Owner));
    let t = answer(call_exchange_user_token(
        &w.auth,
        &w.store,
        &mut w.id,
        Some(&header),
        &vec![REPO.to_string()],
        None,
        now_secs(),
    ))
    .unwrap();
    assert_eq!(t.user_id, "alice");
}

#[test]
fn a_fetch_that_failed_turns_the_caller_away() {
    let mut w = world();
    let header = format!("Bearer {}", w.dex_token("alice", now_secs() + 60));
    let down = Some(Err("down".to_string()));
    let e = answer(call_lookup_user_permissions(&w.store, &mut w.id, Some(&header), down, now_secs())).unwrap_err();
    assert_eq!((e.code, e.message.as_str()), (Code::Unauthenticated, "invalid token"));
}

#[test]
fn a_login_is_answered_with_a_token_that_comes_back_as_a_bearer() {
    let mut w = world();
    let mut sessions = Sessions::new();
    let start = DeviceStart {
        device_code: "dc".to_string(),
        login_url: "https://login".to_string(),
        token_endpoint: "https://token".to_string(),
        expires_in: 300,
    };
    let code = start_auth_session(&mut sessions, Ok(start), "state".to_string()).unwrap().session_code;
    let dex_token = w.dex_token("Alice", now_secs() + 60);
    assert!(matches!(
        call_finish_auth_session(&w.auth, &mut sessions, &mut w.id, &code, &dex_token, None, now_secs()),
        Turn::Fetch
    ));
    assert!(sessions.resolve(&code, "state").is_some());
    let keys = w.keys();
    let login =
        answer(call_finish_auth_session(&w.auth, &mut sessions, &mut w.id, &code, &dex_token, keys, now_secs())).unwrap();
    assert!(sessions.resolve(&code, "state").is_none());
    assert_eq!(login.user_id, "alice@x.com");

    w.store.grant("alice@x.com", REPO, Role::Member);
    let header = format!("Bearer {}", login.user_token);
    let list = answer(call_lookup_user_permissions(&w.store, &mut w.id, Some(&header), None, now_secs())).unwrap();
    assert_eq!(list[0].resource_id, REPO);
}

#[test]
fn an_own_token_is_no_external_one() {
    let mut w = world();
    let own = w.own_header("alice");
    let token = own.strip_prefix("Bearer ").unwrap();
    assert!(matches!(call_exchange_external_token(&w.auth, &mut w.id, token, None, now_secs()), Turn::Fetch));
    let keys = w.keys();
    let e = answer(call_exchange_external_token(&w.auth, &mut w.id, token, keys, now_secs())).unwrap_err();
    assert_eq!((e.code, e.message.as_str()), (Code::Unauthenticated, "invalid external token"));
}
