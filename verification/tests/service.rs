use kaguya::auth::dexlogin::{DeviceStart, Poll};
use kaguya::auth::keys::Signer;
use kaguya::auth::service::{
    bearer, check_user_permission, create_resource, delete_resource, dex_audiences, display_names,
    grant, lookup_user_permissions, polled_auth_session, random_id, resolve_auth_session,
    start_auth_session, start_auth_session_at, Auth, Code, LoginStep, ResourcePermission, Status,
};
use kaguya::auth::sessions::Sessions;
use kaguya::auth::store::{Role, Store};
use kaguya::auth::verify::{DexVerifier, Identity, IdentityClaims, Lookup, VerifyError};
use kaguya::clock::now_secs;
use rsa::pkcs8::{EncodePrivateKey, LineEnding};
use rsa::{BigUint, RsaPrivateKey};

const REPO: &str = "urc-0194b726b34e72b0b45550b88a967076";
const OTHER: &str = "urc-0192ae48ccf17060bc1ba9d04f6acb2f";

fn refused<T>() -> Result<T, VerifyError> {
    Err(VerifyError::Invalid("x".to_string()))
}

fn is(s: &Status, code: Code, message: &str) -> bool {
    s.code == code && s.message == message
}

fn ids(list: &[&str]) -> Vec<String> {
    list.iter().map(|s| s.to_string()).collect()
}

fn shown(list: &[ResourcePermission]) -> Vec<(&str, usize)> {
    list.iter().map(|p| (p.resource_id.as_str(), p.permission.len())).collect()
}

fn claims(name: Option<&str>, username: Option<&str>, email: Option<&str>) -> IdentityClaims {
    IdentityClaims {
        sub: "Cisub".to_string(),
        exp: now_secs() + 3600,
        preferred_username: username.map(String::from),
        name: name.map(String::from),
        email: email.map(String::from),
        email_verified: Some(true),
    }
}

#[test]
fn the_bearer_follows_its_scheme() {
    assert_eq!(bearer(Some("Bearer abc")), "abc");
    assert_eq!(bearer(Some("Bearer ")), "");
    assert_eq!(bearer(Some("bearer abc")), "");
    assert_eq!(bearer(Some("Basic abc")), "");
    assert_eq!(bearer(Some("Bearer")), "");
    assert_eq!(bearer(None), "");
}

#[test]
fn names_fall_back() {
    let names = |n, u, e| display_names(&claims(n, u, e));
    let pair = |a: &str, b: &str| (a.to_string(), b.to_string());
    assert_eq!(names(Some("N"), Some("U"), Some("E")), pair("N", "U"));
    assert_eq!(names(Some("N"), None, Some("E")), pair("N", "E"));
    assert_eq!(names(Some("N"), None, None), pair("N", "N"));
    assert_eq!(names(None, Some("U"), Some("E")), pair("U", "U"));
    assert_eq!(names(None, None, Some("E")), pair("E", "E"));
    assert_eq!(names(None, None, None), pair("Cisub", "Cisub"));
}

#[test]
fn an_empty_name_is_no_name() {
    let names = |n, u, e| display_names(&claims(n, u, e));
    let pair = |a: &str, b: &str| (a.to_string(), b.to_string());
    assert_eq!(names(Some(""), Some("user1"), None), pair("user1", "user1"));
    assert_eq!(names(Some(""), Some("U"), Some("E")), pair("U", "U"));
    assert_eq!(names(Some(""), Some(""), Some("E")), pair("E", ""));
    assert_eq!(names(Some(""), None, Some("E")), pair("E", "E"));
    assert_eq!(names(Some(""), Some(""), Some("")), pair("Cisub", ""));
    assert_eq!(names(Some(""), None, None), pair("Cisub", "Cisub"));
}

#[test]
fn a_user_name_is_taken_as_it_is() {
    let names = |n, u, e| display_names(&claims(n, u, e));
    let pair = |a: &str, b: &str| (a.to_string(), b.to_string());
    assert_eq!(names(Some("N"), Some(""), Some("E")), pair("N", ""));
    assert_eq!(names(Some("N"), Some(""), None), pair("N", ""));
    assert_eq!(names(Some("N"), None, Some("")), pair("N", ""));
}

#[test]
fn a_login_with_an_empty_name_still_has_a_name() {
    let auth = auth();
    let id = identity(&auth);
    let c = IdentityClaims {
        sub: "s1".to_string(),
        exp: now_secs() + 3600,
        preferred_username: Some("user1".to_string()),
        name: Some(String::new()),
        email: None,
        email_verified: None,
    };
    let t = auth.issue_login_at(&c, now_secs()).unwrap();
    assert_eq!(t.user_name, "user1");
    let back = own(&id, &t.user_token);
    assert_eq!(back.name.as_deref(), Some("user1"));
    assert_eq!(back.preferred_username.as_deref(), Some("user1"));
}

#[test]
fn ids_are_32_hex_digits() {
    let a = random_id();
    assert_eq!(a.len(), 32);
    assert!(a.chars().all(|c| c.is_ascii_digit() || ('a'..='f').contains(&c)));
    assert!(a != random_id());
}

#[test]
fn a_grant_shows_the_permissions_of_its_role() {
    assert_eq!(grant(REPO.to_string(), Role::Member).permission, vec!["read", "write"]);
    assert_eq!(grant(REPO.to_string(), Role::Owner).permission.len(), 6);
}

#[test]
fn dex_audiences_hold_the_web_client_where_there_is_one() {
    assert_eq!(dex_audiences("a".to_string(), None), vec!["a"]);
    assert_eq!(dex_audiences("a".to_string(), Some(String::new())), vec!["a"]);
    assert_eq!(dex_audiences("a".to_string(), Some("w".to_string())), vec!["a", "w"]);
}

#[test]
fn the_creator_becomes_the_owner() {
    let mut s = Store::open_in_memory();
    assert!(create_resource(&mut s, Ok("alice".to_string()), REPO, "test").is_ok());
    assert_eq!(s.role_for("alice", REPO), Some(Role::Owner));
    assert!(create_resource(&mut s, Ok("mallory".to_string()), REPO, "test").is_ok());
    assert_eq!(s.role_for("mallory", REPO), None);
    let e = create_resource(&mut s, refused(), OTHER, "test").unwrap_err();
    assert!(is(&e, Code::Unauthenticated, "invalid token"));
    assert_eq!(s.resource_rows().len(), 1);
}

#[test]
fn only_an_owner_deletes() {
    let mut s = Store::open_in_memory();
    s.record_owner("alice", REPO, "");
    s.grant("bob", REPO, Role::Member);
    let e = delete_resource(&mut s, Ok("bob".to_string()), REPO).unwrap_err();
    assert!(is(&e, Code::PermissionDenied, "not an owner of this resource"));
    let e = delete_resource(&mut s, Ok("eve".to_string()), REPO).unwrap_err();
    assert!(is(&e, Code::PermissionDenied, "not an owner of this resource"));
    let e = delete_resource(&mut s, refused(), REPO).unwrap_err();
    assert!(is(&e, Code::Unauthenticated, "invalid token"));
    assert_eq!(s.role_for("alice", REPO), Some(Role::Owner));
    assert!(delete_resource(&mut s, Ok("alice".to_string()), REPO).is_ok());
    assert_eq!(s.role_for("bob", REPO), None);
}

#[test]
fn requested_resources_are_allowed_or_denied() {
    let mut s = Store::open_in_memory();
    s.record_owner("alice", REPO, "");
    s.grant("alice", "urc-m", Role::Member);
    let (yes, no) =
        check_user_permission(&s, Ok("alice".to_string()), ids(&["urc-x", REPO, "urc-m", "urc-x"])).unwrap();
    assert_eq!(shown(&yes), vec![(REPO, 6), ("urc-m", 2)]);
    assert_eq!(shown(&no), vec![("urc-x", 0), ("urc-x", 0)]);
    let e = check_user_permission(&s, refused(), ids(&[REPO])).unwrap_err();
    assert!(is(&e, Code::Unauthenticated, "invalid token"));
}

#[test]
fn everything_reachable_is_listed() {
    let mut s = Store::open_in_memory();
    s.record_owner("erin", REPO, "");
    s.grant("group:eng", OTHER, Role::Member);
    s.grant("group:eng", REPO, Role::Member);
    s.add_group_member("eng", "erin");
    s.put_grant_row("erin", "urc-odd", "boss");
    let list = lookup_user_permissions(&s, Ok("erin".to_string())).unwrap();
    let mut got = shown(&list);
    got.sort();
    assert_eq!(got, vec![(OTHER, 2), (REPO, 6), ("urc-odd", 2)]);
    let e = lookup_user_permissions(&s, refused()).unwrap_err();
    assert!(is(&e, Code::Unauthenticated, "invalid token"));
}

fn device(expires_in: u64) -> DeviceStart {
    DeviceStart {
        device_code: "dc".to_string(),
        login_url: "https://login".to_string(),
        token_endpoint: "https://token".to_string(),
        expires_in,
    }
}

fn session() -> Option<(String, String)> {
    Some(("dc".to_string(), "https://token".to_string()))
}

#[test]
fn a_started_login_can_be_polled() {
    let mut s = Sessions::new();
    let reply = start_auth_session(&mut s, Ok(device(300)), "state".to_string()).unwrap();
    assert_eq!(reply.login_url, "https://login");
    assert_eq!(reply.session_code.len(), 32);
    assert_eq!(resolve_auth_session(&mut s, &reply.session_code, "state").ok(), session());
    let e = resolve_auth_session(&mut s, &reply.session_code, "other").unwrap_err();
    assert!(is(&e, Code::NotFound, "unknown or expired login session"));
    let e = start_auth_session(&mut s, Err("down".to_string()), "state".to_string()).unwrap_err();
    assert!(is(&e, Code::Internal, "could not start login"));
}

#[test]
fn a_login_lives_within_limits() {
    for (expires_in, secs) in [(0, 60), (59, 60), (60, 60), (300, 300), (600, 600), (601, 600), (u64::MAX, 600)] {
        let mut s = Sessions::new();
        let reply = start_auth_session_at(&mut s, device(expires_in), "state".to_string(), 0xab, 0);
        assert_eq!(reply.session_code, "000000000000000000000000000000ab");
        let end: u128 = secs * 1_000_000_000;
        assert_eq!(s.resolve_at(&reply.session_code, "state", end - 1), session());
        assert_eq!(s.resolve_at(&reply.session_code, "state", end), None);
    }
}

#[test]
fn a_poll_decides_how_a_login_goes_on() {
    let mut s = Sessions::new();
    let code = start_auth_session(&mut s, Ok(device(300)), "state".to_string()).unwrap().session_code;
    assert!(matches!(
        polled_auth_session(&mut s, &code, Ok(Poll::Pending)),
        LoginStep::Answer(Ok(None))
    ));
    assert!(matches!(
        polled_auth_session(&mut s, &code, Ok(Poll::Token("t".to_string()))),
        LoginStep::Verify(t) if t == "t"
    ));
    assert!(matches!(
        polled_auth_session(&mut s, &code, Err("down".to_string())),
        LoginStep::Answer(Err(e)) if is(&e, Code::Internal, "login poll failed")
    ));
    assert_eq!(s.resolve(&code, "state"), session());
    assert!(matches!(
        polled_auth_session(&mut s, &code, Ok(Poll::Denied("expired_token".to_string()))),
        LoginStep::Answer(Err(e)) if is(&e, Code::PermissionDenied, "login not completed: expired_token")
    ));
    assert_eq!(s.resolve(&code, "state"), None);
}

const P1: &str = "\
    d756ff0d729f898665ad59158a383125e027c884c5dabc4c9d002db4cddbc397\
    9d0c4e833e4562e3ed16b7c1568a663293e5bd54554d7665c014f730e811a88b\
    3912761054e15d4aed90f29be15b408c4ae75a449732bb1f2fb80b1276ff2daf\
    fd49d4148f6b304af606295874661a0460ceed27f92f5f3ca650152a0d474787";
const Q1: &str = "\
    c2fe4aebf38a81b9029c20be0458c4c5c651bdc4c9999bb6766c0eff76b8ae94\
    86f775fc4cf7d07ebd5c2c76ddc33a96201a3b3c71f1cbe4f2e07b5d5afd138f\
    b2d1c446e0343d0621700bfc40ed915db6c1b6a2b3673b6e2f826dda41972437\
    29bdd330baf26aea38906829bfff21af2f1364af9bd2106e3524000a725e01cb";

fn key_pem(p: &str, q: &str) -> String {
    let number = |s: &str| BigUint::parse_bytes(s.as_bytes(), 16).unwrap();
    RsaPrivateKey::from_p_q(number(p), number(q), BigUint::from(65537u32))
        .unwrap()
        .to_pkcs8_pem(LineEnding::LF)
        .unwrap()
        .to_string()
}

fn auth() -> Auth {
    let signer = Signer::from_pkcs8_pem(&key_pem(P1, Q1)).unwrap();
    Auth {
        signer,
        auth_issuer: "https://auth.lore.example.com".to_string(),
        audience: "lore.example.com".to_string(),
    }
}

fn identity(auth: &Auth) -> Identity {
    let dex = DexVerifier::new("https://dex".to_string(), vec!["lore.example.com".to_string()]);
    auth.identity(dex).ok().unwrap()
}

fn own(id: &Identity, token: &str) -> IdentityClaims {
    match id.claims(token) {
        Lookup::Done(Ok(c)) => c,
        _ => panic!("not accepted"),
    }
}

#[test]
fn a_finished_login_gives_a_token_of_the_account() {
    let auth = auth();
    let id = identity(&auth);
    let mut s = Sessions::new();
    let code = start_auth_session(&mut s, Ok(device(300)), "state".to_string()).unwrap().session_code;

    let e = auth.finish_auth_session(&mut s, &code, refused()).unwrap_err();
    assert!(is(&e, Code::Internal, "login token invalid"));
    assert_eq!(s.resolve(&code, "state"), session());

    let c = claims(Some("Name"), None, Some("Me@Example.com"));
    let exp = c.exp;
    let t = auth.finish_auth_session(&mut s, &code, Ok(c)).unwrap();
    assert_eq!(s.resolve(&code, "state"), None);
    assert_eq!(t.user_id, "me@example.com");
    assert_eq!(t.user_name, "Name");
    assert_eq!(t.expires_at, exp as i64);
    let back = own(&id, &t.user_token);
    assert_eq!(back.sub, "me@example.com");
    assert_eq!(back.exp, exp);
    assert_eq!(back.name.as_deref(), Some("Name"));
    assert_eq!(back.preferred_username.as_deref(), Some("Me@Example.com"));
}

#[test]
fn an_external_token_is_exchanged() {
    let auth = auth();
    let e = auth.exchange_external_token_for_user_token("", Ok(claims(None, None, None))).unwrap_err();
    assert!(is(&e, Code::Unauthenticated, "missing external token"));
    let e = auth.exchange_external_token_for_user_token("x", refused()).unwrap_err();
    assert!(is(&e, Code::Unauthenticated, "invalid external token"));
    let t = auth.exchange_external_token_for_user_token("x", Ok(claims(None, Some("U"), None))).unwrap();
    assert_eq!(t.user_id, "Cisub");
    assert_eq!(t.user_name, "U");
    assert_eq!(own(&identity(&auth), &t.user_token).sub, "Cisub");
}

fn payload(token: &str) -> serde_json::Value {
    let mut v = jsonwebtoken::Validation::new(jsonwebtoken::Algorithm::RS256);
    v.insecure_disable_signature_validation();
    v.validate_aud = false;
    let key = jsonwebtoken::DecodingKey::from_secret(&[]);
    jsonwebtoken::decode::<serde_json::Value>(token, &key, &v).unwrap().claims
}

#[test]
fn an_exchanged_token_is_scoped_to_what_the_caller_may_reach() {
    let auth = auth();
    let mut s = Store::open_in_memory();
    s.record_owner("Cisub", REPO, "");
    s.grant("group:eng", "urc-m", Role::Member);
    s.add_group_member("eng", "Cisub");
    s.record_owner("someone", OTHER, "");
    let requested = ids(&[OTHER, REPO, "urc-none", "urc-m"]);

    let e = auth
        .exchange_user_token_for_multiresource_token(&s, "", Ok(claims(None, None, None)), &requested)
        .unwrap_err();
    assert!(is(&e, Code::Unauthenticated, "missing bearer token"));
    let e = auth
        .exchange_user_token_for_multiresource_token(&s, "x", refused(), &requested)
        .unwrap_err();
    assert!(is(&e, Code::Unauthenticated, "invalid identity token"));

    let t = auth
        .exchange_user_token_for_multiresource_token(&s, "x", Ok(claims(None, None, Some("E"))), &requested)
        .unwrap();
    assert_eq!(t.user_id, "Cisub");
    assert_eq!(t.user_name, "E");
    let claims = payload(&t.user_token);
    assert_eq!(claims["iss"], "https://auth.lore.example.com");
    assert_eq!(claims["aud"][0], "lore.example.com");
    let resources = claims["resources"].as_array().unwrap();
    assert_eq!(resources.len(), 2);
    assert_eq!(resources[0]["resource_id"], REPO);
    assert_eq!(resources[0]["permission"][0], "owner");
    assert_eq!(resources[1]["resource_id"], "urc-m");
    assert_eq!(resources[1]["permission"][0], "read");
}

#[test]
fn a_login_carries_through_to_the_exchange() {
    let auth = auth();
    let id = identity(&auth);
    let mut store = Store::open_in_memory();
    store.record_owner("me@example.com", REPO, "");
    let login = auth
        .exchange_external_token_for_user_token("x", Ok(claims(None, None, Some("Me@Example.com"))))
        .unwrap();
    let verified = own(&id, &login.user_token);
    let scoped = auth
        .exchange_user_token_for_multiresource_token(&store, &login.user_token, Ok(verified), &ids(&[REPO]))
        .unwrap();
    assert_eq!(scoped.user_id, "me@example.com");
    assert_eq!(scoped.user_name, login.user_name);
    assert_eq!(scoped.expires_at, login.expires_at);
    assert_eq!(payload(&scoped.user_token)["resources"][0]["resource_id"], REPO);
}

#[test]
fn an_end_beyond_the_signed_range_wraps_around() {
    let auth = auth();
    let mut c = claims(None, None, None);
    c.exp = u64::MAX;
    let t = auth.exchange_external_token_for_user_token("x", Ok(c)).unwrap();
    assert_eq!(t.expires_at, -1);
    assert_eq!(own(&identity(&auth), &t.user_token).exp, u64::MAX);
}

#[test]
fn calls_that_are_not_offered() {
    assert!(is(&Status::unimplemented("verify_user"), Code::Unimplemented, "verify_user"));
}

#[test]
fn a_deleted_resource_leaves_the_scope() {
    let auth = auth();
    let mut s = Store::open_in_memory();
    assert!(create_resource(&mut s, Ok("Cisub".to_string()), REPO, "").is_ok());
    let scope = |s: &Store| {
        let t = auth
            .exchange_user_token_for_multiresource_token(s, "x", Ok(claims(None, None, None)), &ids(&[REPO]))
            .unwrap();
        payload(&t.user_token)["resources"].as_array().unwrap().len()
    };
    assert_eq!(scope(&s), 1);
    assert!(delete_resource(&mut s, Ok("Cisub".to_string()), REPO).is_ok());
    assert_eq!(scope(&s), 0);
}
