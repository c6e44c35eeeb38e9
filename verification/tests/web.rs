use kaguya::auth::service::UserToken;
use kaguya::web::authsvc::{bearer, external_request, issued, scoped, AuthClient, Issued};
use kaguya::web::lore::{add_repo, from_hex, hex, repo_scope, LoreClient, RepoSummary, Repository};
use kaguya::web::oidc::{code_challenge, code_verifier, random_state, verifier_from, Oidc};
use kaguya::web::pages::{
    begin_login, begin_login_with, clear_cookie, finish_callback, logout, max_age, me, open_session,
    repos_token, session, session_cookie, session_id, take_callback, Callback, CallbackStep, Reply,
};
use kaguya::web::sessions::{Session, Store};

#[test]
fn hex_of_bytes() {
    assert_eq!(hex(&[]), "");
    assert_eq!(hex(&[0x00, 0x0f, 0xa0, 0xff]), "000fa0ff");
}

#[test]
fn hex_reads_back_what_was_written() {
    let all: Vec<u8> = (0..=255).collect();
    assert_eq!(from_hex(&hex(&all)).unwrap(), all);
}

#[test]
fn hex_is_read_in_either_case() {
    assert_eq!(from_hex("").unwrap(), Vec::<u8>::new());
    assert_eq!(from_hex("aBFf09").unwrap(), vec![0xab, 0xff, 0x09]);
    assert_eq!(from_hex("+f0a").unwrap(), vec![0x0f, 0x0a]);
}

#[test]
fn text_that_is_no_hex_is_refused() {
    assert_eq!(from_hex("abc").unwrap_err(), "odd-length hex");
    for text in ["zz", "0g", "-f", "++", "f+", "ab c", "éé", "é", "00+"] {
        let e = from_hex(text).unwrap_err();
        if text.len() % 2 == 0 {
            assert_eq!(e, "bad hex: invalid digit found in string", "{text}");
        } else {
            assert_eq!(e, "odd-length hex");
        }
    }
}

#[test]
fn repositories_are_summed_up() {
    let mut list: Vec<RepoSummary> = Vec::new();
    add_repo(&mut list, None);
    add_repo(
        &mut list,
        Some(Repository {
            id: vec![0x01, 0x94],
            name: "n".to_string(),
            description: "d".to_string(),
            default_branch_name: "main".to_string(),
        }),
    );
    add_repo(&mut list, None);
    assert_eq!(list.len(), 1);
    assert_eq!(list[0].id, "0194");
    assert_eq!(list[0].name, "n");
    assert_eq!(list[0].description, "d");
    assert_eq!(list[0].default_branch, "main");
}

#[test]
fn clients_keep_their_endpoint() {
    assert_eq!(AuthClient::new("http://auth:8080".to_string()).endpoint(), "http://auth:8080");
    assert_eq!(LoreClient::new("http://lore:41337".to_string()).endpoint(), "http://lore:41337");
}

#[test]
fn a_bearer_has_no_control_characters() {
    assert_eq!(bearer("abc").unwrap(), "Bearer abc");
    assert_eq!(bearer("a\tb").unwrap(), "Bearer a\tb");
    assert_eq!(bearer("é").unwrap(), "Bearer é");
    for token in ["a\nb", "a\rb", "\0", "\u{7f}"] {
        assert_eq!(bearer(token).unwrap_err(), "invalid bearer token");
    }
}

#[test]
fn a_scoped_call_names_its_repository_twice() {
    let scope = repo_scope("tok", &[1, 2]).unwrap();
    assert_eq!(scope.authorization, "Bearer tok");
    assert_eq!(
        scope.binary,
        vec![("lore-partition-bin", vec![1, 2]), ("urc-repository-id-bin", vec![1, 2])]
    );
    assert_eq!(repo_scope("a\n", &[]).unwrap_err(), "invalid bearer token");
}

fn token(text: &str) -> Option<UserToken> {
    Some(UserToken {
        user_token: text.to_string(),
        expires_at: 77,
        user_id: "u".to_string(),
        user_name: "U".to_string(),
    })
}

#[test]
fn replies_of_the_auth_service() {
    let i = issued(token("t")).unwrap();
    assert_eq!(i.token, "t");
    assert_eq!(i.user_id, "u");
    assert_eq!(i.user_name, "U");
    assert_eq!(i.expires_at, 77);
    assert_eq!(issued(None).unwrap_err(), "auth service returned no user token");
    assert_eq!(issued(token("")).unwrap_err(), "auth service returned no user token");
    assert_eq!(scoped(token("t")).unwrap(), "t");
    assert_eq!(scoped(None).unwrap_err(), "auth service returned no scoped token");
    assert_eq!(scoped(token("")).unwrap_err(), "auth service returned no scoped token");
    let r = external_request("dex");
    assert_eq!(r.external_token, "dex");
    assert_eq!(r.token_type, "external");
}

fn oidc(issuer: &str) -> Oidc {
    Oidc::new(issuer.to_string(), "web client".to_string(), "https://web/auth/callback".to_string())
}

#[test]
fn trailing_slashes_of_the_issuer_are_dropped() {
    for issuer in ["https://dex/o/lore", "https://dex/o/lore/", "https://dex/o/lore//"] {
        assert_eq!(
            oidc(issuer).discovery_url(),
            "https://dex/o/lore/.well-known/openid-configuration"
        );
    }
}

#[test]
fn the_authorize_url_carries_the_login() {
    assert_eq!(
        oidc("https://dex").authorize_url("https://dex/auth?x=1#f", "st&te", "ch").unwrap(),
        "https://dex/auth?x=1&response_type=code&client_id=web+client&redirect_uri=https%3A%2F%2Fweb%2Fauth%2Fcallback&scope=openid+profile+email&state=st%26te&code_challenge=ch&code_challenge_method=S256#f"
    );
    let e = oidc("https://dex").authorize_url("no url", "s", "c").unwrap_err();
    assert_eq!(e, "authorize url: relative URL without a base");
}

#[test]
fn the_token_form_carries_code_and_verifier() {
    assert_eq!(
        oidc("https://dex").token_form("c", "v"),
        vec![
            ("grant_type", "authorization_code".to_string()),
            ("code", "c".to_string()),
            ("redirect_uri", "https://web/auth/callback".to_string()),
            ("client_id", "web client".to_string()),
            ("code_verifier", "v".to_string()),
        ]
    );
}

#[test]
fn the_challenge_of_a_known_verifier() {
    assert_eq!(
        code_challenge("dBjftJeZ4CVP-mB92K27uhbUJU1p1r_wW1gFWFOEjXk"),
        "E9Melhoa2OwvFrEMTJguCHaoeK1t8URWbuGJSstw-cM"
    );
}

#[test]
fn verifiers_and_states_are_fresh() {
    assert_eq!(verifier_from(&[0xff; 32]), "__________________________________________8");
    assert_eq!(code_verifier().len(), 43);
    assert!(code_verifier() != code_verifier());
    assert_eq!(random_state().len(), 32);
    assert!(random_state() != random_state());
}

#[test]
fn the_session_id_is_read_from_the_cookies() {
    let id = |s: &str| session_id(Some(s));
    assert_eq!(id("kw_session=abc").as_deref(), Some("abc"));
    assert_eq!(id("a=b; kw_session=abc; c=d").as_deref(), Some("abc"));
    assert_eq!(id("a=b;\t kw_session=abc \u{3000};c=d").as_deref(), Some("abc"));
    assert_eq!(id("kw_session=1; kw_session=2").as_deref(), Some("1"));
    assert_eq!(id("kw_session=a=b").as_deref(), Some("a=b"));
    assert_eq!(id("kw_session=").as_deref(), Some(""));
    assert_eq!(id("kw_session = abc"), None);
    assert_eq!(id("xkw_session=abc"), None);
    assert_eq!(id("KW_SESSION=abc"), None);
    assert_eq!(id(""), None);
    assert_eq!(id(";;"), None);
    assert_eq!(session_id(None), None);
}

#[test]
fn white_space_is_what_std_takes_for_it() {
    for n in 0..=0x10ffff_u32 {
        if let Some(c) = char::from_u32(n) {
            assert_eq!(kaguya::text::white(c), c.is_whitespace(), "{n:x}");
        }
    }
}

#[test]
fn cookies_in_words() {
    assert_eq!(
        session_cookie("abc", 3600),
        "kw_session=abc; HttpOnly; Secure; SameSite=Lax; Path=/; Max-Age=3600"
    );
    assert_eq!(
        session_cookie("abc", -10),
        "kw_session=abc; HttpOnly; Secure; SameSite=Lax; Path=/; Max-Age=-10"
    );
    assert_eq!(
        session_cookie("", i64::MIN),
        "kw_session=; HttpOnly; Secure; SameSite=Lax; Path=/; Max-Age=-9223372036854775808"
    );
    assert_eq!(
        clear_cookie(),
        "kw_session=; HttpOnly; Secure; SameSite=Lax; Path=/; Max-Age=0"
    );
}

fn back(code: Option<&str>, state: Option<&str>, error: Option<&str>) -> Callback {
    Callback {
        code: code.map(String::from),
        state: state.map(String::from),
        error: error.map(String::from),
    }
}

fn failed(step: CallbackStep) -> bool {
    match step {
        CallbackStep::Answer(r) => r.location == "/?login=failed" && r.set_cookie.is_none(),
        CallbackStep::Exchange { .. } => false,
    }
}

#[test]
fn a_callback_takes_its_login_up_once() {
    let mut s = Store::new();
    let login = begin_login_with(&mut s, 0xab, &[0; 32], 1000);
    assert_eq!(login.state, "000000000000000000000000000000ab");
    assert_eq!(login.challenge, code_challenge(&verifier_from(&[0; 32])));
    let q = || back(Some("code"), Some("000000000000000000000000000000ab"), None);
    match take_callback(&mut s, q(), 1599) {
        CallbackStep::Exchange { code, verifier } => {
            assert_eq!(code, "code");
            assert_eq!(verifier, verifier_from(&[0; 32]));
        }
        other => panic!("{other:?}"),
    }
    assert!(failed(take_callback(&mut s, q(), 1001)));
}

#[test]
fn a_callback_that_comes_too_late_fails() {
    let mut s = Store::new();
    let login = begin_login(&mut s, 1000);
    assert!(failed(take_callback(&mut s, back(Some("c"), Some(&login.state), None), 1600)));
    assert!(failed(take_callback(&mut s, back(Some("c"), Some(&login.state), None), 1001)));
}

#[test]
fn a_callback_without_code_or_state_or_with_an_error_fails() {
    let mut s = Store::new();
    let login = begin_login(&mut s, 1000);
    let st = login.state.as_str();
    assert!(failed(take_callback(&mut s, back(None, Some(st), None), 1001)));
    assert!(failed(take_callback(&mut s, back(Some("c"), None, None), 1001)));
    assert!(failed(take_callback(&mut s, back(Some("c"), Some(st), Some("access_denied")), 1001)));
    assert!(failed(take_callback(&mut s, back(Some("c"), Some("other"), None), 1001)));
    assert!(!failed(take_callback(&mut s, back(Some("c"), Some(st), None), 1001)));
}

fn issued_until(expires_at: i64) -> Issued {
    Issued {
        token: "tok".to_string(),
        user_id: "u".to_string(),
        user_name: "User \"U\"".to_string(),
        expires_at,
    }
}

fn found() -> Option<(String, String, String)> {
    Some(("tok".to_string(), "User \"U\"".to_string(), "u".to_string()))
}

#[test]
fn a_finished_callback_opens_a_session() {
    let mut s = Store::new();
    let r = open_session(&mut s, issued_until(5000), 0xcd, 1000);
    assert_eq!(r.location, "/");
    assert_eq!(
        r.set_cookie.as_deref(),
        Some("kw_session=000000000000000000000000000000cd; HttpOnly; Secure; SameSite=Lax; Path=/; Max-Age=4000")
    );
    let cookie = Some("kw_session=000000000000000000000000000000cd");
    assert_eq!(session(&s, cookie, 4999), found());
    assert_eq!(session(&s, cookie, 5000), None);
    assert_eq!(repos_token(&s, cookie, 4999).as_deref(), Some("tok"));
    assert_eq!(repos_token(&s, None, 4999), None);
    match me(&s, cookie, 4999) {
        Reply::Document(text) => assert_eq!(text, "{\"sub\":\"u\",\"user_name\":\"User \\\"U\\\"\"}"),
        other => panic!("{other:?}"),
    }
    assert!(matches!(me(&s, cookie, 5000), Reply::NotLoggedIn));

    let r = logout(&mut s, cookie);
    assert_eq!(r.location, "/");
    assert_eq!(r.set_cookie, Some(clear_cookie()));
    assert_eq!(session(&s, cookie, 1001), None);
}

#[test]
fn a_token_that_is_over_opens_a_session_for_an_hour() {
    let mut s = Store::new();
    let r = open_session(&mut s, issued_until(1000), 0xcd, 1000);
    assert!(r.set_cookie.unwrap().ends_with("; Max-Age=3600"));
    let cookie = Some("kw_session=000000000000000000000000000000cd");
    assert_eq!(session(&s, cookie, 4599), found());
    assert_eq!(session(&s, cookie, 4600), None);
}

#[test]
fn an_exchange_that_failed_opens_no_session() {
    let mut s = Store::new();
    let r = finish_callback(&mut s, Err("down".to_string()), 1000);
    assert_eq!(r.location, "/?login=failed");
    assert!(r.set_cookie.is_none());
    let r = finish_callback(&mut s, Ok(issued_until(5000)), 1000);
    let cookie = r.set_cookie.unwrap();
    let text = cookie.split(';').next().unwrap();
    assert_eq!(session(&s, Some(text), 1001), found());
    let both = format!("theme=dark; {text}");
    assert_eq!(session(&s, Some(&both), 1001), found());
}

#[test]
fn a_logout_without_a_session_clears_the_cookie() {
    let mut s = Store::new();
    let r = logout(&mut s, None);
    assert_eq!(r.location, "/");
    assert_eq!(r.set_cookie, Some(clear_cookie()));
}

#[test]
fn expired_sessions_and_logins_are_dropped() {
    let mut s = Store::new();
    let make = |e: i64| Session {
        token: "tok".to_string(),
        user_name: "n".to_string(),
        sub: "s".to_string(),
        expires_at: e,
    };
    s.create("a".to_string(), make(10), 0);
    s.create("b".to_string(), make(100), 20);
    assert!(s.get("a", 5).is_none());
    assert!(s.get("b", 20).is_some());
    s.start_login("x".to_string(), "v".to_string(), 0);
    s.start_login("y".to_string(), "w".to_string(), 600);
    assert_eq!(s.take_pending("x", 0), None);
    assert_eq!(s.take_pending("y", 700).as_deref(), Some("w"));
    s.remove("b");
    assert!(s.get("b", 20).is_none());
}

#[test]
fn times_at_the_end_of_the_clock() {
    let mut s = Store::new();
    s.start_login("x".to_string(), "v".to_string(), i64::MAX - 1);
    assert_eq!(s.take_pending("x", i64::MAX - 1).as_deref(), Some("v"));
    assert_eq!(max_age(5, 5), 0);
    assert_eq!(max_age(4, 5), 0);
    assert_eq!(max_age(9, 5), 4);
    assert_eq!(max_age(i64::MAX, i64::MIN), i64::MAX);
    assert_eq!(max_age(i64::MAX - 5, -5), i64::MAX);
}
