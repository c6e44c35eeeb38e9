use kaguya::auth::dexlogin::{classify, started, DeviceCodeResponse, DexLogin, Poll};

#[test]
fn id_token_is_preferred_and_is_success() {
    assert!(matches!(
        classify(Some("idt".to_string()), Some("acc".to_string()), None),
        Poll::Token(t) if t == "idt"
    ));
}

#[test]
fn access_token_is_used_when_no_id_token() {
    assert!(matches!(
        classify(None, Some("acc".to_string()), None),
        Poll::Token(t) if t == "acc"
    ));
}

#[test]
fn authorization_pending_keeps_polling() {
    assert!(matches!(
        classify(None, None, Some("authorization_pending".to_string())),
        Poll::Pending
    ));
    assert!(matches!(
        classify(None, None, Some("slow_down".to_string())),
        Poll::Pending
    ));
}

#[test]
fn other_errors_are_terminal() {
    assert!(matches!(
        classify(None, None, Some("expired_token".to_string())),
        Poll::Denied(e) if e == "expired_token"
    ));
    assert!(matches!(
        classify(None, None, Some("access_denied".to_string())),
        Poll::Denied(_)
    ));
}

#[test]
fn empty_tokens_are_not_success() {
    assert!(matches!(
        classify(Some(String::new()), Some(String::new()), None),
        Poll::Pending
    ));
}

#[test]
fn a_token_outweighs_an_error() {
    assert!(matches!(
        classify(None, Some("acc".to_string()), Some("slow_down".to_string())),
        Poll::Token(t) if t == "acc"
    ));
    assert!(matches!(
        classify(Some(String::new()), None, Some("expired_token".to_string())),
        Poll::Denied(e) if e == "expired_token"
    ));
}

fn response(complete: Option<&str>, plain: Option<&str>) -> DeviceCodeResponse {
    DeviceCodeResponse {
        device_code: "dc".to_string(),
        verification_uri_complete: complete.map(String::from),
        verification_uri: plain.map(String::from),
        expires_in: 300,
    }
}

#[test]
fn the_complete_url_is_preferred() {
    let start = started(response(Some("https://u/full"), Some("https://u")), "https://t".to_string()).unwrap();
    assert_eq!(start.login_url, "https://u/full");
    assert_eq!(start.device_code, "dc");
    assert_eq!(start.token_endpoint, "https://t");
    assert_eq!(start.expires_in, 300);
}

#[test]
fn the_plain_url_is_used_without_a_complete_one() {
    let start = started(response(None, Some("https://u")), "https://t".to_string()).unwrap();
    assert_eq!(start.login_url, "https://u");
}

#[test]
fn an_authorization_without_a_url_is_an_error() {
    assert_eq!(
        started(response(None, None), "https://t".to_string()).unwrap_err(),
        "device authorization returned no verification URI"
    );
}

#[test]
fn forms_of_the_device_flow() {
    let login = DexLogin::new("https://dex.example.com/dex".to_string(), "lore.example.com".to_string());
    assert_eq!(
        login.discovery_url(),
        "https://dex.example.com/dex/.well-known/openid-configuration"
    );
    assert_eq!(
        login.start_form(),
        vec![
            ("client_id", "lore.example.com".to_string()),
            ("scope", "openid profile email".to_string()),
        ]
    );
    assert_eq!(
        login.poll_form("dc-1"),
        vec![
            ("grant_type", "urn:ietf:params:oauth:grant-type:device_code".to_string()),
            ("device_code", "dc-1".to_string()),
            ("client_id", "lore.example.com".to_string()),
        ]
    );
}
