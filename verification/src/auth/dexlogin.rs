//! The rules of Dex's OAuth 2.0 device flow (RFC 8628), by which a user logs in
//! natively: which forms are sent, and what the replies mean.
//!
//! A login starts with a device authorization, whose verification URL is handed
//! to the user. The token endpoint is then polled until Dex returns a token (the
//! user approved) or a terminal error.
use vstd::prelude::*;

use crate::auth::jwks::{discovery_url, discovery_url_of};
use crate::text::{opt_text, same_text};

verus! {

/// The scope that a login asks for.
pub const SCOPE: &'static str = "openid profile email";

/// The grant type of the device flow.
pub const DEVICE_GRANT: &'static str = "urn:ietf:params:oauth:grant-type:device_code";

/// The reply to a device authorization request.
#[derive(Debug)]
pub struct DeviceCodeResponse {
    pub device_code: String,
    pub verification_uri_complete: Option<String>,
    pub verification_uri: Option<String>,
    pub expires_in: u64,
}

/// What a started device authorization gives. `token_endpoint` is carried so that
/// polling never has to run discovery again.
#[derive(Debug)]
pub struct DeviceStart {
    pub device_code: String,
    pub login_url: String,
    pub token_endpoint: String,
    pub expires_in: u64,
}

/// The outcome of one poll of the token endpoint.
#[derive(Debug)]
pub enum Poll {
    /// The user has not finished authorizing; keep polling.
    Pending,
    /// The user approved; the token that Dex issued.
    Token(String),
    /// A terminal failure (expired, denied, …); stop polling.
    Denied(String),
}

/// What the outcome of a poll is.
pub enum PollView {
    Pending,
    Token(Seq<char>),
    Denied(Seq<char>),
}

impl View for Poll {
    type V = PollView;

    open spec fn view(&self) -> PollView {
        match *self {
            Poll::Pending => PollView::Pending,
            Poll::Token(t) => PollView::Token(t@),
            Poll::Denied(e) => PollView::Denied(e@),
        }
    }
}

/// The fields of a form: names and values, in order.
pub open spec fn form_of(form: Seq<(&'static str, String)>) -> Seq<(Seq<char>, Seq<char>)> {
    form.map_values(|f: (&'static str, String)| (f.0@, f.1@))
}

/// The client of the device flow.
pub struct DexLogin {
    issuer: String,
    client_id: String,
}

impl DexLogin {
    /// The issuer that logins go to.
    pub closed spec fn issuer(&self) -> Seq<char> {
        self.issuer@
    }

    /// The client that logins are made for.
    pub closed spec fn client_id(&self) -> Seq<char> {
        self.client_id@
    }

    pub fn new(issuer: String, client_id: String) -> (r: Self)
        ensures
            r.issuer() == issuer@,
            r.client_id() == client_id@,
    {
        DexLogin { issuer, client_id }
    }

    /// The URL of the provider's discovery document.
    pub fn discovery_url(&self) -> (r: String)
        ensures
            r@ == discovery_url_of(self.issuer()),
    {
        discovery_url(self.issuer.as_str())
    }

    /// The form that begins a device authorization.
    pub fn start_form(&self) -> (r: Vec<(&'static str, String)>)
        ensures
            form_of(r@) == seq![("client_id"@, self.client_id()), ("scope"@, SCOPE@)],
    {
        let mut form: Vec<(&'static str, String)> = Vec::new();
        form.push(("client_id", self.client_id.clone()));
        form.push(("scope", SCOPE.to_owned()));
        form
    }

    /// The form that polls the token endpoint.
    pub fn poll_form(&self, device_code: &str) -> (r: Vec<(&'static str, String)>)
        ensures
            form_of(r@) == seq![
                ("grant_type"@, DEVICE_GRANT@),
                ("device_code"@, device_code@),
                ("client_id"@, self.client_id()),
            ],
    {
        let mut form: Vec<(&'static str, String)> = Vec::new();
        form.push(("grant_type", DEVICE_GRANT.to_owned()));
        form.push(("device_code", device_code.to_owned()));
        form.push(("client_id", self.client_id.clone()));
        form
    }
}

/// The URL to send the user to: the one that carries the user code, or else the
/// plain one.
pub open spec fn login_url_of(resp: DeviceCodeResponse) -> Option<Seq<char>> {
    match resp.verification_uri_complete {
        Some(url) => Some(url@),
        None => opt_text(resp.verification_uri),
    }
}

/// What is said of a device authorization without a URL.
pub const NO_URL: &'static str = "device authorization returned no verification URI";

/// The device authorization that a reply starts: the URL to send the user to and
/// the device code to poll with.
pub fn started(resp: DeviceCodeResponse, token_endpoint: String) -> (r: Result<DeviceStart, String>)
    ensures
        match login_url_of(resp) {
            Some(url) => r matches Ok(start) && start.login_url@ == url && start.device_code@
                == resp.device_code@ && start.token_endpoint@ == token_endpoint@
                && start.expires_in == resp.expires_in,
            None => r matches Err(e) && e@ == NO_URL@,
        },
{
    let login_url = match resp.verification_uri_complete {
        Some(url) => url,
        None => match resp.verification_uri {
            Some(url) => url,
            None => {
                return Err(NO_URL.to_owned());
            },
        },
    };
    Ok(
        DeviceStart {
            device_code: resp.device_code,
            login_url,
            token_endpoint,
            expires_in: resp.expires_in,
        },
    )
}

/// A token that was returned and is not empty.
pub open spec fn returned(token: Option<String>) -> bool {
    token matches Some(t) && t@.len() > 0
}

/// The classification of a reply of the token endpoint.
pub open spec fn outcome_of(
    id_token: Option<String>,
    access_token: Option<String>,
    error: Option<String>,
) -> PollView {
    if returned(id_token) {
        PollView::Token(id_token->Some_0@)
    } else if returned(access_token) {
        PollView::Token(access_token->Some_0@)
    } else {
        match error {
            None => PollView::Pending,
            Some(e) => if e@ == "authorization_pending"@ || e@ == "slow_down"@ {
                PollView::Pending
            } else {
                PollView::Denied(e@)
            },
        }
    }
}

/// Classify a reply of the token endpoint. `authorization_pending` and
/// `slow_down` mean keep polling; a token means done; any other error is
/// terminal. The id token is handed back (it carries the email claims, which the
/// access token may not), and the access token only if there is no id token.
pub fn classify(
    id_token: Option<String>,
    access_token: Option<String>,
    error: Option<String>,
) -> (r: Poll)
    ensures
        r@ == outcome_of(id_token, access_token, error),
{
    match id_token {
        Some(token) => {
            if !token.as_str().is_empty() {
                return Poll::Token(token);
            }
        },
        None => {},
    }
    match access_token {
        Some(token) => {
            if !token.as_str().is_empty() {
                return Poll::Token(token);
            }
        },
        None => {},
    }
    match error {
        None => Poll::Pending,
        Some(e) => {
            if same_text(e.as_str(), "authorization_pending") || same_text(e.as_str(), "slow_down") {
                Poll::Pending
            } else {
                Poll::Denied(e)
            }
        },
    }
}

/// A login is over only with a token that is not empty, or with an error.
pub proof fn no_token_is_no_login(
    id_token: Option<String>,
    access_token: Option<String>,
    error: Option<String>,
)
    ensures
        outcome_of(id_token, access_token, error) matches PollView::Token(t) ==> t.len() > 0,
        !returned(id_token) && !returned(access_token) && error is None ==> outcome_of(
            id_token,
            access_token,
            error,
        ) is Pending,
{
}

/// A token that Dex returned is what the login ends with, whatever else the reply says:
/// the id token where it is there and not empty, or else the access token.
pub proof fn returned_token_ends_the_login(
    id_token: Option<String>,
    access_token: Option<String>,
    error: Option<String>,
)
    ensures
        (id_token matches Some(t) && t@.len() > 0) ==> outcome_of(id_token, access_token, error)
            == PollView::Token(id_token->Some_0@),
        (id_token is None || id_token->Some_0@.len() == 0) && (access_token matches Some(t)
            && t@.len() > 0) ==> outcome_of(id_token, access_token, error) == PollView::Token(
            access_token->Some_0@,
        ),
{
}

/// Without a token a login goes on while Dex asks to wait or says nothing, and ends with
/// the error that Dex gives otherwise.
pub proof fn error_ends_the_login(
    id_token: Option<String>,
    access_token: Option<String>,
    error: Option<String>,
)
    requires
        id_token is None || id_token->Some_0@.len() == 0,
        access_token is None || access_token->Some_0@.len() == 0,
    ensures
        error is None ==> outcome_of(id_token, access_token, error) is Pending,
        error matches Some(e) ==> (outcome_of(id_token, access_token, error) is Pending <==> (e@
            == "authorization_pending"@ || e@ == "slow_down"@)),
        error matches Some(e) ==> (e@ != "authorization_pending"@ && e@ != "slow_down"@
            ==> outcome_of(id_token, access_token, error) == PollView::Denied(e@)),
{
}

/// The user is sent to the URL that carries the code, where there is one, or else to the
/// plain one; without either there is nowhere to go.
pub proof fn user_is_sent_to_the_fuller_url(resp: DeviceCodeResponse)
    ensures
        resp.verification_uri_complete matches Some(url) ==> login_url_of(resp) == Some(url@),
        resp.verification_uri_complete is None ==> (resp.verification_uri matches Some(url)
            ==> login_url_of(resp) == Some(url@)),
        login_url_of(resp) is None <==> resp.verification_uri_complete is None
            && resp.verification_uri is None,
{
}

/// The fields of a form are its names and values, in order.
pub proof fn form_fields_are_names_and_values(form: Seq<(&'static str, String)>)
    ensures
        form_of(form).len() == form.len(),
        forall|i: int|
            0 <= i < form.len() ==> (#[trigger] form_of(form)[i]).0 == form[i].0@ && form_of(
                form,
            )[i].1 == form[i].1@,
{
}

/// The outcome of a poll shows what it is.
pub proof fn poll_shows_its_outcome(t: String)
    ensures
        Poll::Pending@ is Pending,
        Poll::Token(t)@ == PollView::Token(t@),
        Poll::Denied(t)@ == PollView::Denied(t@),
{
}

/// A login that was started is polled with the device code that it was given, at the
/// token endpoint, for this client.
pub proof fn poll_is_for_its_device_code(
    login: DexLogin,
    device_code: &str,
    form: Vec<(&'static str, String)>,
)
    requires
        call_ensures(DexLogin::poll_form, (&login, device_code), form),
    ensures
        form_of(form@).contains(("device_code"@, device_code@)),
{
    assert(form_of(form@)[1] == ("device_code"@, device_code@));
}

}
