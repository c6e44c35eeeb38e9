//! Dex OIDC: the authorization-code flow with PKCE. The frontend is a public
//! client (no secret), so every login generates a PKCE verifier; the code
//! challenge binds the callback's code to this login.
use vstd::prelude::*;
use vstd::utf8::encode_utf8;

use crate::auth::dexlogin::form_of;
use crate::auth::jwks::{discovery_url, discovery_url_of};
use crate::encoding::{
    are_drawn, base64url, base64url_reads_back, digest_sha256, draw_bytes, draw_number,
    encode_base64url, id_from, id_of, is_drawn, lemma_base64url_len, sha256, unbase64url,
};
use crate::text::{joined, trailing_characters_are_taken_off, trim_trailing, without_trailing};

verus! {

/// The scope that a login asks for.
pub const SCOPE: &'static str = "openid profile email";

/// The client of the provider.
pub struct Oidc {
    issuer: String,
    client_id: String,
    redirect_uri: String,
}

/// A URL with names and values appended to its query, or why it is no URL.
pub uninterp spec fn url_with_query(url: Seq<char>, pairs: Seq<(Seq<char>, Seq<char>)>) -> Result<
    Seq<char>,
    Seq<char>,
>;

/// `Url::parse` reads a URL, and `extend_pairs` appends names and values to its
/// query. Its error is given by its text.
#[verifier::external_body]
fn append_query(url: &str, pairs: &Vec<(&'static str, String)>) -> (r: Result<String, String>)
    ensures
        match r {
            Ok(u) => url_with_query(url@, form_of(pairs@)) == Ok::<Seq<char>, Seq<char>>(u@),
            Err(e) => url_with_query(url@, form_of(pairs@)) == Err::<Seq<char>, Seq<char>>(e@),
        },
{
    let mut u = reqwest::Url::parse(url).map_err(|e| e.to_string())?;
    u.query_pairs_mut().extend_pairs(pairs);
    Ok(u.to_string())
}

impl Oidc {
    /// The issuer that logins go to.
    pub closed spec fn issuer(&self) -> Seq<char> {
        self.issuer@
    }

    /// The client that logins are made for.
    pub closed spec fn client_id(&self) -> Seq<char> {
        self.client_id@
    }

    /// Where a login comes back to.
    pub closed spec fn redirect_uri(&self) -> Seq<char> {
        self.redirect_uri@
    }

    pub fn new(issuer: String, client_id: String, redirect_uri: String) -> (r: Self)
        ensures
            r.issuer() == issuer@,
            r.client_id() == client_id@,
            r.redirect_uri() == redirect_uri@,
    {
        Oidc { issuer, client_id, redirect_uri }
    }

    /// The URL of the provider's discovery document. Trailing slashes of the
    /// issuer are dropped, so that the URL has no double slash.
    pub fn discovery_url(&self) -> (r: String)
        ensures
            r@ == discovery_url_of(without_trailing(self.issuer(), '/')),
    {
        discovery_url(trim_trailing(self.issuer.as_str(), '/').as_str())
    }

    /// What a login asks the provider for.
    pub open spec fn authorize_pairs(&self, state: Seq<char>, code_challenge: Seq<char>) -> Seq<
        (Seq<char>, Seq<char>),
    > {
        seq![
            ("response_type"@, "code"@),
            ("client_id"@, self.client_id()),
            ("redirect_uri"@, self.redirect_uri()),
            ("scope"@, SCOPE@),
            ("state"@, state),
            ("code_challenge"@, code_challenge),
            ("code_challenge_method"@, "S256"@),
        ]
    }

    /// The URL to redirect the browser to for login, at the provider's
    /// authorization endpoint.
    pub fn authorize_url(
        &self,
        authorization_endpoint: &str,
        state: &str,
        code_challenge: &str,
    ) -> (r: Result<String, String>)
        ensures
            match url_with_query(
                authorization_endpoint@,
                self.authorize_pairs(state@, code_challenge@),
            ) {
                Ok(url) => r matches Ok(u) && u@ == url,
                Err(e) => r matches Err(m) && m@ == "authorize url: "@ + e,
            },
    {
        let mut pairs: Vec<(&'static str, String)> = Vec::new();
        pairs.push(("response_type", "code".to_owned()));
        pairs.push(("client_id", self.client_id.clone()));
        pairs.push(("redirect_uri", self.redirect_uri.clone()));
        pairs.push(("scope", SCOPE.to_owned()));
        pairs.push(("state", state.to_owned()));
        pairs.push(("code_challenge", code_challenge.to_owned()));
        pairs.push(("code_challenge_method", "S256".to_owned()));
        assert(form_of(pairs@) =~= self.authorize_pairs(state@, code_challenge@));
        match append_query(authorization_endpoint, &pairs) {
            Ok(url) => Ok(url),
            Err(e) => Err(joined("authorize url: ", e.as_str())),
        }
    }

    /// The form that exchanges the callback's authorization code for a token.
    pub fn token_form(&self, code: &str, code_verifier: &str) -> (r: Vec<(&'static str, String)>)
        ensures
            form_of(r@) == seq![
                ("grant_type"@, "authorization_code"@),
                ("code"@, code@),
                ("redirect_uri"@, self.redirect_uri()),
                ("client_id"@, self.client_id()),
                ("code_verifier"@, code_verifier@),
            ],
    {
        let mut form: Vec<(&'static str, String)> = Vec::new();
        form.push(("grant_type", "authorization_code".to_owned()));
        form.push(("code", code.to_owned()));
        form.push(("redirect_uri", self.redirect_uri.clone()));
        form.push(("client_id", self.client_id.clone()));
        form.push(("code_verifier", code_verifier.to_owned()));
        form
    }
}

/// The verifier that drawn bytes give.
pub fn verifier_from(bytes: &[u8; 32]) -> (r: String)
    ensures
        r@ == base64url(bytes@),
{
    encode_base64url(bytes.as_slice())
}

/// A fresh PKCE code verifier (RFC 7636): 32 random bytes, base64url.
pub fn code_verifier() -> (r: String)
    ensures
        exists|bytes: [u8; 32]| are_drawn(bytes) && r@ == #[trigger] base64url(bytes@),
        r@.len() == 43,
{
    let bytes = draw_bytes();
    proof {
        lemma_base64url_len(bytes@);
    }
    verifier_from(&bytes)
}

/// The S256 code challenge for a verifier.
pub open spec fn challenge_of(verifier: Seq<char>) -> Seq<char> {
    base64url(sha256(encode_utf8(verifier)))
}

/// The S256 code challenge for a verifier.
pub fn code_challenge(verifier: &str) -> (r: String)
    ensures
        r@ == challenge_of(verifier@),
{
    encode_base64url(digest_sha256(verifier.as_bytes()).as_slice())
}

/// An unguessable opaque `state` value.
pub fn random_state() -> (r: String)
    ensures
        exists|x: u128| is_drawn(x) && r@ == #[trigger] id_of(x),
{
    let x: u128 = draw_number();
    id_from(x)
}

/// A login asks for a code, for this client, back to this address, with its own state
/// and its own challenge, each once and under its own name.
pub proof fn login_asks_with_its_own_state(
    client: Oidc,
    state: Seq<char>,
    code_challenge: Seq<char>,
)
    ensures
        ({
            let pairs = client.authorize_pairs(state, code_challenge);
            &&& pairs.len() == 7
            &&& pairs.contains(("response_type"@, "code"@))
            &&& pairs.contains(("client_id"@, client.client_id()))
            &&& pairs.contains(("redirect_uri"@, client.redirect_uri()))
            &&& pairs.contains(("scope"@, "openid profile email"@))
            &&& pairs.contains(("state"@, state))
            &&& pairs.contains(("code_challenge"@, code_challenge))
            &&& pairs.contains(("code_challenge_method"@, "S256"@))
        }),
{
    let pairs = client.authorize_pairs(state, code_challenge);
    assert(pairs[0] == ("response_type"@, "code"@));
    assert(pairs[1] == ("client_id"@, client.client_id()));
    assert(pairs[2] == ("redirect_uri"@, client.redirect_uri()));
    assert(pairs[3] == ("scope"@, SCOPE@));
    assert(pairs[4] == ("state"@, state));
    assert(pairs[5] == ("code_challenge"@, code_challenge));
    assert(pairs[6] == ("code_challenge_method"@, "S256"@));
}

/// The challenge of a verifier is its digest and nothing else: it decodes to the SHA-256
/// digest of the verifier's bytes, and two verifiers have one challenge exactly where
/// they have one digest.
pub proof fn challenge_is_the_digest(a: Seq<char>, b: Seq<char>)
    ensures
        unbase64url(challenge_of(a)) == Some(sha256(encode_utf8(a))),
        challenge_of(a) == challenge_of(b) <==> sha256(encode_utf8(a)) == sha256(encode_utf8(b)),
{
    base64url_reads_back(sha256(encode_utf8(a)), challenge_of(a));
    base64url_reads_back(sha256(encode_utf8(b)), challenge_of(b));
}

/// An issuer's discovery document is found below it, with any number of slashes at its
/// end or none.
pub proof fn discovery_ignores_trailing_slashes(issuer: Seq<char>, n: nat)
    requires
        issuer.len() > 0 ==> issuer.last() != '/',
    ensures
        discovery_url_of(
            without_trailing(issuer + Seq::new(n, |i: int| '/'), '/'),
        ) == discovery_url_of(issuer),
        discovery_url_of(issuer) == issuer + "/.well-known/openid-configuration"@,
{
    trailing_characters_are_taken_off(issuer, '/', n);
}

}
