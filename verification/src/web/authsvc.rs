//! What is asked of the auth service: to turn the user's Dex identity into a Lore
//! token, and to mint tokens for single repositories.
use tonic::metadata::{Ascii, MetadataValue};
use vstd::prelude::*;

use crate::auth::service::UserToken;
use crate::text::joined;

verus! {

/// The client of the auth service.
pub struct AuthClient {
    endpoint: String,
}

/// The identity and token returned from an exchange, for the session.
#[derive(Debug)]
pub struct Issued {
    pub token: String,
    pub user_id: String,
    pub user_name: String,
    pub expires_at: i64,
}

impl AuthClient {
    /// Where the auth service is reached.
    pub closed spec fn address(&self) -> Seq<char> {
        self.endpoint@
    }

    pub fn new(endpoint: String) -> (r: Self)
        ensures
            r.address() == endpoint@,
    {
        AuthClient { endpoint }
    }

    /// Where the auth service is reached.
    pub fn endpoint(&self) -> (r: &str)
        ensures
            r@ == self.address(),
    {
        self.endpoint.as_str()
    }
}

/// The request that exchanges a Dex identity token.
#[derive(Debug)]
pub struct ExternalRequest {
    pub external_token: String,
    pub token_type: String,
}

/// The request that exchanges a Dex identity token for a token of the auth
/// service (the user's Lore identity for the rest of the session).
pub fn external_request(dex_token: &str) -> (r: ExternalRequest)
    ensures
        r.external_token@ == dex_token@,
        r.token_type@ == "external"@,
{
    ExternalRequest { external_token: dex_token.to_owned(), token_type: "external".to_owned() }
}

/// A reply carries a token.
pub open spec fn has_token(reply: Option<UserToken>) -> bool {
    reply matches Some(t) && t.user_token@.len() > 0
}

/// The identity that the auth service's reply to an exchange gives.
pub fn issued(reply: Option<UserToken>) -> (r: Result<Issued, String>)
    ensures
        if has_token(reply) {
            r == Ok::<Issued, String>(
                Issued {
                    token: reply->Some_0.user_token,
                    user_id: reply->Some_0.user_id,
                    user_name: reply->Some_0.user_name,
                    expires_at: reply->Some_0.expires_at,
                },
            )
        } else {
            r matches Err(e) && e@ == "auth service returned no user token"@
        },
{
    if let Some(t) = reply {
        if !t.user_token.as_str().is_empty() {
            return Ok(
                Issued {
                    token: t.user_token,
                    user_id: t.user_id,
                    user_name: t.user_name,
                    expires_at: t.expires_at,
                },
            );
        }
    }
    Err("auth service returned no user token".to_owned())
}

/// The scoped token that the auth service's reply to an exchange gives.
pub fn scoped(reply: Option<UserToken>) -> (r: Result<String, String>)
    ensures
        if has_token(reply) {
            r == Ok::<String, String>(reply->Some_0.user_token)
        } else {
            r matches Err(e) && e@ == "auth service returned no scoped token"@
        },
{
    if let Some(t) = reply {
        if !t.user_token.as_str().is_empty() {
            return Ok(t.user_token);
        }
    }
    Err("auth service returned no scoped token".to_owned())
}

/// A text that can be sent as a header: no control characters but the tab.
pub open spec fn is_header_text(s: Seq<char>) -> bool {
    forall|i: int|
        0 <= i < s.len() ==> (#[trigger] s[i]) == '\t' || (s[i] as u32 >= 32 && s[i] as u32 != 127)
}

/// `MetadataValue::<Ascii>::from_str` accepts a text whose bytes are tabs or no
/// control characters.
#[verifier::external_body]
fn parses_as_header(s: &str) -> (r: bool)
    ensures
        r == is_header_text(s@),
{
    s.parse::<MetadataValue<Ascii>>().is_ok()
}

/// The `authorization` header that carries a token.
pub fn bearer(token: &str) -> (r: Result<String, String>)
    ensures
        if is_header_text("Bearer "@ + token@) {
            r matches Ok(value) && value@ == "Bearer "@ + token@
        } else {
            r matches Err(e) && e@ == "invalid bearer token"@
        },
{
    let value = joined("Bearer ", token);
    if parses_as_header(value.as_str()) {
        Ok(value)
    } else {
        Err("invalid bearer token".to_owned())
    }
}

}
