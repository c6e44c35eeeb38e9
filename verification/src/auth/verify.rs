//! Token verification: the incoming identity bearer, whether it was issued by
//! Dex or minted by this service.
//!
//! Before a repository-scoped token is minted for an identity, the bearer's
//! signature, issuer, audience and expiry are verified, so a forged or foreign
//! bearer cannot obtain access. `DexVerifier` checks Dex-signed tokens against
//! Dex's key set, which is kept once it was fetched; an unknown key id asks for
//! one fetch, which covers key rotation. `SelfVerifier` checks tokens that this
//! service signed against its own key. `Identity` tries the own key first, then
//! Dex.
use jsonwebtoken::jwk::JwkSet;
use jsonwebtoken::DecodingKey;
use serde_json::Value;
use vstd::prelude::*;

use crate::auth::jwks::{discovery_url, discovery_url_of, single_key_set};
use crate::auth::jwt::{
    addressee, check_addressee, check_signature, checked, decoding_key, find_key, first_with_id, fits,
    header_key_id, is_registered, key_material, key_set, material_of, parse_jwk, parse_key_set,
    parsed_jwk, parsed_key_set, read_key_id, rsa_jwk, signed_by, KeyMaterial,
};
use crate::auth::payload::{
    claim_in, members_in, payload, read_claim, read_members, read_payload, shown_members,
};
use crate::clock::{is_now, now_secs};
use crate::encoding::base64url;
use crate::json::{json_of, Json, Scalar};
use crate::text::{joined, opt_text, texts};

verus! {

/// The lowercase equivalent of a text.
pub uninterp spec fn lowercase(s: Seq<char>) -> Seq<char>;

/// A text of ASCII characters.
pub open spec fn is_ascii(s: Seq<char>) -> bool {
    forall|i: int| 0 <= i < s.len() ==> (#[trigger] s[i]) as u32 <= 127
}

/// The lowercase form of an ASCII character.
pub open spec fn ascii_lower(c: char) -> char {
    if 'A' <= c && c <= 'Z' {
        ((c as u32) + 32) as char
    } else {
        c
    }
}

/// `str::to_lowercase` gives the lowercase equivalent of a text. For ASCII text
/// that is the text with its letters in lowercase.
#[verifier::external_body]
fn to_lowercase(s: &str) -> (r: String)
    ensures
        r@ == lowercase(s@),
        is_ascii(s@) ==> r@ == s@.map_values(|c: char| ascii_lower(c)),
{
    s.to_lowercase()
}

/// The identity claims of a verified token, whether a Dex identity token or one
/// that this service minted. `sub` and `exp` carry into the minted Lore token;
/// the optional display fields populate the exchange response.
#[derive(Debug)]
pub struct IdentityClaims {
    pub sub: String,
    pub exp: u64,
    pub preferred_username: Option<String>,
    pub name: Option<String>,
    pub email: Option<String>,
    pub email_verified: Option<bool>,
}

/// What identity claims hold.
pub struct Claims {
    pub sub: Seq<char>,
    pub exp: u64,
    pub preferred_username: Option<Seq<char>>,
    pub name: Option<Seq<char>>,
    pub email: Option<Seq<char>>,
    pub email_verified: Option<bool>,
}

impl View for IdentityClaims {
    type V = Claims;

    open spec fn view(&self) -> Claims {
        Claims {
            sub: self.sub@,
            exp: self.exp,
            preferred_username: opt_text(self.preferred_username),
            name: opt_text(self.name),
            email: opt_text(self.email),
            email_verified: self.email_verified,
        }
    }
}

/// Claims come with an email address that was verified.
pub open spec fn has_verified_email(c: Claims) -> bool {
    c.email_verified == Some(true) && (c.email matches Some(email) && email.len() > 0)
}

/// The account that claims stand for: the verified email address in lowercase,
/// or else the subject.
pub open spec fn account_of(c: Claims) -> Seq<char> {
    if has_verified_email(c) {
        lowercase(c.email->Some_0)
    } else {
        c.sub
    }
}

impl IdentityClaims {
    /// The canonical account id. A verified email address (in lowercase) unifies
    /// the same person's logins across connectors into one account; without a
    /// verified email address it is the connector-specific subject, so an
    /// unverified or missing address can never collide with someone else's
    /// account.
    pub fn canonical_subject(&self) -> (r: String)
        ensures
            r@ == account_of(self@),
            has_verified_email(self@) && is_ascii(self@.email->Some_0) ==> r@
                == self@.email->Some_0.map_values(|c: char| ascii_lower(c)),
    {
        match (&self.email, self.email_verified) {
            (Some(email), Some(true)) => {
                if !email.as_str().is_empty() {
                    return to_lowercase(email.as_str());
                }
            },
            _ => {},
        }
        self.sub.clone()
    }
}

/// Why a bearer was not accepted.
#[derive(Debug)]
pub enum VerifyError {
    /// The bearer is not a well-formed JWT, or carries no `kid`.
    Malformed(String),
    /// No key with the token's `kid` in Dex's key set, even after a refresh.
    UnknownKid(String),
    /// Dex's key set could not be fetched or parsed.
    Jwks(String),
    /// Signature, issuer, audience or expiry did not check out.
    Invalid(String),
}

/// What a verification error says.
pub enum Refusal {
    Malformed(Seq<char>),
    UnknownKid(Seq<char>),
    Jwks(Seq<char>),
    Invalid(Seq<char>),
}

impl View for VerifyError {
    type V = Refusal;

    open spec fn view(&self) -> Refusal {
        match *self {
            VerifyError::Malformed(m) => Refusal::Malformed(m@),
            VerifyError::UnknownKid(kid) => Refusal::UnknownKid(kid@),
            VerifyError::Jwks(m) => Refusal::Jwks(m@),
            VerifyError::Invalid(m) => Refusal::Invalid(m@),
        }
    }
}

/// A refusal in words.
pub open spec fn refusal_text(e: Refusal) -> Seq<char> {
    match e {
        Refusal::Malformed(m) => "malformed token: "@ + m,
        Refusal::UnknownKid(kid) => "no Dex key for kid "@ + kid,
        Refusal::Jwks(m) => "Dex JWKS unavailable: "@ + m,
        Refusal::Invalid(m) => "token rejected: "@ + m,
    }
}

impl VerifyError {
    /// The error in words.
    pub fn message(&self) -> (r: String)
        ensures
            r@ == refusal_text(self@),
    {
        match self {
            VerifyError::Malformed(m) => joined("malformed token: ", m.as_str()),
            VerifyError::UnknownKid(kid) => joined("no Dex key for kid ", kid.as_str()),
            VerifyError::Jwks(m) => joined("Dex JWKS unavailable: ", m.as_str()),
            VerifyError::Invalid(m) => joined("token rejected: ", m.as_str()),
        }
    }
}

/// An optional text claim: a claim that is missing or null is none. `None` where
/// the claim is something else than a text.
pub open spec fn optional_text(claim: Option<Option<Json>>) -> Option<Option<Seq<char>>> {
    match claim {
        Some(None) => Some(None),
        Some(Some(Json::Null)) => Some(None),
        Some(Some(Json::Text(t))) => Some(Some(t)),
        _ => None,
    }
}

/// An optional truth value, read like an optional text.
pub open spec fn optional_bool(claim: Option<Option<Json>>) -> Option<Option<bool>> {
    match claim {
        Some(None) => Some(None),
        Some(Some(Json::Null)) => Some(None),
        Some(Some(Json::Bool(b))) => Some(Some(b)),
        _ => None,
    }
}

/// The identity among the members of a payload: there has to be a text `sub` and a
/// whole number `exp`, and no claim of an identity may be of another kind than it
/// should, or be named twice. Other claims do not matter.
pub open spec fn identity_among(list: Seq<(Seq<char>, Seq<u8>)>) -> Option<Claims> {
    match (
        claim_in(list, "sub"@),
        claim_in(list, "exp"@),
        optional_text(claim_in(list, "preferred_username"@)),
        optional_text(claim_in(list, "name"@)),
        optional_text(claim_in(list, "email"@)),
        optional_bool(claim_in(list, "email_verified"@)),
    ) {
        (
            Some(Some(Json::Text(sub))),
            Some(Some(Json::Unsigned(exp))),
            Some(preferred_username),
            Some(name),
            Some(email),
            Some(email_verified),
        ) => Some(Claims { sub, exp, preferred_username, name, email, email_verified }),
        _ => None,
    }
}

/// The identity in a payload.
pub open spec fn identity_in(p: Seq<u8>) -> Option<Claims> {
    match members_in(p) {
        Some(list) => identity_among(list),
        None => None,
    }
}

/// The identity in a token.
pub open spec fn token_identity(token: Seq<char>) -> Option<Claims> {
    match payload(token) {
        Some(p) => identity_in(p),
        None => None,
    }
}

fn read_optional_text(list: &Vec<(String, Vec<u8>)>, name: &str) -> (r: Option<Option<String>>)
    ensures
        match r {
            Some(t) => optional_text(claim_in(shown_members(list@), name@)) == Some(opt_text(t)),
            None => optional_text(claim_in(shown_members(list@), name@)) is None,
        },
{
    match read_claim(list, name) {
        Some(None) => Some(None),
        Some(Some(Scalar::Null)) => Some(None),
        Some(Some(Scalar::Text(t))) => Some(Some(t)),
        _ => None,
    }
}

fn read_optional_bool(list: &Vec<(String, Vec<u8>)>, name: &str) -> (r: Option<Option<bool>>)
    ensures
        r == optional_bool(claim_in(shown_members(list@), name@)),
{
    match read_claim(list, name) {
        Some(None) => Some(None),
        Some(Some(Scalar::Null)) => Some(None),
        Some(Some(Scalar::Bool(b))) => Some(Some(b)),
        _ => None,
    }
}

/// The identity among the members of a payload.
fn read_identity_among(list: &Vec<(String, Vec<u8>)>) -> (r: Option<IdentityClaims>)
    ensures
        shown_claims(r) == identity_among(shown_members(list@)),
{
    let sub = match read_claim(list, "sub") {
        Some(Some(Scalar::Text(sub))) => sub,
        _ => {
            return None;
        },
    };
    let exp: u64 = match read_claim(list, "exp") {
        Some(Some(Scalar::Number(Some(exp)))) => exp,
        _ => {
            return None;
        },
    };
    let preferred_username = match read_optional_text(list, "preferred_username") {
        Some(t) => t,
        None => {
            return None;
        },
    };
    let name = match read_optional_text(list, "name") {
        Some(t) => t,
        None => {
            return None;
        },
    };
    let email = match read_optional_text(list, "email") {
        Some(t) => t,
        None => {
            return None;
        },
    };
    match read_optional_bool(list, "email_verified") {
        Some(email_verified) => Some(
            IdentityClaims { sub, exp, preferred_username, name, email, email_verified },
        ),
        None => None,
    }
}

/// The identity in a payload.
pub fn read_identity(payload: &[u8]) -> (r: Option<IdentityClaims>)
    ensures
        shown_claims(r) == identity_in(payload@),
{
    match read_members(payload) {
        Some(list) => read_identity_among(&list),
        None => None,
    }
}

/// The identity in a token.
pub fn read_token_identity(token: &str) -> (r: Option<IdentityClaims>)
    ensures
        shown_claims(r) == token_identity(token@),
{
    match read_payload(token) {
        Some(p) => read_identity(p.as_slice()),
        None => None,
    }
}

/// The key id that a token asks to be verified with.
pub open spec fn token_key_id(token: Seq<char>) -> Result<Seq<char>, Refusal> {
    match header_key_id(token) {
        Ok(Some(kid)) => Ok(kid),
        Ok(None) => Err(Refusal::Malformed("no kid in header"@)),
        Err(e) => Err(Refusal::Malformed(e)),
    }
}

/// The key of a key set that a token is verified with.
pub open spec fn verifying_key(token: Seq<char>, keys: Seq<Json>) -> Result<KeyMaterial, Refusal> {
    match token_key_id(token) {
        Err(e) => Err(e),
        Ok(kid) => match first_with_id(keys, kid) {
            None => Err(Refusal::UnknownKid(kid)),
            Some(jwk) => match material_of(jwk) {
                Ok(key) => Ok(key),
                Err(e) => Err(Refusal::Jwks("bad jwk "@ + kid + ": "@ + e)),
            },
        },
    }
}

/// What is said of a token whose claims hold no identity.
pub const NO_IDENTITY: &'static str =
    "claims of the wrong type, or named twice, or no sub or exp";

/// What is said of a token that has expired.
pub const EXPIRED: &'static str = "ExpiredSignature";

/// What comes of verifying a token at a time. The signature is looked at first, then
/// the identity in the claims, then whether it has expired, and last the issuer and
/// the audience.
pub open spec fn outcome(
    signature: Result<(), Seq<char>>,
    identity: Option<Claims>,
    addressed: Result<(), Seq<char>>,
    now: u64,
) -> Result<Claims, Refusal> {
    match (signature, identity) {
        (Err(e), _) => Err(Refusal::Invalid(e)),
        (Ok(_), None) => Err(Refusal::Invalid(NO_IDENTITY@)),
        (Ok(_), Some(c)) => if c.exp < now {
            Err(Refusal::Invalid(EXPIRED@))
        } else {
            match addressed {
                Err(e) => Err(Refusal::Invalid(e)),
                Ok(_) => Ok(c),
            }
        },
    }
}

/// What comes of verifying a token with a key at a time, for an issuer and a list of
/// audiences.
pub open spec fn key_verdict(
    token: Seq<char>,
    key: KeyMaterial,
    issuer: Seq<char>,
    audiences: Seq<Seq<char>>,
    now: u64,
) -> Result<Claims, Refusal> {
    outcome(
        checked(token, key),
        token_identity(token),
        addressee(token, key, issuer, audiences),
        now,
    )
}

/// The outcome of verifying a token against a key set at a time: a token that has
/// no key there is refused for that reason; any other is verified with its key.
pub open spec fn verdict(
    token: Seq<char>,
    keys: Seq<Json>,
    issuer: Seq<char>,
    audiences: Seq<Seq<char>>,
    now: u64,
) -> Result<Claims, Refusal> {
    match verifying_key(token, keys) {
        Err(refusal) => Err(refusal),
        Ok(key) => key_verdict(token, key, issuer, audiences, now),
    }
}

/// A token whose signature, issuer and audience check out stands for an
/// identity.
pub open spec fn vouches_for(
    token: Seq<char>,
    key: KeyMaterial,
    issuer: Seq<char>,
    audiences: Seq<Seq<char>>,
    c: Claims,
) -> bool {
    &&& signed_by(token, key)
    &&& fits(token, issuer, audiences)
    &&& token_identity(token) == Some(c)
}

/// A token passes only where the signature, the issuer and the audience check out,
/// and it does pass wherever they do and the registered claims are those of an
/// identity.
pub open spec fn is_sound(
    token: Seq<char>,
    key: KeyMaterial,
    issuer: Seq<char>,
    audiences: Seq<Seq<char>>,
) -> bool {
    &&& checked(token, key) is Ok ==> signed_by(token, key)
    &&& addressee(token, key, issuer, audiences) is Ok ==> fits(token, issuer, audiences)
    &&& signed_by(token, key) && is_registered(token) ==> checked(token, key) is Ok && (addressee(
        token,
        key,
        issuer,
        audiences,
    ) is Ok <==> fits(token, issuer, audiences))
}

/// A key of a key set vouches for the identity in a token.
pub open spec fn keys_vouch(
    keys: Seq<Json>,
    token: Seq<char>,
    issuer: Seq<char>,
    audiences: Seq<Seq<char>>,
    c: Claims,
) -> bool {
    verifying_key(token, keys) matches Ok(key) && vouches_for(token, key, issuer, audiences, c)
}

/// What a check gave.
pub open spec fn told(r: Result<(), String>) -> Result<(), Seq<char>> {
    match r {
        Ok(_) => Ok(()),
        Err(e) => Err(e@),
    }
}

/// What a verification gave.
pub open spec fn shown(r: Result<IdentityClaims, VerifyError>) -> Result<Claims, Refusal> {
    match r {
        Ok(c) => Ok(c@),
        Err(e) => Err(e@),
    }
}

/// The key id that a token asks to be verified with.
fn key_id_of(token: &str) -> (r: Result<String, VerifyError>)
    ensures
        match r {
            Ok(kid) => token_key_id(token@) == Ok::<Seq<char>, Refusal>(kid@),
            Err(e) => token_key_id(token@) == Err::<Seq<char>, Refusal>(e@),
        },
{
    match read_key_id(token) {
        Ok(Some(kid)) => Ok(kid),
        Ok(None) => Err(VerifyError::Malformed("no kid in header".to_owned())),
        Err(e) => Err(VerifyError::Malformed(e)),
    }
}

/// The identity in a token at a time, from what checking its signature gave, the
/// identity in its claims, and what checking its issuer and audience gave.
pub fn identity_from(
    signature: Result<(), String>,
    identity: Option<IdentityClaims>,
    addressed: Result<(), String>,
    now: u64,
) -> (r: Result<IdentityClaims, VerifyError>)
    ensures
        shown(r) == outcome(told(signature), shown_claims(identity), told(addressed), now),
{
    if let Err(e) = signature {
        return Err(VerifyError::Invalid(e));
    }
    match identity {
        None => Err(VerifyError::Invalid(NO_IDENTITY.to_owned())),
        Some(c) => if c.exp < now {
            Err(VerifyError::Invalid(EXPIRED.to_owned()))
        } else {
            match addressed {
                Err(e) => Err(VerifyError::Invalid(e)),
                Ok(_) => Ok(c),
            }
        },
    }
}

/// Verify a token with a key at a time.
fn verify_with_key(
    token: &str,
    key: &DecodingKey,
    issuer: &str,
    audiences: &[String],
    now: u64,
) -> (r: Result<IdentityClaims, VerifyError>)
    ensures
        shown(r) == key_verdict(token@, key_material(*key), issuer@, texts(audiences@), now),
        is_sound(token@, key_material(*key), issuer@, texts(audiences@)),
        signed_by(token@, key_material(*key)) && is_registered(token@) && fits(
            token@,
            issuer@,
            texts(audiences@),
        ) ==> (token_identity(token@) matches Some(c) ==> (now <= c.exp ==> shown(r) == Ok::<
            Claims,
            Refusal,
        >(c))),
        shown(r) matches Ok(c) ==> vouches_for(
            token@,
            key_material(*key),
            issuer@,
            texts(audiences@),
            c,
        ),
{
    let signature = check_signature(token, key);
    let identity = read_token_identity(token);
    let addressed = check_addressee(token, key, issuer, audiences);
    identity_from(signature, identity, addressed, now)
}

/// Verify a token against an already-resolved key set at a time. The algorithm is
/// pinned to RS256 rather than taken from the token header, so a token cannot pick
/// its own.
pub fn verify_with_jwks_at(
    token: &str,
    jwks: &JwkSet,
    issuer: &str,
    audiences: &[String],
    now: u64,
) -> (r: Result<IdentityClaims, VerifyError>)
    ensures
        shown(r) == verdict(token@, key_set(*jwks), issuer@, texts(audiences@), now),
        verifying_key(token@, key_set(*jwks)) matches Ok(key) ==> (signed_by(token@, key)
            && is_registered(token@) && fits(token@, issuer@, texts(audiences@)) ==> (
        token_identity(token@) matches Some(c) ==> (now <= c.exp ==> shown(r) == Ok::<
            Claims,
            Refusal,
        >(c)))),
        verifying_key(token@, key_set(*jwks)) matches Ok(key) ==> is_sound(
            token@,
            key,
            issuer@,
            texts(audiences@),
        ),
        shown(r) matches Ok(c) ==> keys_vouch(
            key_set(*jwks),
            token@,
            issuer@,
            texts(audiences@),
            c,
        ),
{
    let kid = match key_id_of(token) {
        Ok(kid) => kid,
        Err(e) => {
            return Err(e);
        },
    };
    let jwk = match find_key(jwks, kid.as_str()) {
        Some(jwk) => jwk,
        None => {
            return Err(VerifyError::UnknownKid(kid));
        },
    };
    let key = match decoding_key(jwk) {
        Ok(key) => key,
        Err(e) => {
            let mut m = "bad jwk ".to_owned();
            m.append(kid.as_str());
            m.append(": ");
            m.append(e.as_str());
            return Err(VerifyError::Jwks(m));
        },
    };
    verify_with_key(token, &key, issuer, audiences, now)
}

/// Verify a token against an already-resolved key set.
pub fn verify_with_jwks(token: &str, jwks: &JwkSet, issuer: &str, audiences: &[String]) -> (r: Result<
    IdentityClaims,
    VerifyError,
>)
    ensures
        exists|now: u64|
            is_now(now) && shown(r) == #[trigger] verdict(
                token@,
                key_set(*jwks),
                issuer@,
                texts(audiences@),
                now,
            ),
        verifying_key(token@, key_set(*jwks)) matches Ok(key) ==> is_sound(
            token@,
            key,
            issuer@,
            texts(audiences@),
        ),
        shown(r) matches Ok(c) ==> keys_vouch(
            key_set(*jwks),
            token@,
            issuer@,
            texts(audiences@),
            c,
        ),
{
    let now: u64 = now_secs();
    verify_with_jwks_at(token, jwks, issuer, audiences, now)
}

/// The outcome of looking an identity up with what is at hand.
pub enum Lookup<T> {
    /// The outcome is settled.
    Done(Result<T, VerifyError>),
    /// Dex's key set has to be fetched first.
    Fetch,
}

/// What a lookup gave.
pub enum Found {
    Done(Result<Claims, Refusal>),
    Fetch,
}

impl View for Lookup<IdentityClaims> {
    type V = Found;

    open spec fn view(&self) -> Found {
        match *self {
            Lookup::Done(r) => Found::Done(shown(r)),
            Lookup::Fetch => Found::Fetch,
        }
    }
}

/// Verifies tokens that Dex issued.
pub struct DexVerifier {
    issuer: String,
    audiences: Vec<String>,
    jwks: Option<JwkSet>,
}

impl DexVerifier {
    /// The issuer whose tokens are accepted.
    pub closed spec fn issuer(&self) -> Seq<char> {
        self.issuer@
    }

    /// The audiences whose tokens are accepted.
    pub closed spec fn audiences(&self) -> Seq<Seq<char>> {
        texts(self.audiences@)
    }

    /// The key set that was fetched last.
    pub closed spec fn cached(&self) -> Option<Seq<Json>> {
        match self.jwks {
            Some(set) => Some(key_set(set)),
            None => None,
        }
    }

    /// The cached key set has the key that a token asks for.
    pub open spec fn knows(&self, kid: Seq<char>) -> bool {
        self.cached() matches Some(keys) && first_with_id(keys, kid) is Some
    }

    /// `audiences` is every Dex client id whose tokens are accepted: the CLI and
    /// device client, and the web frontend client, which have different `aud`.
    pub fn new(issuer: String, audiences: Vec<String>) -> (r: Self)
        ensures
            r.issuer() == issuer@,
            r.audiences() == texts(audiences@),
            r.cached() is None,
    {
        DexVerifier { issuer, audiences, jwks: None }
    }

    /// The URL of the provider's discovery document.
    pub fn discovery_url(&self) -> (r: String)
        ensures
            r@ == discovery_url_of(self.issuer()),
    {
        discovery_url(self.issuer.as_str())
    }

    /// Verify a Dex bearer token at a time with the cached key set, or ask for a
    /// fetch if the token's key id is not in it.
    pub fn verify_at(&self, token: &str, now: u64) -> (r: Lookup<IdentityClaims>)
        ensures
            r@ == dex_lookup(*self, token@, now),
            r@ matches Found::Done(Ok(c)) ==> dex_vouches(*self, token@, c),
    {
        let kid = match key_id_of(token) {
            Ok(kid) => kid,
            Err(e) => {
                return Lookup::Done(Err(e));
            },
        };
        match &self.jwks {
            Some(jwks) => {
                if find_key(jwks, kid.as_str()).is_some() {
                    return Lookup::Done(
                        verify_with_jwks_at(
                            token,
                            jwks,
                            self.issuer.as_str(),
                            self.audiences.as_slice(),
                            now,
                        ),
                    );
                }
            },
            None => {},
        }
        Lookup::Fetch
    }

    /// Verify a Dex bearer token with the cached key set, or ask for a fetch if
    /// the token's key id is not in it.
    pub fn verify(&self, token: &str) -> (r: Lookup<IdentityClaims>)
        ensures
            exists|now: u64| is_now(now) && r@ == #[trigger] dex_lookup(*self, token@, now),
            r@ matches Found::Done(Ok(c)) ==> dex_vouches(*self, token@, c),
    {
        let now: u64 = now_secs();
        self.verify_at(token, now)
    }

    /// Verify a Dex bearer token at a time with the key set that was fetched for
    /// it, which is kept from now on.
    pub fn verify_fetched_at(
        &mut self,
        token: &str,
        fetched: Result<Value, String>,
        now: u64,
    ) -> (r: Result<IdentityClaims, VerifyError>)
        ensures
            shown(r) == fetched_verdict(*old(self), token@, fetched, now),
            after_fetch(*old(self), *final(self), fetched),
            gives_single_keys(fetched),
            shown(r) matches Ok(c) ==> dex_vouches(*final(self), token@, c),
    {
        let value = match fetched {
            Ok(value) => value,
            Err(m) => {
                return Err(VerifyError::Jwks(m));
            },
        };
        match parse_key_set(&value) {
            Ok(jwks) => {
                let result = verify_with_jwks_at(
                    token,
                    &jwks,
                    self.issuer.as_str(),
                    self.audiences.as_slice(),
                    now,
                );
                self.jwks = Some(jwks);
                result
            },
            Err(e) => Err(VerifyError::Jwks(joined("jwks parse: ", e.as_str()))),
        }
    }

    /// Verify a Dex bearer token with the key set that was fetched for it, which
    /// is kept from now on.
    pub fn verify_fetched(&mut self, token: &str, fetched: Result<Value, String>) -> (r: Result<
        IdentityClaims,
        VerifyError,
    >)
        ensures
            exists|now: u64|
                is_now(now) && shown(r) == #[trigger] fetched_verdict(
                    *old(self),
                    token@,
                    fetched,
                    now,
                ),
            after_fetch(*old(self), *final(self), fetched),
            gives_single_keys(fetched),
            shown(r) matches Ok(c) ==> dex_vouches(*final(self), token@, c),
    {
        let now: u64 = now_secs();
        self.verify_fetched_at(token, fetched, now)
    }
}

/// The key set that a fetch gave.
pub open spec fn fetched_keys(fetched: Result<Value, String>) -> Result<Seq<Json>, Refusal> {
    match fetched {
        Err(m) => Err(Refusal::Jwks(m@)),
        Ok(v) => match parsed_key_set(json_of(v)) {
            Ok(keys) => Ok(keys),
            Err(e) => Err(Refusal::Jwks("jwks parse: "@ + e)),
        },
    }
}

/// A fetch of a key set with one RSA signing key gives that key.
pub open spec fn gives_single_keys(fetched: Result<Value, String>) -> bool {
    forall|kid: Seq<char>, n: Seq<char>, e: Seq<char>|
        (fetched matches Ok(v) && json_of(v) == single_key_set(#[trigger] rsa_jwk(kid, n, e)))
            ==> fetched_keys(fetched) == Ok::<Seq<Json>, Refusal>(seq![rsa_jwk(kid, n, e)])
}

/// The outcome of verifying a Dex token at a time with the cached key set: a token
/// without a key id is malformed; one whose key is not in the set asks for a
/// fetch.
pub open spec fn dex_lookup(dex: DexVerifier, token: Seq<char>, now: u64) -> Found {
    match token_key_id(token) {
        Err(refusal) => Found::Done(Err(refusal)),
        Ok(kid) => if dex.knows(kid) {
            Found::Done(
                verdict(token, dex.cached()->Some_0, dex.issuer(), dex.audiences(), now),
            )
        } else {
            Found::Fetch
        },
    }
}

/// A key of the cached key set vouches for the identity in a token.
pub open spec fn dex_vouches(dex: DexVerifier, token: Seq<char>, c: Claims) -> bool {
    dex.cached() matches Some(keys) && keys_vouch(keys, token, dex.issuer(), dex.audiences(), c)
}

/// The outcome of verifying a Dex token at a time with what was fetched.
pub open spec fn fetched_verdict(
    dex: DexVerifier,
    token: Seq<char>,
    fetched: Result<Value, String>,
    now: u64,
) -> Result<Claims, Refusal> {
    match fetched_keys(fetched) {
        Err(refusal) => Err(refusal),
        Ok(keys) => verdict(token, keys, dex.issuer(), dex.audiences(), now),
    }
}

/// A verifier after a fetch: a key set is kept, whatever it says of the token; a
/// fetch that failed keeps the one that there was.
pub open spec fn after_fetch(
    before: DexVerifier,
    after: DexVerifier,
    fetched: Result<Value, String>,
) -> bool {
    &&& after.issuer() == before.issuer()
    &&& after.audiences() == before.audiences()
    &&& after.cached() == match fetched_keys(fetched) {
        Err(_) => before.cached(),
        Ok(keys) => Some(keys),
    }
}

/// The key that a published key of this service gives.
pub open spec fn own_key(v: Json) -> Result<KeyMaterial, Refusal> {
    match parsed_jwk(v) {
        Err(e) => Err(Refusal::Jwks("own jwk: "@ + e)),
        Ok(jwk) => match material_of(jwk) {
            Ok(key) => Ok(key),
            Err(e) => Err(Refusal::Jwks("own jwk key: "@ + e)),
        },
    }
}

/// Verifies tokens that this service itself signed, with its own public key.
/// Lets it read the subject back out of a token that is handed to it without
/// going to Dex.
pub struct SelfVerifier {
    key: DecodingKey,
    issuer: String,
    audience: String,
}

impl SelfVerifier {
    /// The key that tokens are checked with.
    pub closed spec fn key(&self) -> KeyMaterial {
        key_material(self.key)
    }

    /// The issuer whose tokens are accepted.
    pub closed spec fn issuer(&self) -> Seq<char> {
        self.issuer@
    }

    /// The audience whose tokens are accepted.
    pub closed spec fn audience(&self) -> Seq<char> {
        self.audience@
    }

    pub fn new(own_jwk: &Value, issuer: String, audience: String) -> (r: Result<Self, VerifyError>)
        ensures
            match own_key(json_of(*own_jwk)) {
                Ok(key) => r matches Ok(v) && v.key() == key && v.issuer() == issuer@
                    && v.audience() == audience@,
                Err(refusal) => r matches Err(e) && e@ == refusal,
            },
            forall|kid: Seq<char>, n: Seq<u8>, e: Seq<u8>|
                json_of(*own_jwk) == #[trigger] rsa_jwk(kid, base64url(n), base64url(e)) ==> own_key(
                    json_of(*own_jwk),
                ) == Ok::<KeyMaterial, Refusal>(KeyMaterial::Rsa { n, e }),
    {
        let jwk = match parse_jwk(own_jwk) {
            Ok(jwk) => jwk,
            Err(e) => {
                return Err(VerifyError::Jwks(joined("own jwk: ", e.as_str())));
            },
        };
        match decoding_key(&jwk) {
            Ok(key) => Ok(SelfVerifier { key, issuer, audience }),
            Err(e) => Err(VerifyError::Jwks(joined("own jwk key: ", e.as_str()))),
        }
    }

    /// The identity claims of a token that this service signed, or `None` if it
    /// is not one (wrong signature, issuer or audience, or expired at `now`).
    pub fn claims_at(&self, token: &str, now: u64) -> (r: Option<IdentityClaims>)
        ensures
            shown_claims(r) == own_verdict(*self, token@, now),
            signed_by(token@, self.key()) && is_registered(token@) && fits(
                token@,
                self.issuer(),
                seq![self.audience()],
            ) ==> (token_identity(token@) matches Some(c) ==> (now <= c.exp ==> shown_claims(r)
                == Some(c))),
            is_sound(token@, self.key(), self.issuer(), seq![self.audience()]),
            r matches Some(c) ==> own_vouches(*self, token@, c@),
    {
        let mut audiences: Vec<String> = Vec::new();
        audiences.push(self.audience.clone());
        assert(texts(audiences@) =~= seq![self.audience()]);
        match verify_with_key(
            token,
            &self.key,
            self.issuer.as_str(),
            audiences.as_slice(),
            now,
        ) {
            Ok(c) => Some(c),
            Err(_) => None,
        }
    }

    /// The identity claims of a token that this service signed, or `None` if it
    /// is not one (wrong signature, issuer or audience, or expired).
    pub fn claims(&self, token: &str) -> (r: Option<IdentityClaims>)
        ensures
            exists|now: u64|
                is_now(now) && shown_claims(r) == #[trigger] own_verdict(*self, token@, now),
            is_sound(token@, self.key(), self.issuer(), seq![self.audience()]),
            r matches Some(c) ==> own_vouches(*self, token@, c@),
    {
        let now: u64 = now_secs();
        self.claims_at(token, now)
    }
}

/// The claims that came out, if any.
pub open spec fn shown_claims(r: Option<IdentityClaims>) -> Option<Claims> {
    match r {
        Some(c) => Some(c@),
        None => None,
    }
}

/// The identity in a token that this service signed, unless it has expired at a
/// time.
pub open spec fn own_verdict(v: SelfVerifier, token: Seq<char>, now: u64) -> Option<Claims> {
    match key_verdict(token, v.key(), v.issuer(), seq![v.audience()], now) {
        Ok(c) => Some(c),
        Err(_) => None,
    }
}

/// The key of this service vouches for the identity in a token.
pub open spec fn own_vouches(v: SelfVerifier, token: Seq<char>, c: Claims) -> bool {
    vouches_for(token, v.key(), v.issuer(), seq![v.audience()], c)
}

/// Resolves the authenticated identity from whatever bearer is handed in: a
/// token that this service signed, or a raw Dex identity token. Both are
/// verified; an unverifiable bearer yields an error.
pub struct Identity {
    pub self_verifier: SelfVerifier,
    pub dex: DexVerifier,
}

/// The outcome of looking a bearer up at a time without a fetch: it is a token of
/// this service, or what Dex's verifier makes of it.
pub open spec fn lookup(id: Identity, bearer: Seq<char>, now: u64) -> Found {
    match own_verdict(id.self_verifier, bearer, now) {
        Some(c) => Found::Done(Ok(c)),
        None => dex_lookup(id.dex, bearer, now),
    }
}

/// The key of this service, or one of Dex's, vouches for the identity in a bearer.
pub open spec fn is_vouched_for(id: Identity, bearer: Seq<char>, c: Claims) -> bool {
    own_vouches(id.self_verifier, bearer, c) || dex_vouches(id.dex, bearer, c)
}

impl Identity {
    /// The full identity claims at a time, once the own key was tried: what it
    /// gave, or else what Dex's verifier makes of the bearer.
    pub fn claims_from(&self, own: Option<IdentityClaims>, bearer: &str, now: u64) -> (r: Lookup<
        IdentityClaims,
    >)
        ensures
            match own {
                Some(c) => r matches Lookup::Done(Ok(x)) && x == c,
                None => r@ == dex_lookup(self.dex, bearer@, now) && (r@ matches Found::Done(Ok(c))
                    ==> dex_vouches(self.dex, bearer@, c)),
            },
    {
        match own {
            Some(claims) => Lookup::Done(Ok(claims)),
            None => self.dex.verify_at(bearer, now),
        }
    }

    /// The full identity claims at a time, trying the own key first, then Dex.
    pub fn claims_at(&self, bearer: &str, now: u64) -> (r: Lookup<IdentityClaims>)
        ensures
            r@ == lookup(*self, bearer@, now),
            r@ matches Found::Done(Ok(c)) ==> is_vouched_for(*self, bearer@, c),
    {
        let own = self.self_verifier.claims_at(bearer, now);
        self.claims_from(own, bearer, now)
    }

    /// The full identity claims, trying the own key first, then Dex.
    pub fn claims(&self, bearer: &str) -> (r: Lookup<IdentityClaims>)
        ensures
            exists|now: u64| is_now(now) && r@ == #[trigger] lookup(*self, bearer@, now),
            r@ matches Found::Done(Ok(c)) ==> is_vouched_for(*self, bearer@, c),
    {
        let now: u64 = now_secs();
        self.claims_at(bearer, now)
    }

    /// The subject of a bearer, trying the own key first, then Dex.
    pub fn subject(&self, bearer: &str) -> (r: Lookup<String>)
        ensures
            exists|now: u64|
                is_now(now) && subject_looked_up(#[trigger] lookup(*self, bearer@, now), r),
    {
        match self.claims(bearer) {
            Lookup::Done(x) => Lookup::Done(subject_of(x)),
            Lookup::Fetch => Lookup::Fetch,
        }
    }
}

/// The subject among the claims that came out of a lookup.
pub open spec fn subject_looked_up(f: Found, r: Lookup<String>) -> bool {
    match f {
        Found::Done(x) => r matches Lookup::Done(y) && is_subject_of(x, y),
        Found::Fetch => r is Fetch,
    }
}

/// A subject, or an error, is that of an outcome.
pub open spec fn is_subject_of(x: Result<Claims, Refusal>, y: Result<String, VerifyError>) -> bool {
    match x {
        Ok(c) => y matches Ok(sub) && sub@ == c.sub,
        Err(e) => y matches Err(f) && f@ == e,
    }
}

/// The subject of the claims that came out.
pub fn subject_of(outcome: Result<IdentityClaims, VerifyError>) -> (r: Result<String, VerifyError>)
    ensures
        is_subject_of(shown(outcome), r),
{
    match outcome {
        Ok(c) => Ok(c.sub),
        Err(e) => Err(e),
    }
}

/// A key set is fetched once for a token: unless no key of the fetched set has
/// the token's key id, the token's key is known from then on.
pub proof fn fetched_key_is_known(
    before: DexVerifier,
    after: DexVerifier,
    token: Seq<char>,
    fetched: Result<Value, String>,
    now: u64,
    kid: Seq<char>,
)
    requires
        token_key_id(token) == Ok::<Seq<char>, Refusal>(kid),
        fetched_keys(fetched) is Ok,
        after_fetch(before, after, fetched),
    ensures
        after.knows(kid) || fetched_verdict(before, token, fetched, now) == Err::<Claims, Refusal>(
            Refusal::UnknownKid(kid),
        ),
{
}

/// A token that a key set vouches for is accepted until it expires and refused
/// from then on, whenever it is verified.
pub proof fn acceptance_ends_with_expiry(
    token: Seq<char>,
    keys: Seq<Json>,
    issuer: Seq<char>,
    audiences: Seq<Seq<char>>,
    c: Claims,
    now: u64,
    later: u64,
)
    requires
        verdict(token, keys, issuer, audiences, now) == Ok::<Claims, Refusal>(c),
    ensures
        now <= c.exp,
        verdict(token, keys, issuer, audiences, later) == if later <= c.exp {
            Ok::<Claims, Refusal>(c)
        } else {
            Err(Refusal::Invalid(EXPIRED@))
        },
{
}

}
