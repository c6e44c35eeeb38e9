//! The signing key and the tokens it mints.
//!
//! The auth service is the issuer of the tokens that Lore verifies: the client
//! logs in to the identity provider, exchanges that identity here, and gets a
//! token signed with this service's own key, which carries the per-repository
//! `resources` claim that Lore's authorization requires.
//!
//! The private key is the source of truth, kept as PKCS#8 PEM. The public key is
//! published as one JWK. Its key id is the RFC 7638 thumbprint, so it changes if
//! and only if the key does.
use jsonwebtoken::{Algorithm, EncodingKey, Header};
use rsa::pkcs8::{DecodePrivateKey, EncodePrivateKey, LineEnding};
use rsa::traits::PublicKeyParts;
use rsa::{RsaPrivateKey, RsaPublicKey};
use serde_json::Value;
use vstd::prelude::*;
use vstd::utf8::*;

use crate::auth::jwt::{
    header_key_id, reads_back, rsa_jwk, signed_by, KeyMaterial,
};
use crate::clock::{is_now, now_secs, outcome_with};
use crate::encoding::{base64url, base64url_is_injective, digest_sha256, encode_base64url, sha256};
use crate::json::{
    array_value, bool_value, json_of, jsons, members, object_value, text_value, unsigned_value, Json,
};
use crate::text::texts;

verus! {

/// The size of a generated signing key.
pub const RSA_BITS: usize = 2048;

/// `jsonwebtoken::EncodingKey`, a key that signs tokens.
#[verifier::external_type_specification]
#[verifier::external_body]
pub struct ExEncodingKey(jsonwebtoken::EncodingKey);

/// `rsa::RsaPrivateKey`, an RSA key with its private half.
#[verifier::external_type_specification]
#[verifier::external_body]
pub struct ExRsaPrivateKey(rsa::RsaPrivateKey);

/// The RSA private key in a PKCS#8 PEM text, or why there is none.
pub uninterp spec fn private_key(pem: Seq<char>) -> Result<rsa::RsaPrivateKey, Seq<char>>;

/// The modulus and the exponent of a private key, as big-endian bytes.
pub uninterp spec fn key_parts(key: rsa::RsaPrivateKey) -> (Seq<u8>, Seq<u8>);

/// The PKCS#8 PEM text of a private key, or why it has none.
pub uninterp spec fn key_text(key: rsa::RsaPrivateKey) -> Result<Seq<char>, Seq<char>>;

/// The key that is taken from a PEM text to sign tokens with, or why there is none.
pub uninterp spec fn encoding_key(pem: Seq<char>) -> Result<jsonwebtoken::EncodingKey, Seq<char>>;

/// The modulus and the exponent of the public half of a key that signs tokens, as
/// big-endian bytes.
pub uninterp spec fn public_half(key: jsonwebtoken::EncodingKey) -> (Seq<u8>, Seq<u8>);

/// The token with a key id in its header and these claims, signed with RS256 by a
/// key, or why it cannot be signed.
pub uninterp spec fn signed_token(
    kid: Seq<char>,
    claims: Json,
    key: jsonwebtoken::EncodingKey,
) -> Result<Seq<char>, Seq<char>>;

/// What a token allows on one resource.
#[derive(Debug)]
pub struct ResourceGrant {
    pub resource_id: String,
    pub permission: Vec<String>,
}

/// What a grant holds.
#[verifier::ext_equal]
pub struct GrantView {
    pub resource_id: Seq<char>,
    pub permission: Seq<Seq<char>>,
}

impl View for ResourceGrant {
    type V = GrantView;

    open spec fn view(&self) -> GrantView {
        GrantView { resource_id: self.resource_id@, permission: texts(self.permission@) }
    }
}

/// What a list of grants holds.
pub open spec fn grants_of(list: Seq<ResourceGrant>) -> Seq<GrantView> {
    list.map_values(|g: ResourceGrant| g@)
}

/// Claims of a minted Lore token: the registered claims that Lore's verification
/// reads, the `resources` grant list, and the display claims that the Lore CLI
/// requires when it decodes the token.
#[derive(Debug)]
pub struct MintedClaims {
    pub iss: String,
    pub sub: String,
    pub aud: Vec<String>,
    pub iat: u64,
    pub exp: u64,
    pub name: String,
    pub preferred_username: String,
    pub is_service_account: bool,
    pub resources: Vec<ResourceGrant>,
}

/// A list of texts in JSON.
pub open spec fn texts_json(list: Seq<Seq<char>>) -> Json {
    Json::Array(list.map_values(|t: Seq<char>| Json::Text(t)))
}

/// A grant in JSON.
pub open spec fn grant_json(grant: GrantView) -> Json {
    Json::Object(
        map![
            "resource_id"@ => Json::Text(grant.resource_id),
            "permission"@ => texts_json(grant.permission),
        ],
    )
}

/// The claims of a Lore token in JSON.
pub open spec fn claims_json(
    iss: Seq<char>,
    sub: Seq<char>,
    aud: Seq<Seq<char>>,
    iat: u64,
    exp: u64,
    name: Seq<char>,
    preferred_username: Seq<char>,
    is_service_account: bool,
    resources: Seq<GrantView>,
) -> Json {
    Json::Object(
        map![
            "iss"@ => Json::Text(iss),
            "sub"@ => Json::Text(sub),
            "aud"@ => texts_json(aud),
            "iat"@ => Json::Unsigned(iat),
            "exp"@ => Json::Unsigned(exp),
            "name"@ => Json::Text(name),
            "preferred_username"@ => Json::Text(preferred_username),
            "is_service_account"@ => Json::Bool(is_service_account),
            "resources"@ => Json::Array(resources.map_values(|g: GrantView| grant_json(g))),
        ],
    )
}

/// Minted claims in JSON.
pub open spec fn minted_json(c: MintedClaims) -> Json {
    claims_json(
        c.iss@,
        c.sub@,
        texts(c.aud@),
        c.iat,
        c.exp,
        c.name@,
        c.preferred_username@,
        c.is_service_account,
        grants_of(c.resources@),
    )
}

/// The claims that a Lore token for one audience is minted with at `iat`.
pub open spec fn lore_claims(
    issuer: Seq<char>,
    audience: Seq<char>,
    subject: Seq<char>,
    name: Seq<char>,
    preferred_username: Seq<char>,
    exp: u64,
    resources: Seq<GrantView>,
    iat: u64,
) -> Json {
    claims_json(
        issuer,
        subject,
        seq![audience],
        iat,
        exp,
        name,
        preferred_username,
        false,
        resources,
    )
}

/// `RsaPrivateKey::new` makes a random RSA key of the given size. Nothing is claimed
/// of it. The error is given by its text.
#[verifier::external_body]
pub(crate) fn generate_private_key(bits: usize) -> (r: Result<RsaPrivateKey, String>)
    requires
        bits == RSA_BITS,
{
    RsaPrivateKey::new(&mut rand::thread_rng(), bits).map_err(|e| e.to_string())
}

/// `RsaPrivateKey::from_pkcs8_pem` reads a private key from PEM text. The error is
/// given by its text.
#[verifier::external_body]
fn read_private_key(pem: &str) -> (r: Result<RsaPrivateKey, String>)
    ensures
        match r {
            Ok(key) => private_key(pem@) == Ok::<RsaPrivateKey, Seq<char>>(key),
            Err(e) => private_key(pem@) == Err::<RsaPrivateKey, Seq<char>>(e@),
        },
{
    RsaPrivateKey::from_pkcs8_pem(pem).map_err(|e| e.to_string())
}

/// `RsaPublicKey::from` a private key has its modulus and its exponent.
#[verifier::external_body]
fn public_parts(key: &RsaPrivateKey) -> (r: (Vec<u8>, Vec<u8>))
    ensures
        (r.0@, r.1@) == key_parts(*key),
{
    let public = RsaPublicKey::from(key);
    (public.n().to_bytes_be(), public.e().to_bytes_be())
}

/// `RsaPrivateKey::to_pkcs8_pem` writes a private key, and nothing else, as PEM text.
/// The key that `EncodingKey::from_rsa_pem` takes from that text is the one that was
/// written. The error is given by its text.
#[verifier::external_body]
fn write_private_key(key: &RsaPrivateKey) -> (r: Result<String, String>)
    ensures
        match r {
            Ok(t) => key_text(*key) == Ok::<Seq<char>, Seq<char>>(t@),
            Err(e) => key_text(*key) == Err::<Seq<char>, Seq<char>>(e@),
        },
        r matches Ok(t) ==> (encoding_key(t@) matches Ok(k) && public_half(k) == key_parts(*key)),
{
    key.to_pkcs8_pem(LineEnding::LF).map(|t| t.to_string()).map_err(|e| e.to_string())
}

/// `EncodingKey::from_rsa_pem` takes a key to sign with from PEM text. The error is
/// given by its text.
#[verifier::external_body]
fn read_encoding_key(pem: &str) -> (r: Result<EncodingKey, String>)
    ensures
        match r {
            Ok(key) => encoding_key(pem@) == Ok::<EncodingKey, Seq<char>>(key),
            Err(e) => encoding_key(pem@) == Err::<EncodingKey, Seq<char>>(e@),
        },
{
    EncodingKey::from_rsa_pem(pem.as_bytes()).map_err(|e| e.to_string())
}

/// The key that a signer signs with, where it is built from a PEM text: the private
/// key in it, written down alone and taken from there. Or why there is none.
pub open spec fn signing_key_in(pem: Seq<char>) -> Result<EncodingKey, Seq<char>> {
    match private_key(pem) {
        Err(e) => Err(e),
        Ok(key) => match key_text(key) {
            Err(e) => Err(e),
            Ok(text) => encoding_key(text),
        },
    }
}

/// `jsonwebtoken::encode` signs a token with RS256. What it writes is what is
/// read back: the key id from the header, and the claims of a Lore token from the
/// payload, by `jsonwebtoken::decode` with the public half of the key. The
/// signature is one that the public half verifies. The error is given by its text.
#[verifier::external_body]
fn sign_token(kid: &str, claims: &Value, key: &EncodingKey) -> (r: Result<String, String>)
    ensures
        match r {
            Ok(t) => signed_token(kid@, json_of(*claims), *key) matches Ok(x) && x == t@,
            Err(e) => signed_token(kid@, json_of(*claims), *key) matches Err(x) && x == e@,
        },
        r matches Ok(t) ==> (header_key_id(t@) matches Ok(Some(k)) && k == kid@),
        r matches Ok(t) ==> signed_by(t@, half_material(*key)),
        forall|c: MintedClaims|
            json_of(*claims) == #[trigger] minted_json(c) ==> (r matches Ok(t) ==> reads_back(
                t@,
                half_material(*key),
                minted_json(c),
            )),
{
    let mut header = Header::new(Algorithm::RS256);
    header.kid = Some(kid.to_string());
    jsonwebtoken::encode(&header, claims, key).map_err(|e| e.to_string())
}

/// The key that verifies what a signing key signs.
pub open spec fn half_material(key: EncodingKey) -> KeyMaterial {
    KeyMaterial::Rsa { n: public_half(key).0, e: public_half(key).1 }
}

/// The members of an RSA key in the canonical order of RFC 7638.
pub open spec fn canonical_key(n: Seq<char>, e: Seq<char>) -> Seq<char> {
    "{\"e\":\""@ + e + "\",\"kty\":\"RSA\",\"n\":\""@ + n + "\"}"@
}

/// The RFC 7638 thumbprint of an RSA key.
pub open spec fn thumbprint_of(n: Seq<char>, e: Seq<char>) -> Seq<char> {
    base64url(sha256(encode_utf8(canonical_key(n, e))))
}

/// RFC 7638 JWK thumbprint for an RSA key: SHA-256 of the canonical member
/// ordering (`e`, `kty`, `n`), base64url-encoded.
pub fn thumbprint(n: &str, e: &str) -> (r: String)
    ensures
        r@ == thumbprint_of(n@, e@),
{
    let mut canonical = "{\"e\":\"".to_owned();
    canonical.append(e);
    canonical.append("\",\"kty\":\"RSA\",\"n\":\"");
    canonical.append(n);
    canonical.append("\"}");
    encode_base64url(digest_sha256(canonical.as_str().as_bytes()).as_slice())
}

/// An RSA signing key for RS256 as a JWK.
pub fn build_jwk(kid: &str, n: &str, e: &str) -> (r: Value)
    ensures
        json_of(r) == rsa_jwk(kid@, n@, e@),
{
    let mut list: Vec<(String, Value)> = Vec::new();
    list.push(("alg".to_owned(), text_value("RS256")));
    list.push(("e".to_owned(), text_value(e)));
    list.push(("kid".to_owned(), text_value(kid)));
    list.push(("kty".to_owned(), text_value("RSA")));
    list.push(("n".to_owned(), text_value(n)));
    list.push(("use".to_owned(), text_value("sig")));
    proof {
        reveal_with_fuel(members, 7);
    }
    object_value(list)
}

/// A list of texts as a JSON array.
fn texts_value(list: &Vec<String>) -> (r: Value)
    ensures
        json_of(r) == texts_json(texts(list@)),
{
    let mut items: Vec<Value> = Vec::new();
    let mut i: usize = 0;
    while i < list.len()
        invariant
            i <= list@.len(),
            items@.len() == i,
            forall|k: int| 0 <= k < i ==> json_of(#[trigger] items@[k]) == Json::Text(list@[k]@),
        decreases list@.len() - i,
    {
        items.push(text_value(list[i].as_str()));
        i += 1;
    }
    assert(jsons(items@) =~= texts(list@).map_values(|t: Seq<char>| Json::Text(t)));
    array_value(items)
}

/// A grant as a JSON object.
fn grant_value(grant: &ResourceGrant) -> (r: Value)
    ensures
        json_of(r) == grant_json(grant@),
{
    let mut list: Vec<(String, Value)> = Vec::new();
    list.push(("resource_id".to_owned(), text_value(grant.resource_id.as_str())));
    list.push(("permission".to_owned(), texts_value(&grant.permission)));
    proof {
        reveal_with_fuel(members, 3);
    }
    object_value(list)
}

/// The claims of a Lore token as a JSON object.
fn claims_value(c: &MintedClaims) -> (r: Value)
    ensures
        json_of(r) == minted_json(*c),
{
    let mut grants: Vec<Value> = Vec::new();
    let mut i: usize = 0;
    while i < c.resources.len()
        invariant
            i <= c.resources@.len(),
            grants@.len() == i,
            forall|k: int|
                0 <= k < i ==> json_of(#[trigger] grants@[k]) == grant_json(c.resources@[k]@),
        decreases c.resources@.len() - i,
    {
        grants.push(grant_value(&c.resources[i]));
        i += 1;
    }
    assert(jsons(grants@) =~= grants_of(c.resources@).map_values(|g: GrantView| grant_json(g)));
    let mut list: Vec<(String, Value)> = Vec::new();
    list.push(("iss".to_owned(), text_value(c.iss.as_str())));
    list.push(("sub".to_owned(), text_value(c.sub.as_str())));
    list.push(("aud".to_owned(), texts_value(&c.aud)));
    list.push(("iat".to_owned(), unsigned_value(c.iat)));
    list.push(("exp".to_owned(), unsigned_value(c.exp)));
    list.push(("name".to_owned(), text_value(c.name.as_str())));
    list.push(("preferred_username".to_owned(), text_value(c.preferred_username.as_str())));
    list.push(("is_service_account".to_owned(), bool_value(c.is_service_account)));
    list.push(("resources".to_owned(), array_value(grants)));
    proof {
        reveal_with_fuel(members, 10);
    }
    object_value(list)
}

/// A key, or an error, is what making a key of the size of a signing key gave.
pub closed spec fn is_made(key: Result<RsaPrivateKey, String>) -> bool {
    call_ensures(generate_private_key, (RSA_BITS,), key)
}

/// The outcome of using a key that was just made: a signer for it, with the text that it is
/// written down in, or why there is none.
pub open spec fn made_signer(
    key: Result<RsaPrivateKey, String>,
    r: Result<(Signer, Option<String>), String>,
) -> bool {
    match key {
        Err(m) => r matches Err(e) && e@ == m@,
        Ok(key) => match key_text(key) {
            Err(m) => r matches Err(e) && e@ == m,
            Ok(pem) => match read_error(pem) {
                Some(m) => r matches Err(e) && e@ == m,
                None => r matches Ok((signer, written)) && signer.is_read_from(pem) && (
                written matches Some(text) && text@ == pem),
            },
        },
    }
}

/// The signing key, with the key id and the JWK of its public half.
pub struct Signer {
    encoding_key: EncodingKey,
    pub kid: String,
    own_jwk: Value,
}

impl Signer {
    /// The key that signs.
    pub closed spec fn signing_key(&self) -> EncodingKey {
        self.encoding_key
    }

    /// The key id.
    pub closed spec fn key_id(&self) -> Seq<char> {
        self.kid@
    }

    /// The modulus of the key.
    pub open spec fn modulus(&self) -> Seq<u8> {
        public_half(self.signing_key()).0
    }

    /// The exponent of the key.
    pub open spec fn exponent(&self) -> Seq<u8> {
        public_half(self.signing_key()).1
    }

    /// The key that verifies what the signer signs.
    pub open spec fn public_key(&self) -> KeyMaterial {
        KeyMaterial::Rsa { n: self.modulus(), e: self.exponent() }
    }

    /// The published JWK.
    pub closed spec fn published(&self) -> Json {
        json_of(self.own_jwk)
    }

    /// The key id and the JWK are those of the signing key.
    pub closed spec fn wf(&self) -> bool {
        &&& self.kid@ == thumbprint_of(base64url(self.modulus()), base64url(self.exponent()))
        &&& json_of(self.own_jwk) == rsa_jwk(
            self.kid@,
            base64url(self.modulus()),
            base64url(self.exponent()),
        )
    }

    /// A signer for the key in a PEM text.
    pub open spec fn is_read_from(&self, pem: Seq<char>) -> bool {
        &&& self.wf()
        &&& read_error(pem) is None
        &&& signing_key_in(pem) == Ok::<EncodingKey, Seq<char>>(self.signing_key())
    }

    /// The published JWK is the signing key's, under its key id.
    pub proof fn lemma_published(&self)
        requires
            self.wf(),
        ensures
            self.published() == rsa_jwk(
                self.key_id(),
                base64url(self.modulus()),
                base64url(self.exponent()),
            ),
    {
    }

    /// Use the stored signing key, or generate one on the first run, which is
    /// then to be stored: its PEM text is returned with the signer.
    pub fn load_or_generate(stored: Option<String>) -> (r: Result<(Signer, Option<String>), String>)
        ensures
            stored matches Some(pem) ==> match r {
                Ok((signer, written)) => written is None && signer.is_read_from(pem@),
                Err(e) => read_error(pem@) == Some(e@),
            },
            stored is None ==> (r matches Ok((signer, written)) ==> (written matches Some(pem)
                && signer.is_read_from(pem@))),
            stored is None ==> exists|key: Result<RsaPrivateKey, String>| #[trigger]
                is_made(key) && made_signer(key, r),
    {
        match stored {
            Some(pem) => match Signer::from_pkcs8_pem(pem.as_str()) {
                Ok(signer) => Ok((signer, None)),
                Err(e) => Err(e),
            },
            None => {
                let made = outcome_with(generate_private_key, RSA_BITS);
                assert(is_made(made));
                match made {
                    Ok(key) => match write_private_key(&key) {
                        Ok(pem) => match Signer::from_pkcs8_pem(pem.as_str()) {
                            Ok(signer) => Ok((signer, Some(pem))),
                            Err(e) => Err(e),
                        },
                        Err(e) => Err(e),
                    },
                    Err(e) => Err(e),
                }
            },
        }
    }

    /// Build a signer from a PKCS#8 PEM private key: derives the key id and the
    /// public JWK from the key.
    pub fn from_pkcs8_pem(pem: &str) -> (r: Result<Signer, String>)
        ensures
            match r {
                Ok(signer) => signer.is_read_from(pem@),
                Err(e) => read_error(pem@) == Some(e@),
            },
    {
        let private = match read_private_key(pem) {
            Ok(private) => private,
            Err(e) => {
                return Err(e);
            },
        };
        let written = match write_private_key(&private) {
            Ok(written) => written,
            Err(e) => {
                return Err(e);
            },
        };
        let encoding_key = match read_encoding_key(written.as_str()) {
            Ok(key) => key,
            Err(e) => {
                return Err(e);
            },
        };
        let (modulus, exponent) = public_parts(&private);
        let n = encode_base64url(modulus.as_slice());
        let e = encode_base64url(exponent.as_slice());
        let kid = thumbprint(n.as_str(), e.as_str());
        let own_jwk = build_jwk(kid.as_str(), n.as_str(), e.as_str());
        Ok(Signer { encoding_key, kid, own_jwk })
    }

    /// The public signing key as a single JWK.
    pub fn own_jwk(&self) -> (r: &Value)
        requires
            self.wf(),
        ensures
            json_of(*r) == self.published(),
            json_of(*r) == rsa_jwk(
                self.key_id(),
                base64url(self.modulus()),
                base64url(self.exponent()),
            ),
            self.key_id() == thumbprint_of(base64url(self.modulus()), base64url(self.exponent())),
    {
        &self.own_jwk
    }

    /// Sign claims.
    pub fn sign(&self, claims: &MintedClaims) -> (r: Result<String, String>)
        requires
            self.wf(),
        ensures
            match r {
                Ok(token) => {
                    &&& signed_token(self.key_id(), minted_json(*claims), self.signing_key()) == Ok::<
                        Seq<char>,
                        Seq<char>,
                    >(token@)
                    &&& is_minted(*self, token@, minted_json(*claims))
                },
                Err(e) => signed_token(self.key_id(), minted_json(*claims), self.signing_key()) == Err::<
                    Seq<char>,
                    Seq<char>,
                >(e@),
            },
    {
        let value = claims_value(claims);
        sign_token(self.kid.as_str(), &value, &self.encoding_key)
    }

    /// Mint a Lore token for `subject` (with the display `name` and
    /// `preferred_username` carried from the verified identity), issued now,
    /// carrying the caller-supplied `resources` grants (already scoped to what
    /// the subject is allowed, with per-role permissions), expiring at `exp`.
    pub fn mint(
        &self,
        issuer: &str,
        audience: &str,
        subject: &str,
        name: &str,
        preferred_username: &str,
        exp: u64,
        resources: Vec<ResourceGrant>,
    ) -> (r: Result<String, String>)
        requires
            self.wf(),
        ensures
            exists|iat: u64|
                is_now(iat) && minted(
                    *self,
                    #[trigger] lore_claims(
                        issuer@,
                        audience@,
                        subject@,
                        name@,
                        preferred_username@,
                        exp,
                        grants_of(resources@),
                        iat,
                    ),
                    r,
                ),
    {
        let iat: u64 = now_secs();
        self.mint_at(issuer, audience, subject, name, preferred_username, exp, resources, iat)
    }

    /// Mint a Lore token that is issued at `iat`.
    pub fn mint_at(
        &self,
        issuer: &str,
        audience: &str,
        subject: &str,
        name: &str,
        preferred_username: &str,
        exp: u64,
        resources: Vec<ResourceGrant>,
        iat: u64,
    ) -> (r: Result<String, String>)
        requires
            self.wf(),
        ensures
            minted(
                *self,
                lore_claims(
                    issuer@,
                    audience@,
                    subject@,
                    name@,
                    preferred_username@,
                    exp,
                    grants_of(resources@),
                    iat,
                ),
                r,
            ),
    {
        let mut aud: Vec<String> = Vec::new();
        aud.push(audience.to_owned());
        assert(texts(aud@) =~= seq![audience@]);
        let claims = MintedClaims {
            iss: issuer.to_owned(),
            sub: subject.to_owned(),
            aud,
            iat,
            exp,
            name: name.to_owned(),
            preferred_username: preferred_username.to_owned(),
            is_service_account: false,
            resources,
        };
        self.sign(&claims)
    }
}

/// Why no signer can be built from a PEM text.
pub open spec fn read_error(pem: Seq<char>) -> Option<Seq<char>> {
    match signing_key_in(pem) {
        Err(e) => Some(e),
        Ok(_) => None,
    }
}

/// A token carries these claims, names the signer's key, is signed with it, and is
/// read back with it.
pub open spec fn is_minted(signer: Signer, token: Seq<char>, claims: Json) -> bool {
    &&& header_key_id(token) matches Ok(Some(kid)) && kid == signer.key_id()
    &&& signed_by(token, signer.public_key())
    &&& reads_back(token, signer.public_key(), claims)
}

/// The outcome of minting claims: the signed token, which carries them and names
/// the signer's key, or why it could not be signed.
pub open spec fn minted(signer: Signer, claims: Json, r: Result<String, String>) -> bool {
    match r {
        Ok(token) => {
            &&& signed_token(signer.key_id(), claims, signer.signing_key()) == Ok::<Seq<char>, Seq<char>>(
                token@,
            )
            &&& is_minted(signer, token@, claims)
        },
        Err(e) => signed_token(signer.key_id(), claims, signer.signing_key()) == Err::<Seq<char>, Seq<char>>(
            e@,
        ),
    }
}

/// A key that was made is what the generator of keys gave, for a modulus of 2048 bits.
pub(crate) proof fn made_key_is_generated(key: Result<RsaPrivateKey, String>)
    requires
        is_made(key),
    ensures
        call_ensures(generate_private_key, (2048usize,), key),
{
}

proof fn lemma_no_quote(b: Seq<u8>, i: int)
    requires
        0 <= i < base64url(b).len(),
    ensures
        base64url(b)[i] != '"',
    decreases b.len(),
{
    if b.len() >= 3 && i >= 4 {
        lemma_no_quote(b.skip(3), i - 4);
    }
}

/// Different keys have different canonical texts.
pub proof fn canonical_keys_differ(n1: Seq<u8>, e1: Seq<u8>, n2: Seq<u8>, e2: Seq<u8>)
    requires
        canonical_key(base64url(n1), base64url(e1)) == canonical_key(base64url(n2), base64url(e2)),
    ensures
        n1 == n2,
        e1 == e2,
{
    let (a, b) = (base64url(e1), base64url(e2));
    let (m1, m2) = (base64url(n1), base64url(n2));
    let p = "{\"e\":\""@;
    let q = "\",\"kty\":\"RSA\",\"n\":\""@;
    let r = "\"}"@;
    let s = canonical_key(m1, a);
    reveal_strlit("\",\"kty\":\"RSA\",\"n\":\"");
    if a.len() < b.len() {
        lemma_no_quote(e2, a.len() as int);
    } else if b.len() < a.len() {
        lemma_no_quote(e1, b.len() as int);
    }
    assert(a =~= s.subrange(p.len() as int, (p.len() + a.len()) as int));
    assert(b =~= s.subrange(p.len() as int, (p.len() + b.len()) as int));
    let k = (p.len() + a.len() + q.len()) as int;
    assert(s.len() == k + m2.len() + r.len());
    assert(m1 =~= s.subrange(k, k + m1.len()));
    assert(m2 =~= s.subrange(k, k + m1.len()));
    base64url_is_injective(e1, e2);
    base64url_is_injective(n1, n2);
}

/// The key id changes if and only if the key does, as far as SHA-256 tells the
/// two canonical texts apart.
pub proof fn key_id_changes_with_the_key(a: Signer, b: Signer)
    requires
        a.wf(),
        b.wf(),
        ({
            let x = encode_utf8(canonical_key(base64url(a.modulus()), base64url(a.exponent())));
            let y = encode_utf8(canonical_key(base64url(b.modulus()), base64url(b.exponent())));
            sha256(x) == sha256(y) ==> x == y
        }),
    ensures
        a.key_id() == b.key_id() <==> a.public_key() == b.public_key(),
{
    let s = canonical_key(base64url(a.modulus()), base64url(a.exponent()));
    let t = canonical_key(base64url(b.modulus()), base64url(b.exponent()));
    if a.key_id() == b.key_id() {
        base64url_is_injective(sha256(encode_utf8(s)), sha256(encode_utf8(t)));
        encode_utf8_decode_utf8(s);
        encode_utf8_decode_utf8(t);
        canonical_keys_differ(a.modulus(), a.exponent(), b.modulus(), b.exponent());
    }
}

/// A stored key gives the same key id, the same published key and the same tokens
/// whenever it is loaded.
pub proof fn key_id_is_stable_across_reload(pem: Seq<char>, a: Signer, b: Signer)
    requires
        a.is_read_from(pem),
        b.is_read_from(pem),
    ensures
        a.key_id() == b.key_id(),
        a.published() == b.published(),
        a.public_key() == b.public_key(),
        forall|claims: Json|
            signed_token(a.key_id(), claims, a.signing_key()) == #[trigger] signed_token(
                b.key_id(),
                claims,
                b.signing_key(),
            ),
{
}

}
