//! Digests, base64url and random values.
use base64::engine::general_purpose::URL_SAFE_NO_PAD;
use base64::Engine;
use sha2::{Digest, Sha256};
use vstd::prelude::*;

use crate::clock::outcome_of;
use crate::text::{
    hex_digits, hex_digits_read_back, hex_value, lemma_hex_digits_injective, lemma_hex_digits_len,
    push_hex,
};

verus! {

/// The base64url character of the six-bit value `d`.
pub open spec fn base64url_digit(d: int) -> char {
    if d < 26 {
        (65 + d) as char
    } else if d < 52 {
        (97 + (d - 26)) as char
    } else if d < 62 {
        (48 + (d - 52)) as char
    } else if d == 62 {
        '-'
    } else {
        '_'
    }
}

/// The base64url encoding of bytes, without padding: every three bytes are four
/// digits of six bits, most significant first, and what is left at the end is
/// filled up with zero bits.
pub open spec fn base64url(b: Seq<u8>) -> Seq<char>
    decreases b.len(),
{
    if b.len() == 0 {
        seq![]
    } else if b.len() == 1 {
        seq![base64url_digit(b[0] as int / 4), base64url_digit((b[0] as int % 4) * 16)]
    } else if b.len() == 2 {
        seq![
            base64url_digit(b[0] as int / 4),
            base64url_digit((b[0] as int % 4) * 16 + b[1] as int / 16),
            base64url_digit((b[1] as int % 16) * 4),
        ]
    } else {
        seq![
            base64url_digit(b[0] as int / 4),
            base64url_digit((b[0] as int % 4) * 16 + b[1] as int / 16),
            base64url_digit((b[1] as int % 16) * 4 + b[2] as int / 64),
            base64url_digit(b[2] as int % 64),
        ] + base64url(b.skip(3))
    }
}

/// `URL_SAFE_NO_PAD.encode` writes the base64url encoding of the bytes, without
/// padding.
#[verifier::external_body]
pub(crate) fn encode_base64url(bytes: &[u8]) -> (r: String)
    ensures
        r@ == base64url(bytes@),
{
    URL_SAFE_NO_PAD.encode(bytes)
}

/// The bytes that a text is the base64url encoding of.
pub open spec fn unbase64url(s: Seq<char>) -> Option<Seq<u8>> {
    if exists|b: Seq<u8>| #[trigger] base64url(b) == s {
        Some(choose|b: Seq<u8>| #[trigger] base64url(b) == s)
    } else {
        None
    }
}

/// `URL_SAFE_NO_PAD.decode` gives the bytes that a text is the base64url encoding of,
/// and an error for every text that is not exactly the encoding of some bytes.
#[verifier::external_body]
fn decode_base64url(s: &str) -> (r: Option<Vec<u8>>)
    ensures
        match r {
            Some(b) => base64url(b@) == s@,
            None => forall|b: Seq<u8>| #[trigger] base64url(b) != s@,
        },
{
    URL_SAFE_NO_PAD.decode(s).ok()
}

/// The bytes that a text is the base64url encoding of.
pub fn from_base64url(s: &str) -> (r: Option<Vec<u8>>)
    ensures
        match r {
            Some(b) => unbase64url(s@) == Some(b@),
            None => unbase64url(s@) is None,
        },
{
    let r = decode_base64url(s);
    proof {
        if r is Some {
            assert(base64url(r->Some_0@) == s@);
            base64url_is_injective(unbase64url(s@)->Some_0, r->Some_0@);
        }
    }
    r
}

/// The SHA-256 digest of bytes.
pub uninterp spec fn sha256(bytes: Seq<u8>) -> Seq<u8>;

/// `Sha256::digest` computes the SHA-256 digest of the bytes, which has 32 bytes.
#[verifier::external_body]
pub(crate) fn digest_sha256(bytes: &[u8]) -> (r: Vec<u8>)
    ensures
        r@ == sha256(bytes@),
        r@.len() == 32,
{
    Sha256::digest(bytes).to_vec()
}

/// `rand::random` draws a number. Nothing is claimed of it.
#[verifier::external_body]
pub(crate) fn random_u128() -> u128 {
    rand::random::<u128>()
}

/// `rand::random` draws 32 bytes. Nothing is claimed of their values.
#[verifier::external_body]
pub(crate) fn random_bytes() -> [u8; 32] {
    rand::random::<[u8; 32]>()
}

/// A number was drawn.
pub closed spec fn is_drawn(x: u128) -> bool {
    call_ensures(random_u128, (), x)
}

/// Bytes were drawn.
pub closed spec fn are_drawn(bytes: [u8; 32]) -> bool {
    call_ensures(random_bytes, (), bytes)
}

/// Draw a number.
pub fn draw_number() -> (r: u128)
    ensures
        is_drawn(r),
{
    outcome_of(random_u128)
}

/// Draw 32 bytes.
pub fn draw_bytes() -> (r: [u8; 32])
    ensures
        are_drawn(r),
{
    outcome_of(random_bytes)
}

/// What is drawn comes from the generator of random values.
pub(crate) proof fn drawn_values_are_random(x: u128, bytes: [u8; 32])
    requires
        call_ensures(draw_number, (), x),
        call_ensures(draw_bytes, (), bytes),
    ensures
        call_ensures(random_u128, (), x),
        call_ensures(random_bytes, (), bytes),
{
}

/// The id that a drawn number stands for.
pub open spec fn id_of(x: u128) -> Seq<char> {
    hex_digits(x as nat, 32)
}

/// The id that a drawn number stands for: its 32 hexadecimal digits.
pub fn id_from(x: u128) -> (r: String)
    ensures
        r@ == id_of(x),
{
    let mut s = "".to_owned();
    push_hex(&mut s, x, 32);
    proof {
        reveal_strlit("");
    }
    s
}

/// Different numbers stand for different ids.
pub proof fn ids_differ(x: u128, y: u128)
    requires
        id_of(x) == id_of(y),
    ensures
        x == y,
{
    assert(vstd::arithmetic::power::pow(16, 32) == 0x1_0000_0000_0000_0000_0000_0000_0000_0000)
        by {
        reveal_with_fuel(vstd::arithmetic::power::pow, 33);
    }
    lemma_hex_digits_injective(x as nat, y as nat, 32);
}

/// An id has 32 characters.
pub proof fn ids_have_32_digits(x: u128)
    ensures
        id_of(x).len() == 32,
{
    lemma_hex_digits_len(x as nat, 32);
}

pub proof fn lemma_base64url_len(b: Seq<u8>)
    ensures
        base64url(b).len() == (b.len() * 4 + 2) / 3,
    decreases b.len(),
{
    if b.len() >= 3 {
        lemma_base64url_len(b.skip(3));
    }
}

/// Different bytes have different encodings.
pub proof fn base64url_is_injective(a: Seq<u8>, b: Seq<u8>)
    requires
        base64url(a) == base64url(b),
    ensures
        a == b,
    decreases a.len(),
{
    lemma_base64url_len(a);
    lemma_base64url_len(b);
    assert(a.len() == b.len());
    let x = base64url(a);
    let y = base64url(b);
    if a.len() > 0 {
        assert(x[0] == base64url_digit(a[0] as int / 4) && y[0] == base64url_digit(b[0] as int / 4));
        if a.len() > 1 {
            assert(x[0] == y[0] && x[1] == y[1] && x[2] == y[2]);
            if a.len() > 2 {
                assert(x[3] == y[3]);
                assert(x.skip(4) =~= base64url(a.skip(3)));
                assert(y.skip(4) =~= base64url(b.skip(3)));
                base64url_is_injective(a.skip(3), b.skip(3));
                assert(b =~= seq![b[0], b[1], b[2]] + b.skip(3));
            }
        }
    }
}

/// What was encoded is what is decoded, and a text that encodes nothing gives nothing.
pub proof fn base64url_reads_back(b: Seq<u8>, s: Seq<char>)
    ensures
        unbase64url(base64url(b)) == Some(b),
        unbase64url(s) matches Some(x) ==> base64url(x) == s,
{
    let t = base64url(b);
    assert(base64url(b) == t);
    base64url_is_injective(unbase64url(t)->Some_0, b);
}

/// Three bytes are four digits of six bits each, whose values make up the same number;
/// what comes after them is encoded alike.
pub proof fn base64url_keeps_the_bits(a: u8, b: u8, c: u8, rest: Seq<u8>)
    ensures
        base64url(seq![a, b, c] + rest).len() == 4 + base64url(rest).len(),
        base64url(seq![a, b, c] + rest).skip(4) == base64url(rest),
        exists|w: int, x: int, y: int, z: int|
            #![trigger base64url_digit(w), base64url_digit(x), base64url_digit(y), base64url_digit(z)]
            {
                &&& 0 <= w < 64 && 0 <= x < 64 && 0 <= y < 64 && 0 <= z < 64
                &&& ((w * 64 + x) * 64 + y) * 64 + z == (a * 256 + b) * 256 + c
                &&& base64url(seq![a, b, c] + rest).take(4) == seq![
                    base64url_digit(w),
                    base64url_digit(x),
                    base64url_digit(y),
                    base64url_digit(z),
                ]
            },
{
    let all = seq![a, b, c] + rest;
    assert(all.skip(3) =~= rest);
    assert(base64url(all).skip(4) =~= base64url(rest));
    let w = a as int / 4;
    let x = (a as int % 4) * 16 + b as int / 16;
    let y = (b as int % 16) * 4 + c as int / 64;
    let z = c as int % 64;
    assert(base64url(all).take(4) =~= seq![
        base64url_digit(w),
        base64url_digit(x),
        base64url_digit(y),
        base64url_digit(z),
    ]);
}

/// An id reads back as the number that it stands for: 32 lowercase hexadecimal digits.
pub proof fn id_reads_back(x: u128)
    ensures
        id_of(x).len() == 32,
        hex_value(id_of(x)) == x,
        forall|i: int|
            0 <= i < 32 ==> ('0' <= #[trigger] id_of(x)[i] <= '9' || 'a' <= id_of(x)[i] <= 'f'),
{
    assert(vstd::arithmetic::power::pow(16, 32) == 0x1_0000_0000_0000_0000_0000_0000_0000_0000)
        by {
        reveal_with_fuel(vstd::arithmetic::power::pow, 33);
    }
    hex_digits_read_back(x as nat, 32);
}

}
