//! What is read from loreserver: the repositories that a user may reach.
use vstd::prelude::*;
use vstd::utf8::*;

use crate::text::{hex_digit, hex_digits, push_hex};
use crate::web::authsvc::{bearer, is_header_text};

verus! {

/// The client of loreserver.
pub struct LoreClient {
    endpoint: String,
}

impl LoreClient {
    /// Where loreserver is reached.
    pub closed spec fn address(&self) -> Seq<char> {
        self.endpoint@
    }

    pub fn new(endpoint: String) -> (r: Self)
        ensures
            r.address() == endpoint@,
    {
        LoreClient { endpoint }
    }

    /// Where loreserver is reached.
    pub fn endpoint(&self) -> (r: &str)
        ensures
            r@ == self.address(),
    {
        self.endpoint.as_str()
    }
}

/// A repository, as it is shown to the user.
#[derive(Debug)]
pub struct RepoSummary {
    /// Repository id as lowercase hex (the form that `lore` prints).
    pub id: String,
    pub name: String,
    pub description: String,
    pub default_branch: String,
}

/// A repository, as loreserver describes it.
#[derive(Debug)]
pub struct Repository {
    pub id: Vec<u8>,
    pub name: String,
    pub description: String,
    pub default_branch_name: String,
}

/// A summary shows a repository.
pub open spec fn shows(s: RepoSummary, r: Repository) -> bool {
    &&& s.id@ == hex_text(r.id@)
    &&& s.name@ == r.name@
    &&& s.description@ == r.description@
    &&& s.default_branch@ == r.default_branch_name@
}

/// Add what one message of loreserver's list holds: a repository, or nothing.
pub fn add_repo(repos: &mut Vec<RepoSummary>, message: Option<Repository>)
    ensures
        match message {
            Some(r) => exists|s: RepoSummary| #[trigger]
                shows(s, r) && final(repos)@ == old(repos)@.push(s),
            None => final(repos)@ == old(repos)@,
        },
{
    if let Some(r) = message {
        let s = RepoSummary {
            id: hex(r.id.as_slice()),
            name: r.name,
            description: r.description,
            default_branch: r.default_branch_name,
        };
        assert(shows(s, message->Some_0));
        repos.push(s);
    }
}

/// What a repository-scoped call carries: the bearer, and the repository id as
/// binary metadata.
#[derive(Debug)]
pub struct RepoScope {
    pub authorization: String,
    pub binary: Vec<(&'static str, Vec<u8>)>,
}

/// The binary metadata of a call: names and raw bytes.
pub open spec fn binary_of(list: Seq<(&'static str, Vec<u8>)>) -> Seq<(Seq<char>, Seq<u8>)> {
    list.map_values(|b: (&'static str, Vec<u8>)| (b.0@, b.1@))
}

fn copy_bytes(bytes: &[u8]) -> (r: Vec<u8>)
    ensures
        r@ == bytes@,
{
    let mut out: Vec<u8> = Vec::new();
    out.extend_from_slice(bytes);
    out
}

/// The bearer and the repository-id metadata of a repository-scoped call.
pub fn repo_scope(token: &str, repo_id: &[u8]) -> (r: Result<RepoScope, String>)
    ensures
        if is_header_text("Bearer "@ + token@) {
            r matches Ok(scope) && scope.authorization@ == "Bearer "@ + token@ && binary_of(
                scope.binary@,
            ) == seq![("lore-partition-bin"@, repo_id@), ("urc-repository-id-bin"@, repo_id@)]
        } else {
            r matches Err(e) && e@ == "invalid bearer token"@
        },
{
    let authorization = match bearer(token) {
        Ok(value) => value,
        Err(e) => {
            return Err(e);
        },
    };
    let mut binary: Vec<(&'static str, Vec<u8>)> = Vec::new();
    binary.push(("lore-partition-bin", copy_bytes(repo_id)));
    binary.push(("urc-repository-id-bin", copy_bytes(repo_id)));
    Ok(RepoScope { authorization, binary })
}

/// Bytes as lowercase hex, two digits each.
pub open spec fn hex_text(bytes: Seq<u8>) -> Seq<char>
    decreases bytes.len(),
{
    if bytes.len() == 0 {
        seq![]
    } else {
        hex_text(bytes.drop_last()) + hex_digits(bytes.last() as nat, 2)
    }
}

/// Bytes as lowercase hex, two digits each.
pub fn hex(bytes: &[u8]) -> (r: String)
    ensures
        r@ == hex_text(bytes@),
{
    let mut s = "".to_owned();
    let mut i: usize = 0;
    proof {
        reveal_strlit("");
    }
    while i < bytes.len()
        invariant
            i <= bytes@.len(),
            s@ == hex_text(bytes@.take(i as int)),
        decreases bytes@.len() - i,
    {
        push_hex(&mut s, bytes[i] as u128, 2);
        proof {
            assert(bytes@.take(i + 1).drop_last() =~= bytes@.take(i as int));
        }
        i += 1;
    }
    assert(bytes@.take(i as int) =~= bytes@);
    s
}

/// The value of a hexadecimal digit, in either case.
pub open spec fn digit_value(b: u8) -> Option<u8> {
    if 48 <= b <= 57 {
        Some((b - 48) as u8)
    } else if 65 <= b <= 70 {
        Some((b - 55) as u8)
    } else if 97 <= b <= 102 {
        Some((b - 87) as u8)
    } else {
        None
    }
}

/// The byte that two characters of hex stand for. A plus sign may stand in the
/// place of the first digit.
pub open spec fn pair_value(a: u8, b: u8) -> Option<u8> {
    match (digit_value(a), digit_value(b)) {
        (Some(x), Some(y)) => Some((x * 16 + y) as u8),
        (None, Some(y)) => if a == 43 {
            Some(y)
        } else {
            None
        },
        _ => None,
    }
}

/// The byte that the `k`th pair of bytes stands for.
pub open spec fn pair_at(b: Seq<u8>, k: int) -> Option<u8> {
    pair_value(b[2 * k], b[2 * k + 1])
}

/// The first pair of bytes that stands for no byte does not end within a
/// character.
pub open spec fn breaks_between_chars(b: Seq<u8>) -> bool {
    forall|k: int|
        0 <= k < b.len() / 2 && (forall|j: int| 0 <= j < k ==> #[trigger] pair_at(b, j) is Some)
            && #[trigger] pair_at(b, k) is None ==> is_char_boundary(b, 2 * k + 2)
}

/// What is said of text that holds something else than hex digits.
pub const BAD_HEX: &'static str = "bad hex: invalid digit found in string";

fn read_digit(b: u8) -> (r: Option<u8>)
    ensures
        r == digit_value(b),
{
    if 48 <= b && b <= 57 {
        Some(b - 48)
    } else if 65 <= b && b <= 70 {
        Some(b - 55)
    } else if 97 <= b && b <= 102 {
        Some(b - 87)
    } else {
        None
    }
}

fn read_pair(a: u8, b: u8) -> (r: Option<u8>)
    ensures
        r == pair_value(a, b),
{
    match (read_digit(a), read_digit(b)) {
        (Some(x), Some(y)) => Some(x * 16 + y),
        (None, Some(y)) => if a == 43 {
            Some(y)
        } else {
            None
        },
        _ => None,
    }
}

/// The bytes that hex text stands for.
pub fn from_hex(s: &str) -> (r: Result<Vec<u8>, String>)
    requires
        encode_utf8(s@).len() % 2 == 0 ==> breaks_between_chars(encode_utf8(s@)),
    ensures
        ({
            let b = encode_utf8(s@);
            if b.len() % 2 != 0 {
                r matches Err(e) && e@ == "odd-length hex"@
            } else if forall|k: int| 0 <= k < b.len() / 2 ==> #[trigger] pair_at(b, k) is Some {
                r matches Ok(v) && v@.len() == b.len() / 2 && forall|k: int|
                    0 <= k < v@.len() ==> pair_at(b, k) == Some(#[trigger] v@[k])
            } else {
                r matches Err(e) && e@ == BAD_HEX@
            }
        }),
{
    let b = s.as_bytes();
    if b.len() % 2 != 0 {
        return Err("odd-length hex".to_owned());
    }
    let mut out: Vec<u8> = Vec::new();
    let mut i: usize = 0;
    while i < b.len()
        invariant
            b@ == encode_utf8(s@),
            b@.len() % 2 == 0,
            i <= b@.len(),
            i == 2 * out@.len(),
            forall|k: int| 0 <= k < out@.len() ==> pair_at(b@, k) == Some(#[trigger] out@[k]),
        decreases b@.len() - i,
    {
        match read_pair(b[i], b[i + 1]) {
            Some(x) => {
                out.push(x);
            },
            None => {
                assert(pair_at(b@, out@.len() as int) is None);
                return Err(BAD_HEX.to_owned());
            },
        }
        i += 2;
    }
    assert forall|k: int| 0 <= k < b@.len() / 2 implies #[trigger] pair_at(b@, k) is Some by {
        assert(pair_at(b@, k) == Some(out@[k]));
    }
    Ok(out)
}

proof fn lemma_hex_text_at(bytes: Seq<u8>, k: int)
    requires
        0 <= k < bytes.len(),
    ensures
        hex_text(bytes).len() == 2 * bytes.len(),
        hex_text(bytes)[2 * k] == hex_digit(bytes[k] as nat / 16),
        hex_text(bytes)[2 * k + 1] == hex_digit(bytes[k] as nat % 16),
    decreases bytes.len(),
{
    let init = bytes.drop_last();
    let x = bytes.last() as nat;
    reveal_with_fuel(hex_digits, 3);
    assert(hex_text(init).len() == 2 * init.len()) by {
        if init.len() > 0 {
            lemma_hex_text_at(init, 0);
        }
    }
    if k < init.len() {
        lemma_hex_text_at(init, k);
    }
}

/// The hex text of bytes stands for those bytes: reading it gives back what was
/// written.
pub proof fn hex_reads_back(bytes: Seq<u8>)
    ensures
        encode_utf8(hex_text(bytes)).len() == 2 * bytes.len(),
        forall|k: int|
            0 <= k < bytes.len() ==> #[trigger] pair_at(encode_utf8(hex_text(bytes)), k) == Some(
                bytes[k],
            ),
        breaks_between_chars(encode_utf8(hex_text(bytes))),
{
    let t = hex_text(bytes);
    if bytes.len() > 0 {
        lemma_hex_text_at(bytes, 0);
    }
    assert forall|i: int| 0 <= i < t.len() implies '\0' <= #[trigger] t[i] <= '\u{7f}' by {
        lemma_hex_text_at(bytes, i / 2);
    }
    is_ascii_chars_encode_utf8(t);
    let b = encode_utf8(t);
    assert forall|k: int| 0 <= k < bytes.len() implies #[trigger] pair_at(b, k) == Some(
        bytes[k],
    ) by {
        lemma_hex_text_at(bytes, k);
    }
}

/// Any ASCII text can be read as hex, or refused.
pub proof fn ascii_text_breaks_between_chars(s: Seq<char>)
    requires
        is_ascii_chars(s),
    ensures
        breaks_between_chars(encode_utf8(s)),
{
    let b = encode_utf8(s);
    is_ascii_chars_encode_utf8(s);
    encode_utf8_valid_utf8(s);
    assert forall|k: int|
        0 <= k < b.len() / 2 && (forall|j: int| 0 <= j < k ==> #[trigger] pair_at(b, j) is Some)
            && #[trigger] pair_at(b, k) is None implies is_char_boundary(b, 2 * k + 2) by {
        is_char_boundary_start_end_of_seq(b);
        if 2 * k + 2 < b.len() {
            is_char_boundary_iff_not_is_continuation_byte(b, 2 * k + 2);
        }
    }
}

/// A summary shows the repository's name, description and default branch, and its id
/// such that it reads back.
pub proof fn summary_shows_the_repository(s: RepoSummary, r: Repository)
    requires
        shows(s, r),
    ensures
        s.name@ == r.name@,
        s.description@ == r.description@,
        s.default_branch@ == r.default_branch_name@,
        encode_utf8(s.id@).len() == 2 * r.id@.len(),
        forall|k: int|
            0 <= k < r.id@.len() ==> #[trigger] pair_at(encode_utf8(s.id@), k) == Some(r.id@[k]),
        forall|i: int|
            0 <= i < s.id@.len() ==> ('0' <= #[trigger] s.id@[i] <= '9' || 'a' <= s.id@[i] <= 'f'),
{
    hex_reads_back(r.id@);
    let t = hex_text(r.id@);
    if r.id@.len() > 0 {
        lemma_hex_text_at(r.id@, 0);
    }
    assert forall|i: int| 0 <= i < t.len() implies ('0' <= #[trigger] t[i] <= '9' || 'a' <= t[i]
        <= 'f') by {
        lemma_hex_text_at(r.id@, i / 2);
    }
}

/// The value of a hexadecimal digit is that of its place among the digits, and is the
/// same in either case. No other character has one.
pub proof fn hex_digits_have_their_values(b: u8)
    ensures
        48 <= b <= 57 ==> digit_value(b) == Some((b - 48) as u8),
        97 <= b <= 102 ==> digit_value(b) == Some((b - 97 + 10) as u8) && digit_value(
            (b - 32) as u8,
        ) == digit_value(b),
        digit_value(b) is Some ==> 48 <= b <= 57 || 65 <= b <= 70 || 97 <= b <= 102,
{
}

/// Two digits stand for sixteen times the first and the second. A plus sign counts as
/// nothing in the first place, and nothing else but digits counts.
pub proof fn two_digits_make_a_byte(a: u8, b: u8)
    ensures
        digit_value(a) is Some && digit_value(b) is Some ==> (pair_value(a, b) matches Some(x) && x
            == 16 * digit_value(a)->Some_0 + digit_value(b)->Some_0),
        digit_value(b) is None ==> pair_value(a, b) is None,
        a == 43 ==> pair_value(a, b) == digit_value(b),
        a != 43 && digit_value(a) is None ==> pair_value(a, b) is None,
{
}

/// The binary metadata of a call is its names and bytes, in order.
pub proof fn metadata_is_names_and_bytes(list: Seq<(&'static str, Vec<u8>)>)
    ensures
        binary_of(list).len() == list.len(),
        forall|i: int|
            0 <= i < list.len() ==> (#[trigger] binary_of(list)[i]).0 == list[i].0@ && binary_of(
                list,
            )[i].1 == list[i].1@,
{
}

}
