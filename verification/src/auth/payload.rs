//! The payload of a token: the JSON object of its claims.
//!
//! A claim is read out of the object by its name. A claim that is named twice is
//! told from one that is not, and claims that nobody asks for are passed over,
//! whatever they hold.
use vstd::prelude::*;
use vstd::slice::{slice_subrange, slice_to_vec};

use crate::encoding::{from_base64url, unbase64url};
use crate::json::{
    member_of, parsed, read_scalar, read_text_at, shows, skip_value, text_at, value_end, Json, Scalar,
};
use crate::text::{chars_of, same_text};

verus! {

/// Where the last dot of a text is, or -1.
pub open spec fn last_dot(s: Seq<char>) -> int
    decreases s.len(),
{
    if s.len() == 0 {
        -1
    } else if s.last() == '.' {
        s.len() - 1
    } else {
        last_dot(s.drop_last())
    }
}

/// The payload part of a token: what stands between its last two dots.
pub open spec fn payload_part(token: Seq<char>) -> Option<Seq<char>> {
    let end = last_dot(token);
    let start = last_dot(token.take(end));
    if end >= 0 && start >= 0 {
        Some(token.subrange(start + 1, end))
    } else {
        None
    }
}

/// The bytes of a token's payload.
pub open spec fn payload(token: Seq<char>) -> Option<Seq<u8>> {
    match payload_part(token) {
        Some(part) => unbase64url(part),
        None => None,
    }
}

/// The last dot among the first `end` characters.
fn find_dot(a: &Vec<char>, end: usize) -> (r: Option<usize>)
    requires
        end <= a@.len(),
    ensures
        match r {
            Some(i) => i < end && last_dot(a@.take(end as int)) == i,
            None => last_dot(a@.take(end as int)) == -1,
        },
{
    let mut i: usize = end;
    while i > 0
        invariant
            i <= end <= a@.len(),
            last_dot(a@.take(i as int)) == last_dot(a@.take(end as int)),
        decreases i,
    {
        assert(a@.take(i as int).drop_last() =~= a@.take(i - 1));
        i -= 1;
        if a[i] == '.' {
            return Some(i);
        }
    }
    None
}

/// The bytes of a token's payload.
pub fn read_payload(token: &str) -> (r: Option<Vec<u8>>)
    ensures
        match r {
            Some(p) => payload(token@) == Some(p@),
            None => payload(token@) is None,
        },
{
    let a = chars_of(token);
    assert(a@.take(a@.len() as int) =~= a@);
    let end: usize = match find_dot(&a, a.len()) {
        Some(i) => i,
        None => {
            return None;
        },
    };
    match find_dot(&a, end) {
        Some(start) => from_base64url(token.substring_char(start + 1, end)),
        None => None,
    }
}

/// The opening brace of a JSON object.
pub const OPEN: u8 = 123;

/// The closing brace of a JSON object.
pub const CLOSE: u8 = 125;

/// The comma between the members of a JSON object.
pub const COMMA: u8 = 44;

/// The colon between the name of a member and its value.
pub const COLON: u8 = 58;

/// The white space of JSON: space, line feed, carriage return and tab.
pub open spec fn is_space(b: u8) -> bool {
    b == 32 || b == 10 || b == 13 || b == 9
}

/// What follows the white space at the start of a text.
pub open spec fn past_space(p: Seq<u8>) -> Seq<u8>
    decreases p.len(),
{
    if p.len() > 0 && is_space(p[0]) {
        past_space(p.skip(1))
    } else {
        p
    }
}

/// A member of a JSON object, by its name and the text of its value, and what
/// follows it after white space.
pub open spec fn next_member(p: Seq<u8>) -> Option<((Seq<char>, Seq<u8>), Seq<u8>)> {
    match text_at(p) {
        Some((name, n)) => if 0 < n <= p.len() {
            let q = past_space(p.skip(n));
            if q.len() > 0 && q[0] == COLON {
                let v = q.skip(1);
                match value_end(v) {
                    Some(m) => if 0 < m <= v.len() {
                        Some(((name, v.take(m)), past_space(v.skip(m))))
                    } else {
                        None
                    },
                    None => None,
                }
            } else {
                None
            }
        } else {
            None
        },
        None => None,
    }
}

/// A text that closes an object and then ends.
pub open spec fn closes(p: Seq<u8>) -> bool {
    p.len() > 0 && p[0] == CLOSE && past_space(p.skip(1)).len() == 0
}

/// The members of a JSON object from one on, in their order: more of them come
/// after a comma, and none after the closing brace, which ends the text.
pub open spec fn members_from(p: Seq<u8>) -> Option<Seq<(Seq<char>, Seq<u8>)>>
    decreases p.len(),
{
    match next_member(p) {
        None => None,
        Some((member, rest)) => {
            proof {
                lemma_next_member_shrinks(p);
            }
            if rest.len() > 0 && rest[0] == COMMA {
                match members_from(rest.skip(1)) {
                    Some(others) => Some(seq![member] + others),
                    None => None,
                }
            } else if closes(rest) {
                Some(seq![member])
            } else {
                None
            }
        },
    }
}

/// The members of a JSON object, in their order.
pub open spec fn members_in(p: Seq<u8>) -> Option<Seq<(Seq<char>, Seq<u8>)>> {
    let q = past_space(p);
    if q.len() == 0 || q[0] != OPEN {
        None
    } else if closes(past_space(q.skip(1))) {
        Some(seq![])
    } else {
        members_from(q.skip(1))
    }
}

proof fn lemma_past_space_shrinks(p: Seq<u8>)
    ensures
        past_space(p).len() <= p.len(),
    decreases p.len(),
{
    if p.len() > 0 && is_space(p[0]) {
        lemma_past_space_shrinks(p.skip(1));
    }
}

/// What follows a member is shorter than what it was read from.
pub proof fn lemma_next_member_shrinks(p: Seq<u8>)
    ensures
        next_member(p) matches Some((_, rest)) ==> rest.len() < p.len(),
{
    if let Some((_, n)) = text_at(p) {
        if 0 < n <= p.len() {
            let q = past_space(p.skip(n));
            lemma_past_space_shrinks(p.skip(n));
            if q.len() > 0 {
                if let Some(m) = value_end(q.skip(1)) {
                    if 0 < m <= q.skip(1).len() {
                        lemma_past_space_shrinks(q.skip(1).skip(m));
                    }
                }
            }
        }
    }
}

/// The texts of the values that a list of members has under a name.
pub open spec fn values_of(list: Seq<(Seq<char>, Seq<u8>)>, name: Seq<char>) -> Seq<Seq<u8>>
    decreases list.len(),
{
    if list.len() == 0 {
        seq![]
    } else if list.last().0 == name {
        values_of(list.drop_last(), name).push(list.last().1)
    } else {
        values_of(list.drop_last(), name)
    }
}

/// The claim with a name: `Some(None)` where there is none, and `None` where it is
/// named twice or its value cannot be held.
pub open spec fn claim_in(list: Seq<(Seq<char>, Seq<u8>)>, name: Seq<char>) -> Option<
    Option<Json>,
> {
    let values = values_of(list, name);
    if values.len() == 0 {
        Some(None)
    } else if values.len() == 1 {
        match parsed(values[0]) {
            Some(v) => Some(Some(v)),
            None => None,
        }
    } else {
        None
    }
}

/// The claim with a name in a token, as `claim_in` gives it; `None` too where the
/// token's payload is no JSON object.
pub open spec fn token_claim(token: Seq<char>, name: Seq<char>) -> Option<Option<Json>> {
    match payload(token) {
        Some(p) => match members_in(p) {
            Some(list) => claim_in(list, name),
            None => None,
        },
        None => None,
    }
}

/// A token carries these claims, each once, and no others.
pub open spec fn carries(token: Seq<char>, claims: Json) -> bool {
    &&& payload(token) matches Some(p) && members_in(p) is Some
    &&& forall|name: Seq<char>| #[trigger] token_claim(token, name) == Some(member_of(claims, name))
}

/// What a list of members holds.
pub open spec fn shown_members(list: Seq<(String, Vec<u8>)>) -> Seq<(Seq<char>, Seq<u8>)> {
    list.map_values(|m: (String, Vec<u8>)| (m.0@, m.1@))
}

fn skip_space(p: &[u8], from: usize) -> (r: usize)
    requires
        from <= p@.len(),
    ensures
        from <= r <= p@.len(),
        p@.skip(r as int) == past_space(p@.skip(from as int)),
{
    let mut i: usize = from;
    while i < p.len() && (p[i] == 32 || p[i] == 10 || p[i] == 13 || p[i] == 9)
        invariant
            from <= i <= p@.len(),
            past_space(p@.skip(i as int)) == past_space(p@.skip(from as int)),
        decreases p@.len() - i,
    {
        assert(p@.skip(i as int).skip(1) =~= p@.skip(i + 1));
        i += 1;
    }
    i
}

fn read_member(p: &[u8], from: usize) -> (r: Option<((String, Vec<u8>), usize)>)
    requires
        from <= p@.len(),
    ensures
        match r {
            Some((m, next)) => from < next <= p@.len() && next_member(p@.skip(from as int)) == Some(
                ((m.0@, m.1@), p@.skip(next as int)),
            ),
            None => next_member(p@.skip(from as int)) is None,
        },
{
    let len: usize = p.len();
    assert(p@.skip(from as int) =~= p@.subrange(from as int, len as int));
    let (name, n) = match read_text_at(slice_subrange(p, from, len)) {
        Some(x) => x,
        None => {
            return None;
        },
    };
    assert(p@.skip(from as int).skip(n as int) =~= p@.skip(from + n));
    let i: usize = skip_space(p, from + n);
    if i >= len || p[i] != COLON {
        return None;
    }
    let v: usize = i + 1;
    assert(p@.skip(i as int).skip(1) =~= p@.skip(v as int));
    assert(p@.skip(v as int) =~= p@.subrange(v as int, len as int));
    let m: usize = match skip_value(slice_subrange(p, v, len)) {
        Some(m) => m,
        None => {
            return None;
        },
    };
    let value = slice_to_vec(slice_subrange(p, v, v + m));
    assert(value@ =~= p@.skip(v as int).take(m as int));
    assert(p@.skip(v as int).skip(m as int) =~= p@.skip(v + m));
    let next: usize = skip_space(p, v + m);
    Some(((name, value), next))
}

/// Whether the object is closed at `from` and the text ends there.
fn closed_at(p: &[u8], from: usize) -> (r: bool)
    requires
        from <= p@.len(),
    ensures
        r == closes(p@.skip(from as int)),
{
    if from >= p.len() || p[from] != CLOSE {
        return false;
    }
    assert(p@.skip(from as int).skip(1) =~= p@.skip(from + 1));
    skip_space(p, from + 1) == p.len()
}

/// The members of a JSON object, in their order.
pub fn read_members(p: &[u8]) -> (r: Option<Vec<(String, Vec<u8>)>>)
    ensures
        match r {
            Some(list) => members_in(p@) == Some(shown_members(list@)),
            None => members_in(p@) is None,
        },
{
    assert(p@.skip(0) =~= p@);
    let mut list: Vec<(String, Vec<u8>)> = Vec::new();
    assert(shown_members(list@) =~= seq![]);
    let open: usize = skip_space(p, 0);
    if open >= p.len() || p[open] != OPEN {
        return None;
    }
    let mut i: usize = open + 1;
    assert(p@.skip(open as int).skip(1) =~= p@.skip(i as int));
    let first: usize = skip_space(p, i);
    if closed_at(p, first) {
        return Some(list);
    }
    let ghost start = p@.skip(i as int);
    loop
        invariant
            i <= p@.len(),
            members_in(p@) == members_from(start),
            match members_from(p@.skip(i as int)) {
                Some(others) => members_from(start) == Some(shown_members(list@) + others),
                None => members_from(start) is None,
            },
        decreases p@.len() - i,
    {
        let ghost before = shown_members(list@);
        let (member, next) = match read_member(p, i) {
            Some(x) => x,
            None => {
                return None;
            },
        };
        let ghost shown = (member.0@, member.1@);
        list.push(member);
        assert(shown_members(list@) =~= before.push(shown));
        if next < p.len() && p[next] == COMMA {
            assert(p@.skip(next as int).skip(1) =~= p@.skip(next + 1));
            proof {
                if let Some(others) = members_from(p@.skip(next + 1)) {
                    assert(before + (seq![shown] + others) =~= shown_members(list@) + others);
                }
            }
            i = next + 1;
        } else if closed_at(p, next) {
            assert(before + seq![shown] =~= shown_members(list@));
            return Some(list);
        } else {
            return None;
        }
    }
}

/// The claim with a name: `Some(None)` where there is none, and `None` where it is
/// named twice or its value cannot be held.
pub fn read_claim(list: &Vec<(String, Vec<u8>)>, name: &str) -> (r: Option<Option<Scalar>>)
    ensures
        match claim_in(shown_members(list@), name@) {
            Some(Some(v)) => r matches Some(Some(s)) && shows(s, v),
            Some(None) => r matches Some(None),
            None => r is None,
        },
{
    let ghost all = shown_members(list@);
    let mut at: Option<usize> = None;
    let mut twice = false;
    let mut i: usize = 0;
    while i < list.len()
        invariant
            i <= list@.len(),
            all == shown_members(list@),
            twice <==> values_of(all.take(i as int), name@).len() > 1,
            match at {
                Some(k) => k < list@.len() && (!twice ==> values_of(all.take(i as int), name@)
                    =~= seq![list@[k as int].1@]),
                None => values_of(all.take(i as int), name@).len() == 0,
            },
        decreases list@.len() - i,
    {
        assert(all.take(i + 1).drop_last() =~= all.take(i as int));
        assert(all.take(i + 1).last() == (list@[i as int].0@, list@[i as int].1@));
        if same_text(list[i].0.as_str(), name) {
            if at.is_some() {
                twice = true;
            }
            at = Some(i);
        }
        i += 1;
    }
    assert(all.take(i as int) =~= all);
    if twice {
        return None;
    }
    match at {
        Some(k) => match read_scalar(list[k].1.as_slice()) {
            Some(s) => Some(Some(s)),
            None => None,
        },
        None => Some(None),
    }
}

}
