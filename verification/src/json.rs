//! JSON values, as `serde_json` holds them.
use serde::de::IgnoredAny;
use serde_json::Value;
use vstd::prelude::*;
use vstd::utf8::*;

verus! {

/// `serde_json::Value`, a JSON value.
#[verifier::external_type_specification]
#[verifier::external_body]
pub struct ExValue(serde_json::Value);

/// What a JSON value is.
pub enum Json {
    Null,
    Bool(bool),
    /// A whole number from 0 to `u64::MAX`.
    Unsigned(u64),
    /// Any other number, by its text.
    Number(Seq<char>),
    Text(Seq<char>),
    Array(Seq<Json>),
    Object(Map<Seq<char>, Json>),
}

/// What a `serde_json::Value` holds.
pub uninterp spec fn json_of(v: serde_json::Value) -> Json;

/// The JSON text that `serde_json` writes for a value.
pub uninterp spec fn json_text(v: Json) -> Seq<char>;

/// The value that a JSON text stands for, where `serde_json` can hold it.
pub uninterp spec fn parsed(bytes: Seq<u8>) -> Option<Json>;

/// The text in quotes that comes next, and where it ends.
pub uninterp spec fn text_at(bytes: Seq<u8>) -> Option<(Seq<char>, int)>;

/// Where the JSON value that comes next ends.
pub uninterp spec fn value_end(bytes: Seq<u8>) -> Option<int>;

/// What each of a list of values holds.
pub open spec fn jsons(list: Seq<Value>) -> Seq<Json> {
    list.map_values(|v: Value| json_of(v))
}

/// The member of an object with a name. Other values have no members.
pub open spec fn member_of(v: Json, name: Seq<char>) -> Option<Json> {
    match v {
        Json::Object(m) => if m.contains_key(name) {
            Some(m[name])
        } else {
            None
        },
        _ => None,
    }
}

/// The members that a list of names and values gives an object: the last value
/// of each name.
pub open spec fn members(list: Seq<(String, Value)>) -> Map<Seq<char>, Json>
    decreases list.len(),
{
    if list.len() == 0 {
        Map::empty()
    } else {
        members(list.drop_last()).insert(list.last().0@, json_of(list.last().1))
    }
}

/// A JSON value, without what an array or an object holds.
#[derive(Debug)]
pub enum Scalar {
    Null,
    Bool(bool),
    /// A number, with its value where that is a whole number that fits.
    Number(Option<u64>),
    Text(String),
    Array,
    Object,
}

/// A scalar shows what a JSON value is.
pub open spec fn shows(s: Scalar, v: Json) -> bool {
    match v {
        Json::Null => s is Null,
        Json::Bool(b) => s == Scalar::Bool(b),
        Json::Unsigned(n) => s == Scalar::Number(Some(n)),
        Json::Number(_) => s == Scalar::Number(None),
        Json::Text(t) => s matches Scalar::Text(x) && x@ == t,
        Json::Array(_) => s is Array,
        Json::Object(_) => s is Object,
    }
}

/// `serde_json::from_slice` reads a JSON value from its text. The value is told
/// apart by its variant.
#[verifier::external_body]
pub(crate) fn read_scalar(bytes: &[u8]) -> (r: Option<Scalar>)
    ensures
        match parsed(bytes@) {
            Some(v) => r matches Some(s) && shows(s, v),
            None => r is None,
        },
{
    serde_json::from_slice::<Value>(bytes).ok().map(|x| match x {
        Value::Null => Scalar::Null,
        Value::Bool(b) => Scalar::Bool(b),
        Value::Number(n) => Scalar::Number(n.as_u64()),
        Value::String(s) => Scalar::Text(s),
        Value::Array(_) => Scalar::Array,
        Value::Object(_) => Scalar::Object,
    })
}

/// `serde_json::StreamDeserializer` reads the text in quotes that comes next, after
/// white space, and tells how many bytes it took: some, and no more than there are.
#[verifier::external_body]
pub(crate) fn read_text_at(bytes: &[u8]) -> (r: Option<(String, usize)>)
    ensures
        match r {
            Some((t, n)) => text_at(bytes@) == Some((t@, n as int)) && 0 < n <= bytes@.len(),
            None => text_at(bytes@) is None,
        },
{
    let mut stream = serde_json::Deserializer::from_slice(bytes).into_iter::<String>();
    let text = stream.next()?.ok()?;
    Some((text, stream.byte_offset()))
}

/// `serde_json::StreamDeserializer` passes over the JSON value that comes next, after
/// white space, and tells how many bytes it took: some, and no more than there are.
#[verifier::external_body]
pub(crate) fn skip_value(bytes: &[u8]) -> (r: Option<usize>)
    ensures
        match r {
            Some(n) => value_end(bytes@) == Some(n as int) && 0 < n <= bytes@.len(),
            None => value_end(bytes@) is None,
        },
{
    let mut stream = serde_json::Deserializer::from_slice(bytes).into_iter::<IgnoredAny>();
    stream.next()?.ok()?;
    Some(stream.byte_offset())
}

/// `Value::String` is a JSON text.
#[verifier::external_body]
pub(crate) fn text_value(s: &str) -> (r: Value)
    ensures
        json_of(r) == Json::Text(s@),
{
    Value::String(s.to_string())
}

/// `Value::Bool` is a JSON truth value.
#[verifier::external_body]
pub(crate) fn bool_value(b: bool) -> (r: Value)
    ensures
        json_of(r) == Json::Bool(b),
{
    Value::Bool(b)
}

/// `Value::from` a `u64` is that whole number.
#[verifier::external_body]
pub(crate) fn unsigned_value(n: u64) -> (r: Value)
    ensures
        json_of(r) == Json::Unsigned(n),
{
    Value::from(n)
}

/// `Value::Array` is the list of the values given.
#[verifier::external_body]
pub(crate) fn array_value(items: Vec<Value>) -> (r: Value)
    ensures
        json_of(r) == Json::Array(jsons(items@)),
{
    Value::Array(items)
}

/// Collecting names and values into a `serde_json::Map` makes them the members
/// of an object; a name that comes again replaces the value it had.
#[verifier::external_body]
pub(crate) fn object_value(list: Vec<(String, Value)>) -> (r: Value)
    ensures
        json_of(r) == Json::Object(members(list@)),
{
    Value::Object(list.into_iter().collect())
}

/// `Value::clone` holds the same value.
#[verifier::external_body]
pub(crate) fn copy_value(v: &Value) -> (r: Value)
    ensures
        json_of(r) == json_of(*v),
{
    v.clone()
}

/// A value without numbers other than whole ones from 0 to `u64::MAX`, in which
/// lists and objects are nested to a depth at most.
pub open spec fn nests(v: Json, depth: nat) -> bool
    decreases depth,
{
    match v {
        Json::Number(_) => false,
        Json::Array(list) => depth > 0 && forall|i: int|
            0 <= i < list.len() ==> nests(#[trigger] list[i], (depth - 1) as nat),
        Json::Object(m) => depth > 0 && forall|k: Seq<char>| #[trigger]
            m.contains_key(k) ==> nests(m[k], (depth - 1) as nat),
        _ => true,
    }
}

/// A depth to which a JSON text may nest and `serde_json` still reads it.
pub const READABLE_DEPTH: u8 = 100;

/// Displaying a `Value` writes its JSON text, without spaces. The text reads back as
/// the value, where it does not nest too deep and its numbers are whole ones.
#[verifier::external_body]
pub(crate) fn value_text(v: &Value) -> (r: String)
    ensures
        r@ == json_text(json_of(*v)),
        nests(json_of(*v), READABLE_DEPTH as nat) ==> parsed(encode_utf8(r@)) == Some(json_of(*v)),
{
    v.to_string()
}

}
