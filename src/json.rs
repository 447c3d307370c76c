//! The JSON records a writer handles, read and written by serde_json.
use vstd::prelude::*;

verus! {

#[verifier::external_type_specification]
#[verifier::external_body]
pub struct ExJsonValue(serde_json::Value);

#[verifier::external_type_specification]
#[verifier::external_body]
#[verifier::reject_recursive_types(K)]
#[verifier::reject_recursive_types(V)]
pub struct ExJsonMap<K, V>(serde_json::Map<K, V>);

#[verifier::external_type_specification]
#[verifier::external_body]
pub struct ExJsonError(serde_json::Error);

/// A JSON object: its fields in order, each a key and a value.
pub type Fields = Seq<(Seq<char>, serde_json::Value)>;

/// The fields of a JSON object, in the order serde_json keeps them (the order
/// of first insertion, with the `preserve_order` feature).
pub uninterp spec fn entries_of(m: serde_json::Map<String, serde_json::Value>) -> Fields;

/// The object that `bytes` holds, when they are exactly one JSON object.
pub uninterp spec fn object_of(bytes: Seq<u8>) -> Option<Fields>;

/// The JSON number for `n`.
pub uninterp spec fn number_value(n: u16) -> serde_json::Value;

/// The compact JSON text of an object with these fields.
pub uninterp spec fn json_text(fields: Fields) -> Seq<u8>;

/// The position of a field of key `key`, where there is one (a map holds at
/// most one).
pub open spec fn key_index(fields: Fields, key: Seq<char>) -> int {
    choose|i: int| 0 <= i < fields.len() && #[trigger] fields[i].0 == key
}

/// The fields after setting `key` to `value`: a field of that key keeps its
/// place and takes the new value; otherwise the field goes last.
pub open spec fn put_field(fields: Fields, key: Seq<char>, value: serde_json::Value) -> Fields {
    if exists|i: int| 0 <= i < fields.len() && #[trigger] fields[i].0 == key {
        fields.update(key_index(fields, key), (key, value))
    } else {
        fields.push((key, value))
    }
}

/// Relies on serde_json::from_slice into a `Map<String, Value>`: it succeeds
/// exactly on bytes that are one JSON object (with surrounding whitespace),
/// and the result depends on the bytes alone.
#[verifier::external_body]
pub(crate) fn parse_object(bytes: &[u8]) -> (r: Result<
    serde_json::Map<String, serde_json::Value>,
    serde_json::Error,
>)
    ensures
        r is Ok <==> object_of(bytes@) is Some,
        r is Ok ==> entries_of(r->Ok_0) == object_of(bytes@)->0,
{
    serde_json::from_slice(bytes)
}

/// Relies on `From<u16> for serde_json::Value`: the number `n`.
#[verifier::external_body]
pub(crate) fn number(n: u16) -> (r: serde_json::Value)
    ensures
        r == number_value(n),
{
    serde_json::Value::from(n)
}

/// Relies on serde_json::Map::insert, which under `preserve_order` is
/// IndexMap::insert: an existing key keeps its position and takes the new
/// value, a new key is appended.
#[verifier::external_body]
pub(crate) fn insert_field(
    m: &mut serde_json::Map<String, serde_json::Value>,
    key: String,
    value: serde_json::Value,
)
    ensures
        entries_of(*final(m)) == put_field(entries_of(*old(m)), key@, value),
{
    m.insert(key, value);
}

/// Relies on serde_json::to_vec on a `Map<String, Value>`: string keys and
/// values of `Value` always serialize, and writing into a `Vec` never fails,
/// so the result is `Ok` and is the compact text of the fields.
#[verifier::external_body]
pub(crate) fn encode_object(m: &serde_json::Map<String, serde_json::Value>) -> (r: Result<
    Vec<u8>,
    serde_json::Error,
>)
    ensures
        r is Ok,
        r is Ok ==> r->Ok_0@ == json_text(entries_of(*m)),
{
    serde_json::to_vec(m)
}

} // verus!
