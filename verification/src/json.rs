//! Wire-format access: JSON and YAML parsing through serde.
//!
//! A parsed document is carried as an opaque `serde_json::Value`; its
//! content is modelled by the mathematical tree [`JsonModel`], named by
//! the uninterpreted function [`json_model`]. The accessors below are
//! specified against that model, so the decoder walking the tree is
//! verified against exactly what the tree holds.

use vstd::prelude::*;

verus! {

#[verifier::external_type_specification]
#[verifier::external_body]
pub struct ExJsonValue(serde_json::Value);

/// The content of a JSON value tree, as mathematical data.
pub enum JsonModel {
    /// The JSON null value.
    Null,
    /// A boolean.
    Bool(bool),
    /// A number whose value is an integer representable in 64 signed
    /// bits.
    Int(i64),
    /// Any other number: a fraction, or an integer out of that range.
    BigNum,
    /// A string.
    Text(Seq<char>),
    /// An array.
    Arr(Seq<JsonModel>),
    /// An object: a finite map from keys to values.
    Obj(Map<Seq<char>, JsonModel>),
}

/// What a JSON value tree holds: the model of its content.
pub uninterp spec fn json_model(v: serde_json::Value) -> JsonModel;

/// Relies on serde_json::Value's Clone: nothing is assumed of the copy.
pub assume_specification[ <serde_json::Value as core::clone::Clone>::clone ](
    v: &serde_json::Value,
) -> serde_json::Value;

/// What parsing a byte buffer as JSON yields: the content of the parsed
/// tree when the bytes are well-formed JSON, or the parser's message
/// when they are not.
pub uninterp spec fn json_parsed(bytes: Seq<u8>) -> Result<JsonModel, Seq<char>>;

/// Relies on serde_json::from_slice: parses a byte buffer into a JSON
/// value tree; whether it succeeds, the parsed tree's content, and the
/// message it fails with all depend on the bytes alone.
#[verifier::external_body]
pub fn parse_json(bytes: &[u8]) -> (r: Result<serde_json::Value, String>)
    ensures
        match r {
            Ok(v) => json_parsed(bytes@) == Ok::<JsonModel, Seq<char>>(json_model(v)),
            Err(m) => json_parsed(bytes@) == Err::<JsonModel, Seq<char>>(m@),
        },
{
    serde_json::from_slice::<serde_json::Value>(bytes).map_err(|e| format!("{}", e))
}

/// What parsing a byte buffer as YAML and rewriting the result as a
/// JSON value tree yields: the tree's content, or the failing stage's
/// message. Both stages depend on the bytes alone.
pub uninterp spec fn yaml_parsed(bytes: Seq<u8>) -> Result<JsonModel, Seq<char>>;

/// Relies on serde_yaml::from_slice followed by serde_json::to_value:
/// parses a byte buffer as YAML and rewrites the parsed tree as a JSON
/// value tree — the one conversion of serde_yaml's result this crate
/// can hold. Either stage can fail: malformed YAML in the first, a tree
/// JSON cannot represent (such as a map with non-string keys) in the
/// second; non-finite numbers become null.
#[verifier::external_body]
pub fn parse_yaml_as_json(bytes: &[u8]) -> (r: Result<serde_json::Value, String>)
    ensures
        match r {
            Ok(v) => yaml_parsed(bytes@) == Ok::<JsonModel, Seq<char>>(json_model(v)),
            Err(m) => yaml_parsed(bytes@) == Err::<JsonModel, Seq<char>>(m@),
        },
{
    let y = match serde_yaml::from_slice::<serde_yaml::Value>(bytes) {
        Ok(y) => y,
        Err(e) => {
            return Err(format!("{}", e));
        },
    };
    serde_json::to_value(&y).map_err(|e| format!("{}", e))
}

/// Relies on serde_json::Value::get: looks a key up in a JSON object,
/// yielding nothing for absent keys and non-objects.
#[verifier::external_body]
pub fn value_get<'a>(v: &'a serde_json::Value, key: &str) -> (r: Option<&'a serde_json::Value>)
    ensures
        match json_model(*v) {
            JsonModel::Obj(map) => match r {
                Some(x) => map.contains_key(key@) && json_model(*x) == map[key@],
                None => !map.contains_key(key@),
            },
            _ => r is None,
        },
{
    v.get(key)
}

/// Relies on serde_json::Value::as_str: the string content of a JSON
/// string, or nothing for other values.
#[verifier::external_body]
pub fn value_as_str<'a>(v: &'a serde_json::Value) -> (r: Option<&'a str>)
    ensures
        match json_model(*v) {
            JsonModel::Text(s) => r matches Some(x) && x@ == s,
            _ => r is None,
        },
{
    v.as_str()
}

/// Relies on serde_json::Value::as_bool: the content of a JSON boolean,
/// or nothing for other values.
#[verifier::external_body]
pub fn value_as_bool(v: &serde_json::Value) -> (r: Option<bool>)
    ensures
        match json_model(*v) {
            JsonModel::Bool(b) => r == Some(b),
            _ => r is None,
        },
{
    v.as_bool()
}

/// Relies on serde_json::Value::as_i64: the content of a JSON number
/// that is an integer representable in 64 signed bits, or nothing
/// otherwise.
#[verifier::external_body]
pub fn value_as_i64(v: &serde_json::Value) -> (r: Option<i64>)
    ensures
        match json_model(*v) {
            JsonModel::Int(i) => r == Some(i),
            _ => r is None,
        },
{
    v.as_i64()
}

/// Relies on serde_json::Value::as_array: the elements of a JSON array,
/// in order, or nothing for other values.
#[verifier::external_body]
pub fn value_as_array<'a>(v: &'a serde_json::Value) -> (r: Option<&'a Vec<serde_json::Value>>)
    ensures
        match json_model(*v) {
            JsonModel::Arr(s) => r matches Some(items) && items@.len() == s.len() && (forall|
                i: int,
            |
                0 <= i < s.len() ==> json_model(#[trigger] items@[i]) == s[i]),
            _ => r is None,
        },
{
    v.as_array()
}

/// Relies on serde_json::Value::is_object.
#[verifier::external_body]
pub fn value_is_object(v: &serde_json::Value) -> (r: bool)
    ensures
        r == (json_model(*v) is Obj),
{
    v.is_object()
}

/// Relies on serde_json::Value::is_number.
#[verifier::external_body]
pub fn value_is_number(v: &serde_json::Value) -> (r: bool)
    ensures
        r == (json_model(*v) is Int || json_model(*v) is BigNum),
{
    v.is_number()
}

/// The string-to-string map a JSON value holds, when it is an object
/// whose values are all strings; nothing otherwise.
pub open spec fn string_map_of(m: JsonModel) -> Option<Map<Seq<char>, Seq<char>>> {
    match m {
        JsonModel::Obj(map) => if forall|k: Seq<char>|
            map.contains_key(k) ==> #[trigger] map[k] is Text {
            Some(map.map_values(|x: JsonModel| x->Text_0))
        } else {
            None
        },
        _ => None,
    }
}

/// The map a sequence of key/value pairs denotes.
pub open spec fn pairs_to_map(pairs: Seq<(String, String)>) -> Map<Seq<char>, Seq<char>>
    decreases pairs.len(),
{
    if pairs.len() == 0 {
        Map::<Seq<char>, Seq<char>>::empty()
    } else {
        pairs_to_map(pairs.drop_last()).insert(pairs.last().0@, pairs.last().1@)
    }
}

/// Relies on serde_json::Map::keys over Value::as_object: the keys of
/// a JSON object — each exactly once — in the map's iteration order
/// (key-sorted for the default map); nothing for other values.
#[verifier::external_body]
pub fn value_keys(v: &serde_json::Value) -> (r: Option<Vec<String>>)
    ensures
        match json_model(*v) {
            JsonModel::Obj(map) => r matches Some(ks) && (forall|i: int|
                0 <= i < ks@.len() ==> map.contains_key(#[trigger] ks@[i]@)) && (forall|
                k: Seq<char>,
            |
                map.contains_key(k) ==> exists|i: int|
                    0 <= i < ks@.len() && #[trigger] ks@[i]@ == k) && (forall|i: int, j: int|
                0 <= i < j < ks@.len() ==> ks@[i]@ != ks@[j]@),
            _ => r is None,
        },
{
    Some(v.as_object()?.keys().cloned().collect())
}

/// Relies on serde_json::Map::iter over Value::as_object: the name/value
/// pairs of a JSON object whose values are all strings, with pairwise
/// distinct keys, in the map's iteration order (key-sorted for the
/// default map); nothing for other values.
#[verifier::external_body]
pub fn value_string_entries(v: &serde_json::Value) -> (r: Option<Vec<(String, String)>>)
    ensures
        match string_map_of(json_model(*v)) {
            Some(sm) => r matches Some(pairs) && pairs_to_map(pairs@) == sm && (forall|
                i: int,
                j: int,
            |
                0 <= i < j < pairs@.len() ==> (#[trigger] pairs@[i]).0@ != (
                #[trigger] pairs@[j]).0@),
            None => r is None,
        },
{
    v.as_object()?
        .iter()
        .map(|(k, val)| val.as_str().map(|s| (k.clone(), s.to_string())))
        .collect()
}

} // verus!
