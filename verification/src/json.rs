//! Trusted surface over serde_json: the JSON value tree, parsing and
//! pretty-printing, and the object-map operations that the settings and
//! configuration modules build on.
//!
//! Values of `serde_json::Value` are opaque here. Every wrapped call is a
//! function of its arguments alone, so each result carries a name — an
//! uninterpreted spec function — and the modules above compose those names
//! into exact contracts. An object map is abstracted by [`map_model`], the
//! map from each key's UTF-8 bytes to the held value; nothing in this
//! surface can tell two maps with the same entries apart, so speaking of a
//! map through its entries is faithful to serde_json's behaviour.

use vstd::prelude::*;
use vstd::utf8::valid_utf8;

verus! {

#[verifier::external_type_specification]
#[verifier::external_body]
pub struct ExValue(serde_json::Value);

#[verifier::external_type_specification]
#[verifier::external_body]
#[verifier::reject_recursive_types(K)]
#[verifier::reject_recursive_types(V)]
pub struct ExMap<K, V>(serde_json::Map<K, V>);

#[verifier::external_type_specification]
#[verifier::external_body]
pub struct ExError(serde_json::Error);

/// What serde_json::from_slice makes of a document: the parsed value tree,
/// or nothing when the bytes are not valid JSON.
pub uninterp spec fn json_parsed(bytes: Seq<u8>) -> Option<serde_json::Value>;

/// What serde_json::to_vec_pretty prints for a value tree.
pub uninterp spec fn pretty_bytes(v: serde_json::Value) -> Seq<u8>;

/// The string value serde_json::Value::String holds for the given bytes
/// (read as String::from_utf8_lossy reads them).
pub uninterp spec fn string_of_bytes(b: Seq<u8>) -> serde_json::Value;

/// The array value serde_json::Value::Array holds for the given elements.
pub uninterp spec fn array_of(items: Seq<serde_json::Value>) -> serde_json::Value;

/// The object value serde_json::Value::Object holds for a map with the
/// given entries.
pub uninterp spec fn object_of_model(m: Map<Seq<u8>, serde_json::Value>) -> serde_json::Value;

/// The text of a string value, as bytes; nothing for the other variants.
pub uninterp spec fn string_of(v: serde_json::Value) -> Option<Seq<u8>>;

/// The elements of an array value; nothing for the other variants.
pub uninterp spec fn elements_of(v: serde_json::Value) -> Option<Seq<serde_json::Value>>;

/// The map of an object value; nothing for the other variants.
pub uninterp spec fn fields_of(v: serde_json::Value) -> Option<
    serde_json::Map<String, serde_json::Value>,
>;

/// The entries of an object map, each key as its UTF-8 bytes. JSON object
/// keys are distinct strings, so the map is keyed without collision.
pub uninterp spec fn map_model(m: serde_json::Map<String, serde_json::Value>) -> Map<
    Seq<u8>,
    serde_json::Value,
>;

/// The entries of an object map in iteration order (serde_json's default
/// map iterates its keys in sorted order, so this is a function of the
/// entries).
pub uninterp spec fn map_pairs(m: serde_json::Map<String, serde_json::Value>) -> Seq<
    (Seq<u8>, serde_json::Value),
>;

/// Relies on serde_json::from_slice: parses a JSON document into a value
/// tree, deterministically in the bytes, or reports why the document is not
/// valid JSON.
#[verifier::external_body]
pub(crate) fn parse_value(bytes: &Vec<u8>) -> (r: Result<serde_json::Value, serde_json::Error>)
    ensures
        match r {
            Ok(v) => json_parsed(bytes@) == Some(v),
            Err(_) => json_parsed(bytes@) is None,
        },
{
    serde_json::from_slice::<serde_json::Value>(bytes.as_slice())
}

/// Relies on serde_json::to_vec_pretty: pretty-prints a value tree,
/// deterministically in the value. It cannot fail on a Value: the writer is
/// a byte vector and Value's Serialize implementation never errors (its map
/// keys are strings, its numbers finite).
#[verifier::external_body]
pub(crate) fn value_to_pretty_bytes(v: &serde_json::Value) -> (r: Result<
    Vec<u8>,
    serde_json::Error,
>)
    ensures
        r is Ok,
        r matches Ok(b) ==> b@ == pretty_bytes(*v),
{
    serde_json::to_vec_pretty(v)
}

/// Relies on serde_json::Value::String: wraps text as a JSON string value.
/// Bytes that are not valid UTF-8 are replaced, as String::from_utf8_lossy
/// reads them, so the value is a function of the bytes.
#[verifier::external_body]
pub(crate) fn value_from_bytes(b: &Vec<u8>) -> (r: serde_json::Value)
    ensures
        r == string_of_bytes(b@),
{
    serde_json::Value::String(String::from_utf8_lossy(b).into_owned())
}

/// Relies on serde_json::Value::Array: wraps a list of values.
#[verifier::external_body]
pub(crate) fn value_from_array(items: Vec<serde_json::Value>) -> (r: serde_json::Value)
    ensures
        r == array_of(items@),
{
    serde_json::Value::Array(items)
}

/// Relies on serde_json::Value::Object: wraps an object map. The value is a
/// function of the map's entries.
#[verifier::external_body]
pub(crate) fn value_from_object(fields: serde_json::Map<String, serde_json::Value>) -> (r:
    serde_json::Value)
    ensures
        r == object_of_model(map_model(fields)),
{
    serde_json::Value::Object(fields)
}

/// Relies on the serde_json::Value enum: hands back the text of a string
/// value as bytes, or the value itself, unchanged, when it is not a string.
#[verifier::external_body]
pub(crate) fn value_into_bytes(v: serde_json::Value) -> (r: Result<Vec<u8>, serde_json::Value>)
    ensures
        match r {
            Ok(b) => string_of(v) == Some(b@),
            Err(v2) => v2 == v && string_of(v) is None,
        },
{
    match v {
        serde_json::Value::String(s) => Ok(s.into_bytes()),
        other => Err(other),
    }
}

/// Relies on the serde_json::Value enum: hands back the elements of an
/// array value, or the value itself, unchanged, when it is not an array.
#[verifier::external_body]
pub(crate) fn value_into_array(v: serde_json::Value) -> (r: Result<
    Vec<serde_json::Value>,
    serde_json::Value,
>)
    ensures
        match r {
            Ok(a) => elements_of(v) == Some(a@),
            Err(v2) => v2 == v && elements_of(v) is None,
        },
{
    match v {
        serde_json::Value::Array(items) => Ok(items),
        other => Err(other),
    }
}

/// Relies on the serde_json::Value enum: hands back the object map of an
/// object value, or the value itself, unchanged, when it is not an object.
#[verifier::external_body]
pub(crate) fn value_into_object(v: serde_json::Value) -> (r: Result<
    serde_json::Map<String, serde_json::Value>,
    serde_json::Value,
>)
    ensures
        match r {
            Ok(m) => fields_of(v) == Some(m),
            Err(v2) => v2 == v && fields_of(v) is None,
        },
{
    match v {
        serde_json::Value::Object(fields) => Ok(fields),
        other => Err(other),
    }
}

/// The model of a map with no entries.
pub open spec fn empty_model() -> Map<Seq<u8>, serde_json::Value> {
    Map::<Seq<u8>, serde_json::Value>::empty()
}

/// Relies on serde_json::Map::new: an empty object map.
#[verifier::external_body]
pub(crate) fn map_new() -> (r: serde_json::Map<String, serde_json::Value>)
    ensures
        map_model(r) == empty_model(),
{
    serde_json::Map::new()
}

/// Relies on serde_json::Map::insert, keyed by the given bytes read as
/// UTF-8; a value already under that key is dropped, as documented. Keys
/// that are not valid UTF-8 would be rewritten by the lossy read, so they
/// are excluded.
#[verifier::external_body]
pub(crate) fn map_insert(
    m: &mut serde_json::Map<String, serde_json::Value>,
    key: &Vec<u8>,
    v: serde_json::Value,
)
    requires
        valid_utf8(key@),
    ensures
        map_model(*final(m)) == map_model(*old(m)).insert(key@, v),
{
    m.insert(String::from_utf8_lossy(key).into_owned(), v);
}

/// Relies on serde_json::Map::remove, keyed by the given bytes read as
/// UTF-8: takes the value under the key out of the map, if the key is
/// present. Keys that are not valid UTF-8 are excluded as in map_insert.
#[verifier::external_body]
pub(crate) fn map_remove(
    m: &mut serde_json::Map<String, serde_json::Value>,
    key: &Vec<u8>,
) -> (r: Option<serde_json::Value>)
    requires
        valid_utf8(key@),
    ensures
        map_model(*old(m)).contains_key(key@) ==> r == Some(map_model(*old(m))[key@])
            && map_model(*final(m)) == map_model(*old(m)).remove(key@),
        !map_model(*old(m)).contains_key(key@) ==> r is None && *final(m) == *old(m),
{
    m.remove(String::from_utf8_lossy(key).into_owned().as_str())
}

/// Relies on serde_json::Map::into_iter: hands out all entries of an object
/// map in iteration order, each key as its bytes. The keys were strings, so
/// each is valid UTF-8; each entry is in the map.
#[verifier::external_body]
pub(crate) fn map_into_pairs(m: serde_json::Map<String, serde_json::Value>) -> (r: Vec<
    (Vec<u8>, serde_json::Value),
>)
    ensures
        r@.len() == map_pairs(m).len(),
        forall|k: int|
            #![trigger r@[k]]
            0 <= k < r@.len() ==> r@[k].0@ == map_pairs(m)[k].0 && r@[k].1 == map_pairs(m)[k].1
                && valid_utf8(r@[k].0@) && map_model(m).contains_key(r@[k].0@) && map_model(m)[r@[
                k
            ].0@] == r@[k].1,
{
    m.into_iter().map(|(k, v)| (k.into_bytes(), v)).collect()
}

} // verus!
