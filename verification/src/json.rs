//! JSON objects of which the library reads or sets single members.
use vstd::prelude::*;

verus! {

/// A member of a JSON object. What is not a text is told by its document: the JSON text without
/// white space that it is written as.
pub enum JsonItem {
    Text { text: Seq<char> },
    Array { length: nat, document: Seq<char> },
    Other { document: Seq<char> },
}

/// A JSON value of `serde_json`.
#[verifier::external_type_specification]
#[verifier::external_body]
pub struct ExValue(serde_json::Value);

/// The members of a JSON object of `serde_json`, by their keys.
#[verifier::external_type_specification]
#[verifier::external_body]
#[verifier::reject_recursive_types(K)]
#[verifier::reject_recursive_types(V)]
pub struct ExObject<K, V>(serde_json::Map<K, V>);

/// Names what a JSON object holds.
pub uninterp spec fn object_members(object: serde_json::Map<String, serde_json::Value>) -> Map<
    Seq<char>,
    JsonItem,
>;

/// Names what `serde_json` reads bytes as: the members of an object, nothing where they spell
/// another value, and the text of the error where they spell none.
pub uninterp spec fn json_read(bytes: Seq<u8>) -> Result<
    Option<Map<Seq<char>, JsonItem>>,
    Seq<char>,
>;

/// Names what `serde_json` writes an object with these members out as, in its pretty form. The
/// members come in the order of their keys, so what they are decides the document.
pub uninterp spec fn json_pretty(members: Map<Seq<char>, JsonItem>) -> Result<
    Seq<char>,
    Seq<char>,
>;

/// The length of an array under a key.
pub open spec fn array_at(members: Map<Seq<char>, JsonItem>, key: Seq<char>) -> Option<nat> {
    if members.contains_key(key) {
        match members[key] {
            JsonItem::Array { length, .. } => Some(length),
            _ => None,
        }
    } else {
        None
    }
}

/// `serde_json::from_slice` into a value, of which an object is kept: its members are the named
/// ones, and so is the text of the error.
#[verifier::external_body]
pub(crate) fn read_object(bytes: &Vec<u8>) -> (r: Result<
    Option<serde_json::Map<String, serde_json::Value>>,
    String,
>)
    ensures
        match json_read(bytes@) {
            Ok(None) => r matches Ok(None),
            Ok(Some(members)) => r matches Ok(Some(o)) && object_members(o) == members,
            Err(t) => r matches Err(e) && e@ == t,
        },
{
    match serde_json::from_slice::<serde_json::Value>(bytes) {
        Ok(serde_json::Value::Object(o)) => Ok(Some(o)),
        Ok(_) => Ok(None),
        Err(e) => Err(e.to_string()),
    }
}

/// `serde_json::Map::get` and `Value::as_array`: the length of the array that the object holds
/// under the key, where it holds one.
#[verifier::external_body]
pub(crate) fn array_length(
    object: &serde_json::Map<String, serde_json::Value>,
    key: &str,
) -> (r: Option<usize>)
    ensures
        match array_at(object_members(*object), key@) {
            Some(n) => r matches Some(m) && m == n,
            None => r is None,
        },
{
    object.get(key).and_then(|v| v.as_array()).map(|a| a.len())
}

/// `serde_json::Map::contains_key`: whether the object holds a member under the key.
#[verifier::external_body]
pub(crate) fn holds(object: &serde_json::Map<String, serde_json::Value>, key: &str) -> (r: bool)
    ensures
        r == object_members(*object).contains_key(key@),
{
    object.contains_key(key)
}

/// `serde_json::Map::insert` of a string: the object holds the text under the key, and every other
/// member as before.
#[verifier::external_body]
pub(crate) fn set_text(
    object: &mut serde_json::Map<String, serde_json::Value>,
    key: &str,
    text: &str,
)
    ensures
        object_members(*final(object)) == object_members(*old(object)).insert(
            key@,
            JsonItem::Text { text: text@ },
        ),
{
    object.insert(key.to_string(), serde_json::Value::String(text.to_string()));
}

/// `serde_json::to_string_pretty` of an object: the document, or the text of the error, is the
/// named one of its members.
#[verifier::external_body]
pub(crate) fn pretty(object: &serde_json::Map<String, serde_json::Value>) -> (r: Result<
    String,
    String,
>)
    ensures
        match json_pretty(object_members(*object)) {
            Ok(t) => r matches Ok(s) && s@ == t,
            Err(t) => r matches Err(e) && e@ == t,
        },
{
    serde_json::to_string_pretty(object).map_err(|e| e.to_string())
}

} // verus!
