//! JSON values. Parsing and storage are `serde_json`'s; this module says what a value holds and
//! gives the few operations that the bridge needs.

use serde_json::Value;
use vstd::prelude::*;
use vstd::string::*;

verus! {

/// Declares `serde_json::Value`.
#[verifier::external_type_specification]
#[verifier::external_body]
pub struct ExValue(serde_json::Value);

/// Declares `serde_json::Error`.
#[verifier::external_type_specification]
#[verifier::external_body]
pub struct ExError(serde_json::Error);

/// Declares `serde_json::Map`.
#[verifier::external_type_specification]
#[verifier::external_body]
#[verifier::reject_recursive_types(K)]
#[verifier::reject_recursive_types(V)]
pub struct ExMap<K, V>(serde_json::Map<K, V>);

/// What a JSON value holds, as a mathematical value. An object is a map: it has no order, and no
/// key occurs twice.
pub enum Json {
    Null,
    Bool(bool),
    Number(Seq<char>),
    Text(Seq<char>),
    Array(Seq<Json>),
    Object(Map<Seq<char>, Json>),
}

/// The contents of a `serde_json::Value`.
pub uninterp spec fn contents(value: Value) -> Json;

/// The members of a `serde_json::Map`.
pub uninterp spec fn members(map: serde_json::Map<String, Value>) -> Map<Seq<char>, Json>;

/// No members at all.
pub open spec fn no_members() -> Map<Seq<char>, Json> {
    Map::empty()
}

/// What `serde_json::from_str` makes of a text: the contents of the value, or the message of the
/// error.
pub uninterp spec fn parsed(text: Seq<char>) -> Result<Json, Seq<char>>;

/// `serde_json::from_str::<Value>`: the whole text is read as one JSON value. Success, the value
/// and the message that the error displays depend on the text alone. Which texts are JSON is left
/// unsaid.
#[verifier::external_body]
fn from_str(text: &str) -> (res: Result<Value, serde_json::Error>)
    ensures
        match res {
            Ok(value) => parsed(text@) == Ok::<Json, Seq<char>>(contents(value)),
            Err(err) => forall|message: String|
                #[trigger] to_string_from_display_ensures::<serde_json::Error>(&err, message)
                    ==> parsed(text@) == Err::<Json, Seq<char>>(message@),
        },
{
    serde_json::from_str(text)
}

/// Reads a text as one JSON value; fails with the message of the error.
pub fn parse_value(text: &str) -> (res: Result<Value, String>)
    ensures
        match res {
            Ok(value) => parsed(text@) == Ok::<Json, Seq<char>>(contents(value)),
            Err(message) => parsed(text@) == Err::<Json, Seq<char>>(message@),
        },
{
    match from_str(text) {
        Ok(value) => Ok(value),
        Err(err) => Err(err.to_string()),
    }
}

/// `Value::get` with a string index: the member of that name where the value is an object that has
/// one, else nothing. The member is copied.
#[verifier::external_body]
pub(crate) fn member(value: &Value, key: &str) -> (res: Option<Value>)
    ensures
        match contents(*value) {
            Json::Object(fields) => match res {
                Some(found) => fields.dom().contains(key@) && contents(found) == fields[key@],
                None => !fields.dom().contains(key@),
            },
            _ => res is None,
        },
{
    value.get(key).cloned()
}

/// `Value::String` holds the given text.
#[verifier::external_body]
pub(crate) fn text_value(text: String) -> (res: Value)
    ensures
        contents(res) == Json::Text(text@),
{
    Value::String(text)
}

/// `Value::Bool` holds the given truth value.
#[verifier::external_body]
pub(crate) fn bool_value(flag: bool) -> (res: Value)
    ensures
        contents(res) == Json::Bool(flag),
{
    Value::Bool(flag)
}

/// `serde_json::Map::new`: a map without members.
#[verifier::external_body]
pub(crate) fn new_members() -> (res: serde_json::Map<String, Value>)
    ensures
        members(res) == no_members(),
{
    serde_json::Map::new()
}

/// `serde_json::Map::insert`: the member under `key` becomes `value`, and all others stay. The
/// member that was there before, if any, is handed back.
#[verifier::external_body]
pub(crate) fn insert_member(
    map: &mut serde_json::Map<String, Value>,
    key: String,
    value: Value,
) -> (res: Option<Value>)
    ensures
        members(*final(map)) == members(*old(map)).insert(key@, contents(value)),
        match res {
            Some(before) => members(*old(map)).dom().contains(key@) && contents(before) == members(
                *old(map),
            )[key@],
            None => !members(*old(map)).dom().contains(key@),
        },
{
    map.insert(key, value)
}

/// `Value::Object` holds the members of the given map.
#[verifier::external_body]
pub(crate) fn object_value(map: serde_json::Map<String, Value>) -> (res: Value)
    ensures
        contents(res) == Json::Object(members(map)),
{
    Value::Object(map)
}

} // verus!
