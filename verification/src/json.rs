//! The JSON documents of `serde_json` and the clock of `chrono`, as far as
//! the library uses them. Everything in this file is taken on trust: the
//! contracts restate what the two crates do and are not proved.

use vstd::prelude::*;

verus! {

#[verifier::external_type_specification]
#[verifier::external_body]
pub struct ExJsonValue(serde_json::Value);

#[verifier::external_type_specification]
#[verifier::external_body]
pub struct ExJsonError(serde_json::Error);

#[verifier::external_type_specification]
#[verifier::external_body]
#[verifier::reject_recursive_types(K)]
#[verifier::reject_recursive_types(V)]
pub struct ExJsonMap<K, V>(serde_json::Map<K, V>);

/// The JSON string with the given content.
pub uninterp spec fn json_text(content: Seq<char>) -> serde_json::Value;

/// The members that a `serde_json::Map` holds, by key.
pub uninterp spec fn json_entries(map: serde_json::Map<String, serde_json::Value>) -> Map<
    Seq<char>,
    serde_json::Value,
>;

/// The JSON object with the given members.
pub uninterp spec fn json_object(members: Map<Seq<char>, serde_json::Value>) -> serde_json::Value;

/// The compact text of a JSON value.
pub uninterp spec fn json_printed(value: serde_json::Value) -> Seq<char>;

/// What parsing a text as one JSON value gives: the value, or the parser's
/// error.
pub uninterp spec fn json_parsed(text: Seq<char>) -> Result<serde_json::Value, serde_json::Error>;

/// The member of a JSON object under a key; `None` for a missing key and for
/// a value that is no object.
pub uninterp spec fn json_member(value: serde_json::Value, key: Seq<char>) -> Option<
    serde_json::Value,
>;

/// The content of a JSON string; `None` for any other value.
pub uninterp spec fn json_string(value: serde_json::Value) -> Option<Seq<char>>;

/// The message of a parser error.
pub uninterp spec fn json_error_text(error: serde_json::Error) -> Seq<char>;

/// The member map of an object without members.
pub open spec fn no_members() -> Map<Seq<char>, serde_json::Value> {
    Map::empty()
}

/// `serde_json::Value::from(&str)`: the JSON string that holds `content`.
#[verifier::external_body]
pub(crate) fn text_value(content: &str) -> (value: serde_json::Value)
    ensures
        value == json_text(content@),
        json_string(value) == Some(content@),
{
    serde_json::Value::from(content)
}

/// `serde_json::Map::new`: a map without members.
#[verifier::external_body]
pub(crate) fn new_map() -> (map: serde_json::Map<String, serde_json::Value>)
    ensures
        json_entries(map) == no_members(),
{
    serde_json::Map::new()
}

/// `serde_json::Map::insert`: afterwards `key` maps to `value`, and every
/// other key to what it mapped to before.
#[verifier::external_body]
pub(crate) fn insert_member(
    map: &mut serde_json::Map<String, serde_json::Value>,
    key: String,
    value: serde_json::Value,
)
    ensures
        json_entries(*final(map)) == json_entries(*old(map)).insert(key@, value),
{
    map.insert(key, value);
}

/// `serde_json::Value::Object`: the object made of the map's members. Its
/// member under a key is what the map holds there.
#[verifier::external_body]
pub(crate) fn object_value(map: serde_json::Map<String, serde_json::Value>) -> (value:
    serde_json::Value)
    ensures
        value == json_object(json_entries(map)),
        forall|key: Seq<char>| #[trigger]
            json_member(value, key) == if json_entries(map).contains_key(key) {
                Some(json_entries(map)[key])
            } else {
                None
            },
{
    serde_json::Value::Object(map)
}

/// `to_string` of a `serde_json::Value`: its compact text.
#[verifier::external_body]
pub(crate) fn print_value(value: &serde_json::Value) -> (text: String)
    ensures
        text@ == json_printed(*value),
{
    value.to_string()
}

/// `serde_json::from_str` for a `Value`: the whole text parsed as one JSON
/// value.
#[verifier::external_body]
pub(crate) fn parse_value(text: &str) -> (parsed: Result<serde_json::Value, serde_json::Error>)
    ensures
        parsed == json_parsed(text@),
{
    serde_json::from_str::<serde_json::Value>(text)
}

/// `serde_json::Value::get` with a string key.
#[verifier::external_body]
pub(crate) fn member_of<'a>(value: &'a serde_json::Value, key: &str) -> (member: Option<
    &'a serde_json::Value,
>)
    ensures
        member is Some == json_member(*value, key@) is Some,
        member matches Some(found) ==> json_member(*value, key@) == Some(*found),
{
    value.get(key)
}

/// `serde_json::Value::as_str`.
#[verifier::external_body]
pub(crate) fn string_of<'a>(value: &'a serde_json::Value) -> (content: Option<&'a str>)
    ensures
        content is Some == json_string(*value) is Some,
        content matches Some(found) ==> json_string(*value) == Some(found@),
{
    value.as_str()
}

/// `to_string` of a `serde_json::Error`: its message.
#[verifier::external_body]
pub(crate) fn error_text(error: &serde_json::Error) -> (text: String)
    ensures
        text@ == json_error_text(*error),
{
    error.to_string()
}

/// `chrono::Utc::now`, written by `to_rfc3339_opts` with automatic
/// sub-second digits and `Z` for the offset, which is the text that chrono
/// serialises an instant to. Nothing is known of the result: it is the
/// clock's.
#[verifier::external_body]
pub(crate) fn current_time() -> String {
    chrono::Utc::now().to_rfc3339_opts(chrono::SecondsFormat::AutoSi, true)
}

} // verus!
