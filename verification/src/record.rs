//! The record in which the token is persisted: a JSON object with the token
//! under `access_token` and the time of capture under `stored_at`.

use crate::json::{
    error_text, insert_member, json_error_text, json_member, json_object, json_parsed,
    json_printed, json_string, json_text, member_of, new_map, no_members, object_value,
    parse_value, print_value, string_of, text_value,
};
use crate::model::optional_text;
use crate::text::prefixed;
use vstd::prelude::*;
use vstd::string::*;

verus! {

/// The JSON value of the record for a token captured at `stored_at`.
pub open spec fn record_value(token: Seq<char>, stored_at: Seq<char>) -> serde_json::Value {
    json_object(
        no_members().insert("access_token"@, json_text(token)).insert(
            "stored_at"@,
            json_text(stored_at),
        ),
    )
}

/// The text of the record for a token captured at `stored_at`.
pub open spec fn record_text(token: Seq<char>, stored_at: Seq<char>) -> Seq<char> {
    json_printed(record_value(token, stored_at))
}

/// The token that a JSON value holds as a record: the content of its member
/// `access_token` where that is a string, else none.
pub open spec fn token_of_value(value: serde_json::Value) -> Option<Seq<char>> {
    match json_member(value, "access_token"@) {
        Some(member) => json_string(member),
        None => None,
    }
}

/// What reading a stored text gives, for each outcome of parsing it.
pub open spec fn token_of_parsed(parsed: Result<serde_json::Value, serde_json::Error>) -> Result<
    Option<Seq<char>>,
    Seq<char>,
> {
    match parsed {
        Ok(value) => Ok(token_of_value(value)),
        Err(error) => Err("Failed to parse token from keyring: "@ + json_error_text(error)),
    }
}

/// What reading a stored text gives: the token, none where the text is JSON
/// without a string under `access_token`, or the parser's complaint.
pub open spec fn token_of_record(text: Seq<char>) -> Result<Option<Seq<char>>, Seq<char>> {
    token_of_parsed(json_parsed(text))
}

/// The view of the result of reading a record.
pub open spec fn loaded_view(loaded: Result<Option<String>, String>) -> Result<
    Option<Seq<char>>,
    Seq<char>,
> {
    match loaded {
        Ok(Some(token)) => Ok(Some(token@)),
        Ok(None) => Ok(None),
        Err(message) => Err(message@),
    }
}

/// Writes the record for `token`, captured at `stored_at`: the text of a
/// JSON object that holds the token where reading looks for it.
pub fn token_record(token: &str, stored_at: &str) -> (text: String)
    ensures
        text@ == record_text(token@, stored_at@),
        token_of_value(record_value(token@, stored_at@)) == Some(token@),
{
    proof {
        reveal_strlit("access_token");
        reveal_strlit("stored_at");
        assert("access_token"@ != "stored_at"@) by {
            assert("access_token"@.len() != "stored_at"@.len());
        }
    }
    let mut members = new_map();
    insert_member(&mut members, String::from_str("access_token"), text_value(token));
    insert_member(&mut members, String::from_str("stored_at"), text_value(stored_at));
    let value = object_value(members);
    print_value(&value)
}

/// The token in a parsed record.
pub fn token_in(value: &serde_json::Value) -> (token: Option<String>)
    ensures
        optional_text(token) == token_of_value(*value),
{
    match member_of(value, "access_token") {
        Some(member) => match string_of(member) {
            Some(content) => Some(String::from_str(content)),
            None => None,
        },
        None => None,
    }
}

/// What a parsed stored text holds: the token of the value, or the parser's
/// message behind `Failed to parse token from keyring: `.
pub fn token_from_parsed(parsed: Result<serde_json::Value, serde_json::Error>) -> (loaded: Result<
    Option<String>,
    String,
>)
    ensures
        loaded_view(loaded) == token_of_parsed(parsed),
{
    match parsed {
        Ok(value) => Ok(token_in(&value)),
        Err(error) => Err(
            prefixed("Failed to parse token from keyring: ", error_text(&error).as_str()),
        ),
    }
}

/// Reads the token out of a stored record.
pub fn stored_token(text: &str) -> (loaded: Result<Option<String>, String>)
    ensures
        loaded_view(loaded) == token_of_record(text@),
{
    token_from_parsed(parse_value(text))
}

} // verus!
