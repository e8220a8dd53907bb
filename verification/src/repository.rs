//! Reading a JSON document whose top level is an object into a map from key
//! to JSON value.

use serde_json::Value;
use std::collections::HashMap;
use vstd::prelude::*;

verus! {

#[verifier::external_type_specification]
#[verifier::external_body]
pub struct ExJsonValue(Value);

#[verifier::external_type_specification]
#[verifier::external_body]
pub struct ExJsonError(serde_json::Error);

/// A JSON object: its keys and values.
pub type JsonObject = HashMap<String, Value>;

/// The outcome of reading a JSON object.
pub type JsonObjectParse = Result<JsonObject, serde_json::Error>;

/// The entries of the JSON object that `text` holds, key to value, or `None`
/// when serde_json does not read `text` as a JSON object: malformed text,
/// trailing text, a value of another kind at the top level, or nesting beyond
/// its limit.
pub uninterp spec fn json_object(text: Seq<char>) -> Option<Map<String, Value>>;

/// `serde_json::from_str`, read into a map from key to JSON value: it
/// succeeds exactly when serde_json reads `text` as a JSON object, and the
/// map it gives is then the entries of that object, which depend on the text
/// alone (of a key written twice, the last value).
#[verifier::external_body]
fn parse_json_object(text: &str) -> (parsed: JsonObjectParse)
    ensures
        parsed is Ok <==> json_object(text@) is Some,
        parsed matches Ok(object) ==> object@ == json_object(text@)->0,
{
    serde_json::from_str(text)
}

/// The object that `json_string` holds, as a map from key to JSON value.
pub fn string_to_hasmap(json_string: &str) -> (object: JsonObject)
    requires
        json_object(json_string@) is Some,
    ensures
        object@ == json_object(json_string@)->0,
{
    match parse_json_object(json_string) {
        Ok(object) => object,
        Err(_) => {
            assert(false);
            HashMap::new()
        },
    }
}

/// The object that `json_string` holds, as a map from key to JSON value, or
/// `None` when serde_json does not read `json_string` as a JSON object.
pub fn try_string_to_hasmap(json_string: &str) -> (object: Option<JsonObject>)
    ensures
        object is Some <==> json_object(json_string@) is Some,
        object matches Some(found) ==> found@ == json_object(json_string@)->0,
{
    match parse_json_object(json_string) {
        Ok(_) => Some(string_to_hasmap(json_string)),
        Err(_) => None,
    }
}

} // verus!
