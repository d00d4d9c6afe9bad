//! The parsed form of a request body: a flat list of fields, each a key with
//! the shallow kind of its value. The webhook wire format is a single JSON
//! object whose relevant members are strings, so nothing deeper is kept: a
//! nested array or object in a member is a type mismatch wherever a string is
//! required, and its contents never matter.

use vstd::prelude::*;

verus! {

/// The shallow kind of one JSON value inside the top-level object. Only
/// string members carry their contents; every other kind is rejected by the
/// decoder wherever a string is required, so nothing more of it is kept.
#[derive(Debug, Clone, PartialEq, Eq)]
pub enum JsonValue {
    Null,
    Bool(bool),
    Number,
    Str(String),
    Array,
    Object,
}

/// Why a request body could not be turned into a field list at all.
#[derive(Debug, Clone, PartialEq, Eq)]
pub enum JsonError {
    /// The body is not a well-formed JSON document.
    Syntax,
    /// The body is well-formed JSON, but its top-level value is not an object.
    NotObject,
}

/// What parsing a given body yields: the top-level object's members in the
/// parser's order, or the reason there are none. The result depends on the
/// text alone.
pub uninterp spec fn parsed_json(s: Seq<char>) -> Result<Seq<(String, JsonValue)>, JsonError>;

/// Relies on `serde_json::from_str::<serde_json::Value>`: parses a JSON
/// document; what does not parse is a syntax failure. The top-level object's
/// members are handed over with string contents kept and every other value
/// reduced to its kind.
#[verifier::external_body]
pub fn parse_json_object(s: &str) -> (r: Result<Vec<(String, JsonValue)>, JsonError>)
    ensures
        (match (r, parsed_json(s@)) {
            (Ok(fields), Ok(m)) => fields@ == m,
            (Err(e), Err(me)) => e == me,
            _ => false,
        }),
{
    match serde_json::from_str::<serde_json::Value>(s) {
        Ok(serde_json::Value::Object(members)) => Ok(
            members.into_iter().map(|(k, v)| (k, match v {
                serde_json::Value::Null => JsonValue::Null,
                serde_json::Value::Bool(b) => JsonValue::Bool(b),
                serde_json::Value::Number(_) => JsonValue::Number,
                serde_json::Value::String(t) => JsonValue::Str(t),
                serde_json::Value::Array(_) => JsonValue::Array,
                serde_json::Value::Object(_) => JsonValue::Object,
            })).collect(),
        ),
        Ok(_) => Err(JsonError::NotObject),
        Err(_) => Err(JsonError::Syntax),
    }
}

/// The message reported when the request is not a JSON object at all.
pub open spec fn json_error_msg(e: JsonError) -> Seq<char> {
    match e {
        JsonError::Syntax => "invalid JSON"@,
        JsonError::NotObject => "expected a JSON object"@,
    }
}

/// The value of the first field named `key`, if any.
pub open spec fn lookup(fields: Seq<(String, JsonValue)>, key: Seq<char>) -> Option<JsonValue>
    decreases fields.len(),
{
    if fields.len() == 0 {
        None
    } else if fields[0].0@ == key {
        Some(fields[0].1)
    } else {
        lookup(fields.drop_first(), key)
    }
}

} // verus!
