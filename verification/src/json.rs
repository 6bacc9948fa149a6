//! JSON documents. Reading and writing JSON text is the work of `serde_json`;
//! this module says what the library relies on from it.
use vstd::prelude::*;

verus! {

/// What a JSON value holds, as far as this library reads it.
pub enum Json {
    Null,
    /// A number written as an unsigned integer that fits in 64 bits.
    Natural(nat),
    Text(Seq<char>),
    Object(Map<Seq<char>, Json>),
    /// Anything else: a boolean, an array, any other number.
    Other,
}

impl Json {
    /// The member of an object under `key`. A value that is no object has no
    /// members.
    pub open spec fn member(self, key: Seq<char>) -> Option<Json> {
        match self {
            Json::Object(members) => if members.contains_key(key) {
                Some(members[key])
            } else {
                None
            },
            _ => None,
        }
    }

    /// The text of a JSON string; `None` for every other value.
    pub open spec fn text(self) -> Option<Seq<char>> {
        match self {
            Json::Text(t) => Some(t),
            _ => None,
        }
    }

    /// The number held by an unsigned integer; `None` for every other value.
    pub open spec fn natural(self) -> Option<nat> {
        match self {
            Json::Natural(n) => Some(n),
            _ => None,
        }
    }
}

#[verifier::external_type_specification]
#[verifier::external_body]
pub struct ExValue(serde_json::Value);

/// What a `serde_json::Value` holds.
pub uninterp spec fn json_model(value: serde_json::Value) -> Json;

/// What `serde_json` makes of a text: the document it reads, or the message
/// with which it turns the text down.
pub uninterp spec fn json_parse(text: Seq<char>) -> Result<Json, Seq<char>>;

/// What `serde_json` writes for a string: the JSON string literal, quoted and
/// escaped, or the message with which it fails.
pub uninterp spec fn json_quote(text: Seq<char>) -> Result<Seq<char>, Seq<char>>;

/// Calls `serde_json::from_str` to read a text as one JSON value. On failure
/// the error is handed back as the message it displays. The contract only
/// names the outcome: it is `json_parse` of the text.
#[verifier::external_body]
pub(crate) fn parse(text: &str) -> (r: Result<serde_json::Value, String>)
    ensures
        match r {
            Ok(value) => json_parse(text@) == Ok::<Json, Seq<char>>(json_model(value)),
            Err(message) => json_parse(text@) == Err::<Json, Seq<char>>(message@),
        },
{
    match serde_json::from_str::<serde_json::Value>(text) {
        Ok(value) => Ok(value),
        Err(error) => Err(error.to_string()),
    }
}

/// Calls `serde_json::Value::get` with a string key: the member under that key
/// where the value is an object that has one, else `None`.
#[verifier::external_body]
pub(crate) fn get<'a>(value: &'a serde_json::Value, key: &str) -> (r: Option<&'a serde_json::Value>)
    ensures
        json_model(*value).member(key@) == match r {
            Some(member) => Some(json_model(*member)),
            None => None,
        },
{
    value.get(key)
}

/// Calls `serde_json::Value::as_str`: the text where the value is a string,
/// else `None`.
#[verifier::external_body]
pub(crate) fn as_str<'a>(value: &'a serde_json::Value) -> (r: Option<&'a str>)
    ensures
        json_model(*value).text() == match r {
            Some(text) => Some(text@),
            None => None,
        },
{
    value.as_str()
}

/// Calls `serde_json::Value::as_u64`: the number where the value is a number
/// held as an unsigned 64-bit integer, else `None`.
#[verifier::external_body]
pub(crate) fn as_u64(value: &serde_json::Value) -> (r: Option<u64>)
    ensures
        json_model(*value).natural() == match r {
            Some(n) => Some(n as nat),
            None => None,
        },
{
    value.as_u64()
}

/// Calls `serde_json::Value::is_null`.
#[verifier::external_body]
pub(crate) fn is_null(value: &serde_json::Value) -> (r: bool)
    ensures
        r == (json_model(*value) is Null),
{
    value.is_null()
}

/// Calls `serde_json::to_string` on a string slice, which writes it as a JSON
/// string literal. On failure the error is handed back as the message it
/// displays. The contract only names the outcome: it is `json_quote` of the
/// text.
#[verifier::external_body]
pub(crate) fn quote(text: &str) -> (r: Result<String, String>)
    ensures
        match r {
            Ok(literal) => json_quote(text@) == Ok::<Seq<char>, Seq<char>>(literal@),
            Err(message) => json_quote(text@) == Err::<Seq<char>, Seq<char>>(message@),
        },
{
    match serde_json::to_string(text) {
        Ok(literal) => Ok(literal),
        Err(error) => Err(error.to_string()),
    }
}

} // verus!
