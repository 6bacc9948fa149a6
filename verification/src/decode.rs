//! Reading the fields of a JSON payload.
use vstd::prelude::*;
use vstd::string::*;
use crate::datetime_utils::{datetime_of, deserialize_datetime, UtcInstant};
use crate::json::{json_model, Json};
use crate::proof_type::{CircuitType, SnarkifyProofType};
use crate::proving_service::text_view;
use crate::task_state::SnarkifyTaskState;

verus! {

/// Why a payload was turned down.
#[derive(Clone, Debug, PartialEq, Eq)]
pub enum DecodeError {
    /// The text is no JSON document. The field holds the parser's message.
    Syntax(String),
    /// The document lacks a field, or holds a value of the wrong kind in it.
    /// The field holds the field's name.
    Field(&'static str),
}

pub enum DecodeErrorView {
    Syntax(Seq<char>),
    Field(Seq<char>),
}

impl View for DecodeError {
    type V = DecodeErrorView;

    open spec fn view(&self) -> DecodeErrorView {
        match self {
            DecodeError::Syntax(message) => DecodeErrorView::Syntax(message@),
            DecodeError::Field(name) => DecodeErrorView::Field(name@),
        }
    }
}

impl DecodeErrorView {
    /// The sentence that reports this error.
    pub open spec fn message(self) -> Seq<char> {
        match self {
            DecodeErrorView::Syntax(message) => "malformed payload: "@ + message,
            DecodeErrorView::Field(name) => "malformed payload: missing or invalid field "@ + name,
        }
    }
}

impl DecodeError {
    /// The sentence that reports this error.
    pub fn message(&self) -> (r: String)
        ensures
            r@ == self@.message(),
    {
        match self {
            DecodeError::Syntax(message) => {
                String::from_str("malformed payload: ").concat(message.as_str())
            },
            DecodeError::Field(name) => {
                String::from_str("malformed payload: missing or invalid field ").concat(name)
            },
        }
    }
}

/// The string under `key`; `None` where the document has no such member or the
/// member is no string.
pub open spec fn text_field(doc: Json, key: Seq<char>) -> Option<Seq<char>> {
    match doc.member(key) {
        Some(member) => member.text(),
        None => None,
    }
}

/// The string under `key` of a field that may be left out: nothing where the
/// member is missing or `null`, the text where it is a string, and no reading
/// at all (`None`) where it is anything else.
pub open spec fn optional_text_field(doc: Json, key: Seq<char>) -> Option<Option<Seq<char>>> {
    match doc.member(key) {
        None => Some(None),
        Some(Json::Null) => Some(None),
        Some(Json::Text(text)) => Some(Some(text)),
        Some(_) => None,
    }
}

/// The timestamp under `key`. The member must be there: `null` for an absent
/// timestamp, or a string that names an instant.
pub open spec fn datetime_field(doc: Json, key: Seq<char>) -> Option<Option<int>> {
    match doc.member(key) {
        Some(member) => datetime_of(member),
        None => None,
    }
}

/// The task state under `state`.
pub open spec fn state_field(doc: Json) -> Option<SnarkifyTaskState> {
    match text_field(doc, "state"@) {
        Some(name) => SnarkifyTaskState::spec_from_wire_name(name),
        None => None,
    }
}

/// The proof type under `proof_type`, a field that may be left out.
pub open spec fn proof_type_field(doc: Json) -> Option<Option<SnarkifyProofType>> {
    match optional_text_field(doc, "proof_type"@) {
        None => None,
        Some(None) => Some(None),
        Some(Some(name)) => match SnarkifyProofType::spec_from_wire_name(name) {
            Some(proof_type) => Some(Some(proof_type)),
            None => None,
        },
    }
}

/// The circuit type under `circuit_type`: a number from 0 to 255, read by its
/// code.
pub open spec fn circuit_type_field(doc: Json) -> Option<CircuitType> {
    match doc.member("circuit_type"@) {
        Some(Json::Natural(code)) => if code <= 255 {
            Some(CircuitType::of_code(code))
        } else {
            None
        },
        _ => None,
    }
}

/// The characters of an optional string slice.
pub open spec fn slice_view(text: Option<&str>) -> Option<Seq<char>> {
    match text {
        Some(t) => Some(t@),
        None => None,
    }
}

/// The seconds of an optional instant.
pub open spec fn instant_view(instant: Option<UtcInstant>) -> Option<int> {
    match instant {
        Some(i) => Some(i@),
        None => None,
    }
}

pub(crate) fn read_text<'a>(doc: &'a serde_json::Value, key: &str) -> (r: Option<&'a str>)
    ensures
        slice_view(r) == text_field(json_model(*doc), key@),
{
    match crate::json::get(doc, key) {
        Some(member) => crate::json::as_str(member),
        None => None,
    }
}

pub(crate) fn read_optional_text(doc: &serde_json::Value, key: &str) -> (r: Option<Option<String>>)
    ensures
        match r {
            Some(text) => optional_text_field(json_model(*doc), key@) == Some(text_view(text)),
            None => optional_text_field(json_model(*doc), key@) is None,
        },
{
    match crate::json::get(doc, key) {
        None => Some(None),
        Some(member) => {
            if crate::json::is_null(member) {
                Some(None)
            } else {
                match crate::json::as_str(member) {
                    Some(text) => Some(Some(String::from_str(text))),
                    None => None,
                }
            }
        },
    }
}

pub(crate) fn read_datetime(doc: &serde_json::Value, key: &str) -> (r: Option<Option<UtcInstant>>)
    ensures
        match r {
            Some(instant) => datetime_field(json_model(*doc), key@) == Some(instant_view(instant)),
            None => datetime_field(json_model(*doc), key@) is None,
        },
{
    match crate::json::get(doc, key) {
        None => None,
        Some(member) => match deserialize_datetime(member) {
            Ok(instant) => Some(instant),
            Err(_) => None,
        },
    }
}

pub(crate) fn read_state(doc: &serde_json::Value) -> (r: Option<SnarkifyTaskState>)
    ensures
        r == state_field(json_model(*doc)),
{
    match read_text(doc, "state") {
        Some(name) => SnarkifyTaskState::from_wire_name(name),
        None => None,
    }
}

pub(crate) fn read_proof_type(doc: &serde_json::Value) -> (r: Option<Option<SnarkifyProofType>>)
    ensures
        r == proof_type_field(json_model(*doc)),
{
    match read_optional_text(doc, "proof_type") {
        None => None,
        Some(None) => Some(None),
        Some(Some(name)) => match SnarkifyProofType::from_wire_name(name.as_str()) {
            Some(proof_type) => Some(Some(proof_type)),
            None => None,
        },
    }
}

pub(crate) fn read_circuit_type(doc: &serde_json::Value) -> (r: Option<CircuitType>)
    ensures
        r == circuit_type_field(json_model(*doc)),
{
    match crate::json::get(doc, "circuit_type") {
        None => None,
        Some(member) => match crate::json::as_u64(member) {
            None => None,
            Some(code) => {
                if code <= 255 {
                    Some(CircuitType::from_u8(code as u8))
                } else {
                    None
                }
            },
        },
    }
}

} // verus!
