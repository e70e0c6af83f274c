use vstd::prelude::*;

use serde_json::Value;

verus! {

/// `serde_json::Value`, held opaque: carried, never looked into.
#[verifier::external_type_specification]
#[verifier::external_body]
pub struct ExJsonValue(serde_json::Value);

/// `serde_json::Error`, held opaque.
#[verifier::external_type_specification]
#[verifier::external_body]
pub struct ExJsonError(serde_json::Error);

/// `anyhow::Error`, held opaque.
#[verifier::external_type_specification]
#[verifier::external_body]
pub struct ExAnyhowError(anyhow::Error);

/// `Clone` of `serde_json::Value` is derived: the copy is the same value.
pub assume_specification[ <serde_json::Value as Clone>::clone ](value: &serde_json::Value) -> (res: serde_json::Value)
    ensures
        res == *value,
;

/// Whether serde_json reads `text` as a JSON value.
pub uninterp spec fn json_text_parses(text: Seq<char>) -> bool;

/// The JSON value that serde_json reads from `text`, where it reads one.
pub uninterp spec fn json_value_of_text(text: Seq<char>) -> serde_json::Value;

/// The compact JSON text that serde_json writes for `value`.
pub uninterp spec fn json_value_text_of(value: serde_json::Value) -> Seq<char>;

/// Reads `text` with `serde_json::from_str` as a JSON value; the contract
/// claims that whether it succeeds, and the value it yields, depend on the
/// text alone.
#[verifier::external_body]
fn parse_json_value(text: &str) -> (res: Result<Value, serde_json::Error>)
    ensures
        res is Ok <==> json_text_parses(text@),
        res matches Ok(v) ==> v == json_value_of_text(text@),
{
    serde_json::from_str::<Value>(text)
}

/// Turns a serde_json error into an `anyhow::Error` with `anyhow::Error::from`;
/// nothing is stated of the result.
#[verifier::external_body]
fn json_error_into_anyhow(err: serde_json::Error) -> anyhow::Error {
    anyhow::Error::from(err)
}

/// Writes a JSON value as compact JSON text with `serde_json::to_string`,
/// which cannot fail for a `Value` since its maps have text keys; the contract
/// claims that the text depends on the value alone.
#[verifier::external_body]
fn json_value_text(value: &Value) -> (text: String)
    ensures
        text@ == json_value_text_of(*value),
{
    serde_json::to_string(value).unwrap_or_default()
}

/// A JSON value handed across the foreign-language boundary as text.
#[derive(Clone, Debug)]
pub struct JsonValue(pub Value);

impl JsonValue {
    /// Consumes the wrapper and returns the inner value.
    pub fn into_inner(self) -> (value: Value)
        ensures
            value == self.0,
    {
        self.0
    }

    /// The inner value, without moving it.
    pub fn as_inner(&self) -> (value: &Value)
        ensures
            *value == self.0,
    {
        &self.0
    }

    /// Reads `text` as a JSON value; this fails exactly when serde_json does.
    pub fn from_text(text: String) -> (res: Result<JsonValue, anyhow::Error>)
        ensures
            res is Ok <==> json_text_parses(text@),
            res matches Ok(j) ==> j.0 == json_value_of_text(text@),
    {
        match parse_json_value(text.as_str()) {
            Ok(value) => Ok(JsonValue(value)),
            Err(err) => Err(json_error_into_anyhow(err)),
        }
    }

    /// The value as compact JSON text.
    pub fn to_text(&self) -> (text: String)
        ensures
            text@ == json_value_text_of(self.0),
    {
        json_value_text(&self.0)
    }
}

impl TryFrom<String> for JsonValue {
    type Error = anyhow::Error;

    fn try_from(val: String) -> (res: Result<Self, Self::Error>)
        ensures
            res is Ok <==> json_text_parses(val@),
            res matches Ok(j) ==> j.0 == json_value_of_text(val@),
    {
        JsonValue::from_text(val)
    }
}

impl vstd::std_specs::convert::TryFromSpecImpl<String> for JsonValue {
    open spec fn obeys_try_from_spec() -> bool {
        false
    }

    open spec fn try_from_spec(val: String) -> Result<Self, anyhow::Error> {
        vstd::pervasive::arbitrary()
    }
}

impl From<JsonValue> for String {
    fn from(val: JsonValue) -> (res: String)
        ensures
            res@ == json_value_text_of(val.0),
    {
        val.to_text()
    }
}

impl vstd::std_specs::convert::FromSpecImpl<JsonValue> for String {
    open spec fn obeys_from_spec() -> bool {
        false
    }

    open spec fn from_spec(val: JsonValue) -> String {
        vstd::pervasive::arbitrary()
    }
}

impl From<Value> for JsonValue {
    fn from(v: Value) -> (res: JsonValue) {
        JsonValue(v)
    }
}

impl vstd::std_specs::convert::FromSpecImpl<Value> for JsonValue {
    open spec fn obeys_from_spec() -> bool {
        true
    }

    open spec fn from_spec(v: Value) -> JsonValue {
        JsonValue(v)
    }
}

impl From<JsonValue> for Value {
    fn from(v: JsonValue) -> (res: Value) {
        v.0
    }
}

impl vstd::std_specs::convert::FromSpecImpl<JsonValue> for Value {
    open spec fn obeys_from_spec() -> bool {
        true
    }

    open spec fn from_spec(v: JsonValue) -> Value {
        v.0
    }
}

impl std::ops::Deref for JsonValue {
    type Target = Value;

    fn deref(&self) -> (res: &Value)
        ensures
            *res == self.0,
    {
        &self.0
    }
}

} // verus!
