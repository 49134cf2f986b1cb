//! Structured values and their JSON text.
//!
//! A [`Json`] is the transport-neutral value that crosses the boundary:
//! null, boolean, number, string, array or object.  Reading and writing the
//! text is left to `serde_json`; the functions here name what it returns.

use vstd::prelude::*;
use crate::text::optional_text;
use crate::value::float_is_finite;

verus! {

/// A JSON number: an integer in the exact range of the transport, an
/// integer that was written without a sign, fraction or exponent and is
/// above that range, or a floating point number as its binary64 bit
/// pattern.
#[derive(Debug, Clone, Copy, PartialEq, Eq, Structural)]
pub enum JsonNumber {
    Int(i64),
    Unsigned(u64),
    Float(u64),
}

/// A structured value.  An object is held as its members in order.
#[derive(Debug, PartialEq, Eq)]
pub enum Json {
    Null,
    Bool(bool),
    Number(JsonNumber),
    String(String),
    Array(Vec<Json>),
    Object(Vec<(String, Json)>),
}

/// The mathematical model of a [`Json`].
#[verifier::ext_equal]
pub enum JsonModel {
    Null,
    Bool(bool),
    Number(JsonNumber),
    Text(Seq<char>),
    Array(Seq<JsonModel>),
    Object(Seq<(Seq<char>, JsonModel)>),
}

/// The models of a sequence of structured values, element by element.
pub open spec fn items_view(items: Seq<Json>) -> Seq<JsonModel>
    decreases items,
{
    Seq::new(
        items.len(),
        |i: int|
            if 0 <= i < items.len() {
                items[i]@
            } else {
                JsonModel::Null
            },
    )
}

/// The models of a sequence of members, member by member.
pub open spec fn members_view(members: Seq<(String, Json)>) -> Seq<(Seq<char>, JsonModel)>
    decreases members,
{
    Seq::new(
        members.len(),
        |i: int|
            if 0 <= i < members.len() {
                (members[i].0@, members[i].1@)
            } else {
                (Seq::empty(), JsonModel::Null)
            },
    )
}

impl View for Json {
    type V = JsonModel;

    open spec fn view(&self) -> JsonModel
        decreases self,
    {
        match self {
            Json::Null => JsonModel::Null,
            Json::Bool(b) => JsonModel::Bool(*b),
            Json::Number(n) => JsonModel::Number(*n),
            Json::String(s) => JsonModel::Text(s@),
            Json::Array(items) => JsonModel::Array(items_view(items@)),
            Json::Object(members) => JsonModel::Object(members_view(members@)),
        }
    }
}

/// Whether the value is one that the codec writes: every floating point
/// number in it is finite, as JSON asks, and every integer is in the exact
/// range of the transport.
pub open spec fn well_formed(j: JsonModel) -> bool
    decreases j,
{
    match j {
        JsonModel::Number(JsonNumber::Float(bits)) => float_is_finite(bits),
        JsonModel::Number(JsonNumber::Unsigned(_)) => false,
        JsonModel::Array(items) => forall|i: int| 0 <= i < items.len() ==> well_formed(#[trigger] items[i]),
        JsonModel::Object(members) => forall|i: int|
            0 <= i < members.len() ==> well_formed((#[trigger] members[i]).1),
        _ => true,
    }
}

/// The model of the outcome of reading a value.
pub open spec fn parsed_view(r: Result<Json, String>) -> Result<JsonModel, Seq<char>> {
    match r {
        Ok(j) => Ok(j@),
        Err(e) => Err(e@),
    }
}

/// The model of the outcome of reading an object.
pub open spec fn parsed_members_view(r: Result<Vec<(String, Json)>, String>) -> Result<
    Seq<(Seq<char>, JsonModel)>,
    Seq<char>,
> {
    match r {
        Ok(m) => Ok(members_view(m@)),
        Err(e) => Err(e@),
    }
}

/// The JSON text that `serde_json::to_string` gives for a value, if it gives one.
pub uninterp spec fn json_text(j: JsonModel) -> Option<Seq<char>>;

/// What `serde_json::from_str` makes of a text read as any value: the value,
/// or the message of the error.
pub uninterp spec fn json_parse(text: Seq<char>) -> Result<JsonModel, Seq<char>>;

/// What `serde_json::from_str` makes of a text read as an object: its members
/// in the order of the map, or the message of the error.
pub uninterp spec fn json_parse_object(text: Seq<char>) -> Result<Seq<(Seq<char>, JsonModel)>, Seq<char>>;

/// A value of `serde_json`.
#[verifier::external_type_specification]
#[verifier::external_body]
pub struct ExJsonValue(serde_json::Value);

/// A number of `serde_json`.
#[verifier::external_type_specification]
#[verifier::external_body]
pub struct ExJsonNumber(serde_json::Number);

/// Hands a number to `serde_json`, variant by variant.  An integer of
/// either kind goes through `Value::from`, a bit pattern through
/// `Number::from_f64`, which has no number for a pattern that is not
/// finite: such a pattern becomes null.
#[verifier::external_body]
fn export_number(n: &JsonNumber) -> serde_json::Value {
    match n {
        JsonNumber::Int(i) => serde_json::Value::from(*i),
        JsonNumber::Unsigned(u) => serde_json::Value::from(*u),
        JsonNumber::Float(bits) => serde_json::Number::from_f64(
            num_traits::FromBytes::from_ne_bytes(&bits.to_ne_bytes()),
        ).map_or(serde_json::Value::Null, serde_json::Value::Number),
    }
}

/// Hands a value to `serde_json`, variant by variant.  The members of an
/// object are collected into a `serde_json::Map`, where a later member
/// replaces an earlier one of the same name.
#[verifier::external_body]
fn export_json(j: &Json) -> serde_json::Value {
    match j {
        Json::Null => serde_json::Value::Null,
        Json::Bool(b) => serde_json::Value::Bool(*b),
        Json::Number(n) => export_number(n),
        Json::String(s) => serde_json::Value::String(s.clone()),
        Json::Array(items) => serde_json::Value::Array(items.iter().map(export_json).collect()),
        Json::Object(m) => serde_json::Value::Object(m.iter().map(|(k, v)| (k.clone(), export_json(v))).collect()),
    }
}

/// Takes a number from `serde_json`, told apart by its accessors: where
/// `Number::as_i64` gives an integer it is that integer, else where
/// `Number::as_u64` gives one it is that unsigned integer, else it is the
/// bit pattern of the floating point number that `Number::as_f64` gives.
#[verifier::external_body]
fn import_number(n: &serde_json::Number) -> JsonNumber {
    match (n.as_i64(), n.as_u64()) {
        (Some(i), _) => JsonNumber::Int(i),
        (None, Some(u)) => JsonNumber::Unsigned(u),
        (None, None) => JsonNumber::Float(n.as_f64().map_or(0, |f| f.to_bits())),
    }
}

/// Takes a value from `serde_json`, variant by variant.  The members of an
/// object come in the order in which its map hands them out.
#[verifier::external_body]
fn import_json(v: &serde_json::Value) -> Json {
    match v {
        serde_json::Value::Null => Json::Null,
        serde_json::Value::Bool(b) => Json::Bool(*b),
        serde_json::Value::Number(n) => Json::Number(import_number(n)),
        serde_json::Value::String(s) => Json::String(s.clone()),
        serde_json::Value::Array(items) => Json::Array(items.iter().map(import_json).collect()),
        serde_json::Value::Object(m) => Json::Object(m.iter().map(|(k, v)| (k.clone(), import_json(v))).collect()),
    }
}

/// Writes a value as JSON text with `serde_json::to_string`.  The result is
/// the text named by [`json_text`], absent where the serializer fails.
#[verifier::external_body]
pub(crate) fn to_text(j: &Json) -> (r: Option<String>)
    ensures
        optional_text(r) == json_text(j@),
{
    serde_json::to_string(&export_json(j)).ok()
}

/// Reads a text as a value with `serde_json::from_str`.  The result is the
/// outcome named by [`json_parse`]; an error is given as its display text.
#[verifier::external_body]
pub(crate) fn parse(text: &str) -> (r: Result<Json, String>)
    ensures
        parsed_view(r) == json_parse(text@),
{
    match serde_json::from_str::<serde_json::Value>(text) {
        Ok(v) => Ok(import_json(&v)),
        Err(e) => Err(e.to_string()),
    }
}

/// Reads a text as an object with `serde_json::from_str`.  The result is the
/// outcome named by [`json_parse_object`]; an error is given as its display
/// text.
#[verifier::external_body]
pub(crate) fn parse_object(text: &str) -> (r: Result<Vec<(String, Json)>, String>)
    ensures
        parsed_members_view(r) == json_parse_object(text@),
{
    match serde_json::from_str::<serde_json::Map<String, serde_json::Value>>(text) {
        Ok(m) => Ok(m.iter().map(|(k, v)| (k.clone(), import_json(v))).collect()),
        Err(e) => Err(e.to_string()),
    }
}

} // verus!
