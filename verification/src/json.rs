//! A mathematical model of JSON documents and trusted access to
//! `serde_json`'s document values.
//!
//! Parsed documents are carried as opaque `serde_json::Value`s; the ghost
//! function `value_model` names what such a value holds, and each accessor
//! the decoders use is a thin trusted wrapper whose contract states, over
//! that model, what `serde_json`'s source shows.

use vstd::prelude::*;

verus! {

/// The mathematical shape of a JSON value. A number is modelled by what
/// `as_i64` returns for it: `Some` exactly for integers that fit in an
/// `i64`, which is all the decoders ever read of a number.
pub enum JsonModel {
    Null,
    Bool(bool),
    Num(Option<i64>),
    Str(Seq<char>),
    Arr(Seq<JsonModel>),
    Obj(Map<Seq<char>, JsonModel>),
}

#[verifier::external_type_specification]
#[verifier::external_body]
pub struct ExValue(serde_json::Value);

/// What a parsed `serde_json::Value` holds.
pub uninterp spec fn value_model(v: serde_json::Value) -> JsonModel;

/// The models of a sequence of parsed values.
pub open spec fn models_of(a: Seq<serde_json::Value>) -> Seq<JsonModel> {
    Seq::new(a.len(), |i: int| value_model(a[i]))
}

/// What `serde_json::from_str::<Value>` yields on a document: `None` when
/// the text is not well-formed JSON, otherwise the model of the parsed
/// value. Parsing is a function of the text alone.
pub uninterp spec fn json_parse(s: Seq<char>) -> Option<JsonModel>;

/// Relies on `serde_json::from_str::<Value>`: parses a JSON document.
/// The error case carries `serde_json`'s rendered message for diagnosis.
#[verifier::external_body]
pub fn parse_value(text: &str) -> (r: Result<serde_json::Value, String>)
    ensures
        r is Ok <==> json_parse(text@) is Some,
        r matches Ok(v) ==> json_parse(text@) == Some(value_model(v)),
{
    serde_json::from_str::<serde_json::Value>(text).map_err(|e| e.to_string())
}

/// Relies on `serde_json::Value::get` with a string index: looks a key up
/// in a JSON object; on any other kind of value the result is `None`.
#[verifier::external_body]
pub fn value_field<'a>(v: &'a serde_json::Value, key: &str) -> (r: Option<
    &'a serde_json::Value,
>)
    ensures
        value_model(*v) matches JsonModel::Obj(m) ==> {
            &&& r is Some <==> m.contains_key(key@)
            &&& (r matches Some(f) ==> m.contains_key(key@) && value_model(*f) == m[key@])
        },
        !(value_model(*v) is Obj) ==> r is None,
{
    v.get(key)
}

/// Relies on `serde_json::Value::as_str`: the borrowed string of a JSON
/// string value, `None` for every other kind of value.
#[verifier::external_body]
pub fn value_as_str<'a>(v: &'a serde_json::Value) -> (r: Option<&'a str>)
    ensures
        value_model(*v) matches JsonModel::Str(s) ==> {
            &&& r is Some
            &&& (r matches Some(x) ==> x@ == s)
        },
        !(value_model(*v) is Str) ==> r is None,
{
    v.as_str()
}

/// Relies on `serde_json::Value::as_i64`: the value of a JSON number that
/// is an integer representable as `i64`, `None` otherwise.
#[verifier::external_body]
pub fn value_as_i64(v: &serde_json::Value) -> (r: Option<i64>)
    ensures
        value_model(*v) matches JsonModel::Num(rep) ==> r == rep,
        !(value_model(*v) is Num) ==> r is None,
{
    v.as_i64()
}

/// Relies on `serde_json::Value::as_bool`: the value of a JSON boolean,
/// `None` for every other kind of value.
#[verifier::external_body]
pub fn value_as_bool(v: &serde_json::Value) -> (r: Option<bool>)
    ensures
        value_model(*v) matches JsonModel::Bool(b) ==> r == Some(b),
        !(value_model(*v) is Bool) ==> r is None,
{
    v.as_bool()
}

/// Relies on `serde_json::Value::as_array`: the elements of a JSON array,
/// `None` for every other kind of value.
#[verifier::external_body]
pub fn value_as_array<'a>(v: &'a serde_json::Value) -> (r: Option<&'a Vec<serde_json::Value>>)
    ensures
        value_model(*v) matches JsonModel::Arr(s) ==> {
            &&& r is Some
            &&& (r matches Some(a) ==> a@.len() == s.len() && (forall|i: int|
                0 <= i < s.len() ==> value_model(#[trigger] a@[i]) == s[i]))
        },
        !(value_model(*v) is Arr) ==> r is None,
{
    v.as_array()
}

/// Relies on `serde_json::Value::is_null`: whether the value is JSON null.
#[verifier::external_body]
pub fn value_is_null(v: &serde_json::Value) -> (r: bool)
    ensures
        r == (value_model(*v) is Null),
{
    v.is_null()
}

} // verus!
