//! Trusted access to `serde_json`'s dynamic value.
//!
//! Response bodies arrive as JSON text. `serde_json` parses them into
//! its `Value` tree, which this crate's verified decoders walk through
//! the thin wrappers below. A `Value` itself is opaque to the verifier,
//! so its content is given a name: `value_model` stands for the tree a
//! value holds, and `json_model_of` for what parsing a given text
//! yields — a function of the text alone. Each wrapper's contract ties
//! what it returns to those names, and the decoders are verified, for
//! every body, against spec-level decodes of the named model.

use vstd::prelude::*;

verus! {

/// A spec-level picture of a JSON value: exactly what the decoders can
/// observe of one through the wrappers below.
pub enum JsonModel {
    Null,
    Bool(bool),
    /// A number that is an integer within `u64`'s range.
    UIntNum(u64),
    /// Any other number: negative or fractional.
    OtherNum,
    Str(Seq<char>),
    Arr(Seq<JsonModel>),
    /// An object, one value per key (a repeated key keeps the last
    /// value, as `serde_json` does).
    Obj(Map<Seq<char>, JsonModel>),
}

/// What parsing a text as JSON yields: `None` when the text is not
/// well-formed JSON (or exceeds the parser's recursion limit), else the
/// model of the parsed value. A function of the text alone.
pub uninterp spec fn json_model_of(s: Seq<char>) -> Option<JsonModel>;

/// The tree a `serde_json::Value` holds.
pub uninterp spec fn value_model(v: serde_json::Value) -> JsonModel;

/// `serde_json::Value`, declared so it can stand in signatures; what a
/// value holds is reached only through `value_model`.
#[verifier::external_type_specification]
#[verifier::external_body]
pub struct ExValue(serde_json::Value);

/// Relies on `serde_json::from_str::<Value>`: parses JSON text exactly
/// when it is well-formed, returning the value `json_model_of` names.
#[verifier::external_body]
pub(crate) fn json_parse(s: &str) -> (r: Option<serde_json::Value>)
    ensures
        r is Some <==> json_model_of(s@) is Some,
        r matches Some(v) ==> json_model_of(s@) == Some(value_model(v)),
{
    serde_json::from_str::<serde_json::Value>(s).ok()
}

/// Relies on `serde_json::Value::get`: the value of a key, exactly when
/// the value is an object holding that key.
#[verifier::external_body]
pub(crate) fn json_get<'a>(v: &'a serde_json::Value, key: &str) -> (r: Option<
    &'a serde_json::Value,
>)
    ensures
        (match r {
            Some(f) => {
                &&& value_model(*v) matches JsonModel::Obj(fields)
                &&& fields.dom().contains(key@)
                &&& value_model(*f) == fields[key@]
            },
            None => !(value_model(*v) matches JsonModel::Obj(fields) && fields.dom().contains(
                key@,
            )),
        }),
{
    v.get(key)
}

/// Relies on `serde_json::Value::as_str`: the string slice, exactly
/// when the value is a JSON string.
#[verifier::external_body]
pub(crate) fn json_as_str<'a>(v: &'a serde_json::Value) -> (r: Option<&'a str>)
    ensures
        (match r {
            Some(t) => value_model(*v) == JsonModel::Str(t@),
            None => !(value_model(*v) is Str),
        }),
{
    v.as_str()
}

/// Relies on `serde_json::Value::as_bool`: the boolean, exactly when
/// the value is a JSON boolean.
#[verifier::external_body]
pub(crate) fn json_as_bool(v: &serde_json::Value) -> (r: Option<bool>)
    ensures
        (match r {
            Some(b) => value_model(*v) == JsonModel::Bool(b),
            None => !(value_model(*v) is Bool),
        }),
{
    v.as_bool()
}

/// Relies on `serde_json::Value::as_u64`: the number, exactly when the
/// value is an integer number within `u64`'s range.
#[verifier::external_body]
pub(crate) fn json_as_u64(v: &serde_json::Value) -> (r: Option<u64>)
    ensures
        (match r {
            Some(n) => value_model(*v) == JsonModel::UIntNum(n),
            None => !(value_model(*v) is UIntNum),
        }),
{
    v.as_u64()
}

/// Relies on `serde_json::Value::as_array`: the elements in order,
/// exactly when the value is a JSON array.
#[verifier::external_body]
pub(crate) fn json_as_array<'a>(v: &'a serde_json::Value) -> (r: Option<&'a Vec<serde_json::Value>>)
    ensures
        (match r {
            Some(arr) => {
                &&& value_model(*v) matches JsonModel::Arr(elems)
                &&& arr@.len() == elems.len()
                &&& forall|i: int|
                    0 <= i < elems.len() ==> value_model(#[trigger] arr@[i]) == elems[i]
            },
            None => !(value_model(*v) is Arr),
        }),
{
    v.as_array()
}

/// Relies on `serde_json::Value::is_null`: whether the value is JSON
/// `null`.
#[verifier::external_body]
pub(crate) fn json_is_null(v: &serde_json::Value) -> (r: bool)
    ensures
        r == (value_model(*v) is Null),
{
    v.is_null()
}

/// Relies on `serde_json::Value::is_object`: whether the value is a
/// JSON object.
#[verifier::external_body]
pub(crate) fn json_is_object(v: &serde_json::Value) -> (r: bool)
    ensures
        r == (value_model(*v) is Obj),
{
    v.is_object()
}

} // verus!
