//! Trusted bindings around `serde_json`: parsing a body into a JSON tree and
//! inspecting that tree. Every claim here is against `serde_json`'s own
//! behaviour; all decoding logic built on top is verified.

use vstd::prelude::*;
use crate::json::JsonV;

verus! {

#[verifier::external_type_specification]
#[verifier::external_body]
pub struct ExValue(serde_json::Value);

/// The JSON tree a `serde_json::Value` holds: numbers named by their
/// canonical decimal rendering, object entries in the order the underlying
/// map hands them out.
pub uninterp spec fn json_model(v: serde_json::Value) -> JsonV;

/// What `serde_json::from_str::<serde_json::Value>` yields on a text:
/// `None` exactly where the text is not well-formed JSON.
pub uninterp spec fn json_of(s: Seq<char>) -> Option<JsonV>;

/// Relies on `serde_json::from_str::<Value>`: the parse is a pure function
/// of the text, succeeding exactly on well-formed JSON.
#[verifier::external_body]
pub(crate) fn parse_json(body: &str) -> (r: Option<serde_json::Value>)
    ensures
        r is Some <==> json_of(body@) is Some,
        r matches Some(v) ==> json_of(body@) == Some(json_model(v)),
{
    serde_json::from_str::<serde_json::Value>(body).ok()
}

/// Relies on `serde_json::Value::as_object` and `Map::iter`: yields the
/// entries of an object, keys with their values, in the map's order.
#[verifier::external_body]
pub(crate) fn obj_entries(v: &serde_json::Value) -> (r: Option<
    Vec<(String, serde_json::Value)>,
>)
    ensures
        r is Some <==> json_model(*v) is Obj,
        r matches Some(es) ==> {
            &&& json_model(*v) matches JsonV::Obj(m)
            &&& es@.len() == m.len()
            &&& forall|i: int|
                0 <= i < m.len() ==> (#[trigger] es@[i]).0@ == m[i].0 && json_model(es@[i].1)
                    == m[i].1
        },
{
    v.as_object().map(|m| m.iter().map(|(k, x)| (k.clone(), x.clone())).collect())
}

/// Relies on `serde_json::Value::as_array`: yields the elements of an array
/// in order.
#[verifier::external_body]
pub(crate) fn arr_elems(v: &serde_json::Value) -> (r: Option<Vec<serde_json::Value>>)
    ensures
        r is Some <==> json_model(*v) is Arr,
        r matches Some(xs) ==> {
            &&& json_model(*v) matches JsonV::Arr(m)
            &&& xs@.len() == m.len()
            &&& forall|i: int| 0 <= i < m.len() ==> json_model(#[trigger] xs@[i]) == m[i]
        },
{
    v.as_array().map(|a| a.clone())
}

/// Relies on `serde_json::Value::as_str`: yields the text of a string value.
#[verifier::external_body]
pub(crate) fn str_value(v: &serde_json::Value) -> (r: Option<String>)
    ensures
        r is Some <==> json_model(*v) is StrV,
        r matches Some(s) ==> json_model(*v) == JsonV::StrV(s@),
{
    v.as_str().map(|s| s.to_owned())
}

/// Relies on `serde_json::Value::as_number` and `Number`'s `Display`: yields
/// the canonical decimal rendering of a number value, a pure function of the
/// number alone.
#[verifier::external_body]
pub(crate) fn num_text(v: &serde_json::Value) -> (r: Option<String>)
    ensures
        r is Some <==> json_model(*v) is Num,
        r matches Some(s) ==> json_model(*v) == JsonV::Num(s@),
{
    v.as_number().map(|n| n.to_string())
}

} // verus!
