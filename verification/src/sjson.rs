//! Trusted view of the JSON parser used to read guest-agent replies.
//!
//! Replies arrive as text; the JSON crate parses them and the functions
//! here hand single values through. What a parsed value holds is named
//! by `json_model`, a document model over which every reader's contract
//! is exact: which texts parse is still the parser's own business, but
//! everything read out of an accepted document is pinned down.

use vstd::prelude::*;

verus! {

#[verifier::external_type_specification]
#[verifier::external_body]
pub struct ExValue(serde_json::Value);

/// The shape of a parsed JSON document, as the contracts here see it.
/// A number carries its value as a signed 64-bit integer exactly when it
/// is an integer representable in one. What any other number maps to is
/// left open: `json_model` below is only a name, so distinct values may
/// carry distinct models, and nothing here ever equates two of them — or
/// their serializations.
pub ghost enum JsonM {
    Null,
    Bool(bool),
    Num(Option<i64>),
    Str(Seq<char>),
    Arr(Seq<JsonM>),
    Obj(Map<Seq<char>, JsonM>),
}

/// What the parser makes of a text: one document model, or nothing for
/// text it rejects.
pub uninterp spec fn json_doc(s: Seq<char>) -> Option<JsonM>;

/// What a parsed value holds, as the model above.
pub uninterp spec fn json_model(v: serde_json::Value) -> JsonM;

/// The compact JSON text a value serializes to.
pub uninterp spec fn json_text(m: JsonM) -> Seq<char>;

/// The 64-bit integer a value carries, if it is such a number.
pub open spec fn spec_as_i64(m: JsonM) -> Option<i64> {
    match m {
        JsonM::Num(n) => n,
        _ => None,
    }
}

/// The boolean a value carries, if it is one.
pub open spec fn spec_as_bool(m: JsonM) -> Option<bool> {
    match m {
        JsonM::Bool(b) => Some(b),
        _ => None,
    }
}

/// The string content a value carries, if it is a string.
pub open spec fn spec_as_str(m: JsonM) -> Option<Seq<char>> {
    match m {
        JsonM::Str(s) => Some(s),
        _ => None,
    }
}

/// Relies on serde_json::from_str: `Some` exactly for the texts the
/// parser accepts as one JSON document, and the returned value holds
/// that document.
#[verifier::external_body]
pub fn json_parse(s: &str) -> (r: Option<serde_json::Value>)
    ensures
        r is Some <==> json_doc(s@) is Some,
        r matches Some(v) ==> Some(json_model(v)) == json_doc(s@),
{
    serde_json::from_str::<serde_json::Value>(s).ok()
}

/// Relies on serde_json::Value::get with a string key: the member of an
/// object under that key, `None` for a missing member or for any value
/// that is not an object.
#[verifier::external_body]
pub fn json_get<'a>(v: &'a serde_json::Value, key: &str) -> (r: Option<&'a serde_json::Value>)
    ensures
        r is Some <==> (json_model(*v) matches JsonM::Obj(m) && m.dom().contains(key@)),
        r matches Some(w) ==> (json_model(*v) matches JsonM::Obj(m) && m.dom().contains(key@)
            && json_model(*w) == m[key@]),
{
    v.get(key)
}

/// Relies on serde_json::Value::as_i64: the value of an integer number
/// representable in 64 signed bits, `None` otherwise.
#[verifier::external_body]
pub fn json_as_i64(v: &serde_json::Value) -> (r: Option<i64>)
    ensures
        r == spec_as_i64(json_model(*v)),
{
    v.as_i64()
}

/// Relies on serde_json::Value::as_bool: the boolean when the value is
/// one, `None` otherwise.
#[verifier::external_body]
pub fn json_as_bool(v: &serde_json::Value) -> (r: Option<bool>)
    ensures
        r == spec_as_bool(json_model(*v)),
{
    v.as_bool()
}

/// Relies on serde_json::Value::as_str: the string content when the
/// value is a string, `None` otherwise.
#[verifier::external_body]
pub fn json_as_str(v: &serde_json::Value) -> (r: Option<&str>)
    ensures
        r is Some <==> spec_as_str(json_model(*v)) is Some,
        r matches Some(s) ==> spec_as_str(json_model(*v)) == Some(s@),
{
    v.as_str()
}

/// Relies on serde_json::Value's Display through ToString: the compact
/// JSON text of the value.
#[verifier::external_body]
pub fn json_to_text(v: &serde_json::Value) -> (r: String)
    ensures
        r@ == json_text(json_model(*v)),
{
    v.to_string()
}

} // verus!
