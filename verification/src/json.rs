//! Raw JSON trees: a ghost model of a JSON value, and trusted views onto
//! serde_json's `Value` so that verified code can read what a parsed tree
//! holds without re-implementing the parser.

use vstd::prelude::*;

verus! {

/// The mathematical shape of a JSON tree.
pub ghost enum Json {
    /// JSON `null`.
    Null,
    /// A JSON boolean.
    Bool(bool),
    /// A JSON number that is an integer representable in 64 unsigned bits.
    UInt(u64),
    /// Any other JSON number (negative, fractional, or out of range).
    NumOther,
    /// A JSON string.
    Str(Seq<char>),
    /// A JSON array.
    Arr(Seq<Json>),
    /// A JSON object, keyed by its member names.
    Obj(Map<Seq<char>, Json>),
}

#[verifier::external_type_specification]
#[verifier::external_body]
pub struct ExValue(serde_json::Value);

/// The JSON tree that a `serde_json::Value` holds.
pub uninterp spec fn value_rep(v: serde_json::Value) -> Json;

/// What parsing a text as JSON yields: `None` when the text is not valid
/// JSON, otherwise the tree it spells.
pub uninterp spec fn json_of(s: Seq<char>) -> Option<Json>;

/// Relies on serde_json::from_str::<Value>: parsing is a function of the
/// text alone; the two-character object text parses to the empty object.
#[verifier::external_body]
pub fn parse_json(s: &str) -> (r: Result<serde_json::Value, String>)
    ensures
        r is Ok <==> json_of(s@) is Some,
        r is Ok ==> value_rep(r->Ok_0) == json_of(s@)->Some_0,
        s@ == "{}"@ ==> r is Ok && value_rep(r->Ok_0) == Json::Obj(
            Map::<Seq<char>, Json>::empty(),
        ),
{
    match serde_json::from_str(s) {
        Ok(v) => Ok(v),
        Err(e) => Err(format!("{}", e)),
    }
}

/// Relies on serde_json::Value::as_str: `Some` exactly on JSON strings,
/// returning the string itself.
#[verifier::external_body]
pub fn value_as_str<'a>(v: &'a serde_json::Value) -> (r: Option<&'a str>)
    ensures
        match r {
            Some(s) => value_rep(*v) is Str && s@ == value_rep(*v)->Str_0,
            None => !(value_rep(*v) is Str),
        },
{
    v.as_str()
}

/// Relies on serde_json::Value::as_u64: `Some` exactly on numbers that are
/// integers representable in 64 unsigned bits.
#[verifier::external_body]
pub fn value_as_u64(v: &serde_json::Value) -> (r: Option<u64>)
    ensures
        match r {
            Some(n) => value_rep(*v) == Json::UInt(n),
            None => !(value_rep(*v) is UInt),
        },
{
    v.as_u64()
}

/// Relies on serde_json::Value::as_bool: `Some` exactly on JSON booleans.
#[verifier::external_body]
pub fn value_as_bool(v: &serde_json::Value) -> (r: Option<bool>)
    ensures
        match r {
            Some(b) => value_rep(*v) == Json::Bool(b),
            None => !(value_rep(*v) is Bool),
        },
{
    v.as_bool()
}

/// Relies on serde_json::Value::is_null.
#[verifier::external_body]
pub fn value_is_null(v: &serde_json::Value) -> (r: bool)
    ensures
        r == (value_rep(*v) is Null),
{
    v.is_null()
}

/// Relies on serde_json::Value::is_object.
#[verifier::external_body]
pub fn value_is_object(v: &serde_json::Value) -> (r: bool)
    ensures
        r == (value_rep(*v) is Obj),
{
    v.is_object()
}

/// Relies on serde_json::Value::as_array: `Some` exactly on JSON arrays,
/// whose elements hold the modeled element trees in order.
#[verifier::external_body]
pub fn value_as_array<'a>(v: &'a serde_json::Value) -> (r: Option<&'a Vec<serde_json::Value>>)
    ensures
        match r {
            Some(a) => {
                &&& value_rep(*v) is Arr
                &&& a@.len() == value_rep(*v)->Arr_0.len()
                &&& forall|i: int|
                    0 <= i < a@.len() ==> value_rep(#[trigger] a@[i]) == value_rep(*v)->Arr_0[i]
            },
            None => !(value_rep(*v) is Arr),
        },
{
    v.as_array()
}

/// Relies on serde_json::Value::get with a string key: on objects it looks
/// the member up by name; on every other shape it returns `None`.
#[verifier::external_body]
pub fn value_get<'a>(v: &'a serde_json::Value, key: &str) -> (r: Option<&'a serde_json::Value>)
    ensures
        match r {
            Some(f) => {
                &&& value_rep(*v) is Obj
                &&& value_rep(*v)->Obj_0.dom().contains(key@)
                &&& value_rep(*f) == value_rep(*v)->Obj_0[key@]
            },
            None => value_rep(*v) is Obj ==> !value_rep(*v)->Obj_0.dom().contains(key@),
        },
{
    v.get(key)
}

} // verus!
