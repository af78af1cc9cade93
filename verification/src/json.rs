use vstd::prelude::*;

verus! {

#[verifier::external_type_specification]
#[verifier::external_body]
pub struct ExJsonValue(serde_json::Value);

/// The mathematical content of a JSON document: the one thing response
/// decoding reads. A number outside the signed 64-bit range (or not an
/// integer at all) is kept only as `NonInt`, since no field of this schema
/// may hold one.
pub enum JsonSpec {
    Null,
    Bool(bool),
    Int(i64),
    NonInt,
    Str(Seq<char>),
    Arr(Seq<JsonSpec>),
    Obj(Map<Seq<char>, JsonSpec>),
}

/// What a `serde_json::Value` holds. The accessor wrappers below say how
/// each call reads this content.
pub uninterp spec fn json_model(v: serde_json::Value) -> JsonSpec;

/// The JSON value a string denotes, if it is well-formed JSON: parsing is a
/// function of the text alone.
pub uninterp spec fn json_parse(s: Seq<char>) -> Option<JsonSpec>;

/// Relies on serde_json::from_str::<Value>: it returns the value the text
/// denotes, and fails exactly on text that is not well-formed JSON.
#[verifier::external_body]
pub(crate) fn parse_json(s: &str) -> (r: Option<serde_json::Value>)
    ensures
        r is Some <==> json_parse(s@) is Some,
        r matches Some(v) ==> json_model(v) == json_parse(s@)->Some_0,
{
    match serde_json::from_str::<serde_json::Value>(s) {
        Ok(v) => Some(v),
        Err(_) => None,
    }
}

/// Relies on serde_json::Value::get with a string index: on an object it
/// looks the key up, on every other value it returns None.
#[verifier::external_body]
pub(crate) fn json_get<'a>(v: &'a serde_json::Value, key: &str) -> (r: Option<
    &'a serde_json::Value,
>)
    ensures
        match json_model(*v) {
            JsonSpec::Obj(m) => {
                &&& r is Some <==> m.contains_key(key@)
                &&& r matches Some(x) ==> m.contains_key(key@) && json_model(*x) == m[key@]
            },
            _ => r is None,
        },
{
    v.get(key)
}

/// Relies on serde_json::Value::as_str: Some exactly on a JSON string,
/// returning its characters.
#[verifier::external_body]
pub(crate) fn json_as_str<'a>(v: &'a serde_json::Value) -> (r: Option<&'a str>)
    ensures
        match json_model(*v) {
            JsonSpec::Str(s) => r matches Some(x) && x@ == s,
            _ => r is None,
        },
{
    v.as_str()
}

/// Relies on serde_json::Value::as_i64: Some exactly on a JSON number
/// representable as a signed 64-bit integer.
#[verifier::external_body]
pub(crate) fn json_as_i64(v: &serde_json::Value) -> (r: Option<i64>)
    ensures
        match json_model(*v) {
            JsonSpec::Int(i) => r == Some(i),
            _ => r is None,
        },
{
    v.as_i64()
}

/// Relies on serde_json::Value::as_bool: Some exactly on a JSON boolean.
#[verifier::external_body]
pub(crate) fn json_as_bool(v: &serde_json::Value) -> (r: Option<bool>)
    ensures
        match json_model(*v) {
            JsonSpec::Bool(b) => r == Some(b),
            _ => r is None,
        },
{
    v.as_bool()
}

/// Relies on serde_json::Value::as_array: Some exactly on a JSON array,
/// returning its elements in order.
#[verifier::external_body]
pub(crate) fn json_as_array<'a>(v: &'a serde_json::Value) -> (r: Option<
    &'a Vec<serde_json::Value>,
>)
    ensures
        match json_model(*v) {
            JsonSpec::Arr(s) => r matches Some(a) && a@.map_values(
                |e: serde_json::Value| json_model(e),
            ) == s,
            _ => r is None,
        },
{
    v.as_array()
}

/// Relies on serde_json::Value::is_null: true exactly on JSON null.
#[verifier::external_body]
pub(crate) fn json_is_null(v: &serde_json::Value) -> (r: bool)
    ensures
        r == (json_model(*v) is Null),
{
    v.is_null()
}

/// Relies on <serde_json::Value as Clone>::clone: the clone denotes the
/// same JSON value.
pub assume_specification[ <serde_json::Value as Clone>::clone ](v: &serde_json::Value) -> (r:
    serde_json::Value)
    ensures
        json_model(r) == json_model(*v),
;

} // verus!
