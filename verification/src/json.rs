//! A mathematical model of JSON documents.
//!
//! `JsonVal` is the specification-level shape of a JSON value: the
//! contracts of the wire encoders and decoders, and of the trusted
//! boundary to the JSON engine, all speak in terms of it.

use vstd::prelude::*;

verus! {

/// The specification-level shape of a JSON document.
///
/// Numbers that carry an integer value appear as `Int`; any other JSON
/// number appears as `FloatNum`, identified by the bit pattern of its
/// binary64 representation.  Object member order is not modelled: a JSON
/// object is a finite map from member name to member value.
pub enum JsonVal {
    Null,
    Bool(bool),
    Int(int),
    FloatNum(u64),
    Str(Seq<char>),
    Arr(Seq<JsonVal>),
    Obj(Map<Seq<char>, JsonVal>),
}

#[verifier::external_type_specification]
#[verifier::external_body]
pub struct ExValue(serde_json::Value);

#[verifier::external_type_specification]
#[verifier::external_body]
#[verifier::reject_recursive_types(K)]
#[verifier::reject_recursive_types(V)]
pub struct ExMap<K, V>(serde_json::Map<K, V>);

#[verifier::external_type_specification]
#[verifier::external_body]
pub struct ExError(serde_json::Error);

/// The `JsonVal` that a `serde_json::Value` holds.
pub uninterp spec fn jmodel(v: serde_json::Value) -> JsonVal;

/// The concrete member map of a JSON object, as serde_json holds it.
pub type JsonMembers = serde_json::Map<String, serde_json::Value>;

/// The members that a `serde_json::Map<String, Value>` holds.
pub uninterp spec fn jmap_model(m: JsonMembers) -> Map<Seq<char>, JsonVal>;

/// The member map of an object with no members.
pub open spec fn no_members() -> Map<Seq<char>, JsonVal> {
    Map::<Seq<char>, JsonVal>::empty()
}

/// The JSON text that the engine produces for a given value.
pub uninterp spec fn rendered(j: JsonVal) -> Seq<char>;

/// The value that the engine reads out of a given text, or `None` where
/// the text is not a JSON document it accepts.
pub uninterp spec fn jparse(s: Seq<char>) -> Option<JsonVal>;

/// Holds when a text consists of whitespace alone; such a text is not
/// a JSON document.
pub open spec fn blank(s: Seq<char>) -> bool {
    forall|i: int|
        0 <= i < s.len() ==> (s[i] == ' ' || s[i] == '\t' || s[i] == '\n' || s[i] == '\r')
}

/// Relies on the unit variant `serde_json::Value::Null`.
#[verifier::external_body]
pub(crate) fn jv_null() -> (r: serde_json::Value)
    ensures
        jmodel(r) == JsonVal::Null,
{
    serde_json::Value::Null
}

/// Relies on the variant `serde_json::Value::Bool`, which carries the
/// boolean unchanged.
#[verifier::external_body]
pub(crate) fn jv_bool(b: bool) -> (r: serde_json::Value)
    ensures
        jmodel(r) == JsonVal::Bool(b),
{
    serde_json::Value::Bool(b)
}

/// Relies on `serde_json::Number::from::<i64>`, which keeps the
/// mathematical value of its argument.
#[verifier::external_body]
pub(crate) fn jv_i64(i: i64) -> (r: serde_json::Value)
    ensures
        jmodel(r) == JsonVal::Int(i as int),
{
    serde_json::Value::Number(serde_json::Number::from(i))
}

/// Relies on the variant `serde_json::Value::String`, which carries the
/// characters unchanged.
#[verifier::external_body]
pub(crate) fn jv_string(s: &str) -> (r: serde_json::Value)
    ensures
        jmodel(r) == JsonVal::Str(s@),
{
    serde_json::Value::String(s.to_string())
}

/// Relies on the variant `serde_json::Value::Array`, which carries the
/// elements unchanged and in order.
#[verifier::external_body]
pub(crate) fn jv_array(items: Vec<serde_json::Value>) -> (r: serde_json::Value)
    ensures
        jmodel(r) == JsonVal::Arr(items@.map(|i: int, v: serde_json::Value| jmodel(v))),
{
    serde_json::Value::Array(items)
}

/// Relies on `serde_json::Map::new`, which returns a map with no members.
#[verifier::external_body]
pub(crate) fn jobj_new() -> (r: JsonMembers)
    ensures
        jmap_model(r) == no_members(),
{
    serde_json::Map::new()
}

/// Relies on `serde_json::Map::insert`, which adds the member, replacing
/// any member of the same name.
#[verifier::external_body]
pub(crate) fn jobj_insert(m: &mut JsonMembers, k: &str, v: serde_json::Value)
    ensures
        jmap_model(*final(m)) == jmap_model(*old(m)).insert(k@, jmodel(v)),
{
    m.insert(k.to_string(), v);
}

/// Relies on the variant `serde_json::Value::Object`, which carries the
/// members unchanged.
#[verifier::external_body]
pub(crate) fn jv_object(m: JsonMembers) -> (r: serde_json::Value)
    ensures
        jmodel(r) == JsonVal::Obj(jmap_model(m)),
{
    serde_json::Value::Object(m)
}

/// Relies on `serde_json::Value::is_null`.
#[verifier::external_body]
pub(crate) fn jv_is_null(v: &serde_json::Value) -> (r: bool)
    ensures
        r == (jmodel(*v) is Null),
{
    v.is_null()
}

/// Relies on `serde_json::Value::is_object`.
#[verifier::external_body]
pub(crate) fn jv_is_object(v: &serde_json::Value) -> (r: bool)
    ensures
        r == (jmodel(*v) is Obj),
{
    v.is_object()
}

/// Relies on `serde_json::Value::get` with a string index: on an object
/// it looks the member up by name, on anything else it returns `None`.
#[verifier::external_body]
pub(crate) fn jv_get<'a>(v: &'a serde_json::Value, k: &str) -> (r: Option<&'a serde_json::Value>)
    ensures
        (match jmodel(*v) {
            JsonVal::Obj(m) => {
                &&& (r is Some <==> m.dom().contains(k@))
                &&& (r matches Some(w) ==> jmodel(*w) == m[k@])
            },
            _ => r is None,
        }),
{
    v.get(k)
}

/// Relies on `serde_json::Value::as_str`, which returns the characters of
/// a string value unchanged and `None` on any other value.
#[verifier::external_body]
pub(crate) fn jv_as_str(v: &serde_json::Value) -> (r: Option<String>)
    ensures
        (match jmodel(*v) {
            JsonVal::Str(s) => r matches Some(t) && t@ == s,
            _ => r is None,
        }),
{
    match v.as_str() {
        Some(s) => Some(s.to_string()),
        None => None,
    }
}

/// Relies on `serde_json::Value::as_i64`, which returns the value of an
/// integer number when it fits in an `i64` and `None` otherwise.
#[verifier::external_body]
pub(crate) fn jv_as_i64(v: &serde_json::Value) -> (r: Option<i64>)
    ensures
        (match jmodel(*v) {
            JsonVal::Int(n) => {
                if i64::MIN <= n <= i64::MAX {
                    r matches Some(m) && m as int == n
                } else {
                    r is None
                }
            },
            _ => r is None,
        }),
{
    v.as_i64()
}

/// Relies on `serde_json::Value::as_bool`, which returns the boolean of a
/// boolean value and `None` on any other value.
#[verifier::external_body]
pub(crate) fn jv_as_bool(v: &serde_json::Value) -> (r: Option<bool>)
    ensures
        (match jmodel(*v) {
            JsonVal::Bool(b) => r == Some(b),
            _ => r is None,
        }),
{
    v.as_bool()
}

/// Relies on `serde_json::Value::as_array`, which returns the elements of
/// an array value unchanged and in order, and `None` on any other value.
#[verifier::external_body]
pub(crate) fn jv_as_array<'a>(v: &'a serde_json::Value) -> (r: Option<&'a Vec<serde_json::Value>>)
    ensures
        (match jmodel(*v) {
            JsonVal::Arr(s) => r matches Some(vs) && vs@.map(
                |i: int, w: serde_json::Value| jmodel(w),
            ) == s,
            _ => r is None,
        }),
{
    v.as_array()
}

/// Relies on `serde_json::to_string` on a `Value`, which renders the
/// value as JSON text, a function of the value alone; serializing a
/// `Value` cannot fail, since its member names are strings and it
/// writes into a `String`.
#[verifier::external_body]
pub(crate) fn jv_to_string(v: &serde_json::Value) -> (r: String)
    ensures
        r@ == rendered(jmodel(*v)),
{
    serde_json::to_string(v).unwrap()
}

/// Relies on `serde_json::from_str::<Value>`, which reads a JSON document
/// out of the text and errs exactly on text it does not accept; text of
/// whitespace alone holds no document and errs.
#[verifier::external_body]
pub(crate) fn jv_parse(s: &str) -> (r: Result<serde_json::Value, serde_json::Error>)
    ensures
        r is Ok <==> jparse(s@) is Some,
        (r matches Ok(v) ==> jparse(s@) == Some(jmodel(v))),
        blank(s@) ==> r is Err,
{
    serde_json::from_str(s)
}

} // verus!
