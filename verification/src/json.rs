//! A mathematical model of JSON documents, and the accessors of
//! `serde_json` that the decoders are built on.
//!
//! The executable functions of this file each make one call into
//! `serde_json` and nothing else. Their contracts, and the two contracts for
//! `Clone`, say what that call does in terms of the model; they are taken on
//! trust. Everything built on top of them is proved.

use vstd::prelude::*;

verus! {

/// What a JSON document is, as a mathematical value.
pub enum Json {
    Null,
    Bool(bool),
    /// A number that is stored as an integer.
    Int(int),
    /// A number that is stored as a floating-point value.
    Real,
    Str(Seq<char>),
    Array(Seq<Json>),
    Object(Map<Seq<char>, Json>),
}

impl Json {
    /// The member of an object under `key`, if this is an object that has one.
    pub open spec fn field(self, key: Seq<char>) -> Option<Json> {
        match self {
            Json::Object(m) => if m.contains_key(key) {
                Some(m[key])
            } else {
                None
            },
            _ => None,
        }
    }

    /// The text of a string value.
    pub open spec fn text(self) -> Option<Seq<char>> {
        match self {
            Json::Str(s) => Some(s),
            _ => None,
        }
    }

    /// The value of an integer number that fits in 64 signed bits.
    pub open spec fn signed(self) -> Option<i64> {
        match self {
            Json::Int(n) => if i64::MIN <= n <= i64::MAX {
                Some(n as i64)
            } else {
                None
            },
            _ => None,
        }
    }

    /// The value of an integer number that fits in 64 unsigned bits.
    pub open spec fn unsigned(self) -> Option<u64> {
        match self {
            Json::Int(n) => if 0 <= n <= u64::MAX {
                Some(n as u64)
            } else {
                None
            },
            _ => None,
        }
    }

    /// The elements of an array.
    pub open spec fn elements(self) -> Option<Seq<Json>> {
        match self {
            Json::Array(a) => Some(a),
            _ => None,
        }
    }

    /// The members of an object.
    pub open spec fn members(self) -> Option<Map<Seq<char>, Json>> {
        match self {
            Json::Object(m) => Some(m),
            _ => None,
        }
    }

    /// The text of the member under `key`, if there is one and it is a string.
    pub open spec fn text_field(self, key: Seq<char>) -> Option<Seq<char>> {
        match self.field(key) {
            Some(j) => j.text(),
            None => None,
        }
    }

    /// The member under `key` as a signed integer.
    pub open spec fn signed_field(self, key: Seq<char>) -> Option<i64> {
        match self.field(key) {
            Some(j) => j.signed(),
            None => None,
        }
    }

    /// The member under `key` as an unsigned integer.
    pub open spec fn unsigned_field(self, key: Seq<char>) -> Option<u64> {
        match self.field(key) {
            Some(j) => j.unsigned(),
            None => None,
        }
    }
}

/// `serde_json::Value`, as a type whose inside is not looked into.
#[verifier::external_type_specification]
#[verifier::external_body]
pub struct ExValue(serde_json::Value);

/// `serde_json::Map`, as a type whose inside is not looked into.
#[verifier::external_type_specification]
#[verifier::external_body]
#[verifier::reject_recursive_types(K)]
#[verifier::reject_recursive_types(V)]
pub struct ExObject<K, V>(serde_json::Map<K, V>);

/// A JSON object as `serde_json` holds it.
pub type Object = serde_json::Map<String, serde_json::Value>;

/// The document that a `serde_json::Value` holds.
pub uninterp spec fn json_of(v: serde_json::Value) -> Json;

/// The members that a `serde_json::Map` holds, by key.
pub uninterp spec fn entries_of(m: Object) -> Map<Seq<char>, Json>;

/// What `serde_json::from_str` gives for a text as a `serde_json::Value`:
/// the document that the text writes down, `None` where it writes none.
pub uninterp spec fn parsed_json(text: Seq<char>) -> Option<Json>;

/// What `Display` of `serde_json::Value` writes for a value: its compact
/// JSON text.
pub uninterp spec fn rendered(v: serde_json::Value) -> Seq<char>;

/// The sequence of documents that a vector of values holds.
pub open spec fn jsons_of(vs: Seq<serde_json::Value>) -> Seq<Json> {
    vs.map_values(|v: serde_json::Value| json_of(v))
}

/// `serde_json::Value::get` with a string index: the member of an object
/// under `key`; `None` where the value is no object or has no such member.
#[verifier::external_body]
pub(crate) fn member<'a>(v: &'a serde_json::Value, key: &str) -> (r: Option<&'a serde_json::Value>)
    ensures
        r is Some <==> json_of(*v).field(key@) is Some,
        r is Some ==> json_of(*r->Some_0) == json_of(*v).field(key@)->Some_0,
{
    v.get(key)
}

/// `serde_json::from_str` for a `serde_json::Value`: the document that a
/// text writes down; `None` where the text is not JSON.
#[verifier::external_body]
pub(crate) fn parse(text: &str) -> (r: Option<serde_json::Value>)
    ensures
        r is Some <==> parsed_json(text@) is Some,
        r is Some ==> json_of(r->Some_0) == parsed_json(text@)->Some_0,
{
    serde_json::from_str::<serde_json::Value>(text).ok()
}

/// `ToString` of `serde_json::Value`, which goes by its `Display`: the
/// compact JSON text of the value.
#[verifier::external_body]
pub(crate) fn render(v: &serde_json::Value) -> (r: String)
    ensures
        r@ == rendered(*v),
{
    v.to_string()
}

/// `serde_json::Value::as_str`: the text of a string value; `None` for every
/// other kind of value.
#[verifier::external_body]
pub(crate) fn as_text<'a>(v: &'a serde_json::Value) -> (r: Option<&'a str>)
    ensures
        r is Some <==> json_of(*v).text() is Some,
        r is Some ==> r->Some_0@ == json_of(*v).text()->Some_0,
{
    v.as_str()
}

/// `serde_json::Value::as_i64`: the value of an integer number that fits in
/// an `i64`; `None` for a float, a larger integer and every other kind of
/// value.
#[verifier::external_body]
pub(crate) fn as_signed(v: &serde_json::Value) -> (r: Option<i64>)
    ensures
        r == json_of(*v).signed(),
{
    v.as_i64()
}

/// `serde_json::Value::as_u64`: the value of a non-negative integer number;
/// `None` for a float, a negative integer and every other kind of value.
#[verifier::external_body]
pub(crate) fn as_unsigned(v: &serde_json::Value) -> (r: Option<u64>)
    ensures
        r == json_of(*v).unsigned(),
{
    v.as_u64()
}

/// `serde_json::Value::is_null`: whether the value is `null`.
#[verifier::external_body]
pub(crate) fn is_null(v: &serde_json::Value) -> (r: bool)
    ensures
        r == (json_of(*v) is Null),
{
    v.is_null()
}

/// `serde_json::Value::as_array`: the elements of an array, in order; `None`
/// for every other kind of value.
#[verifier::external_body]
pub(crate) fn as_elements<'a>(v: &'a serde_json::Value) -> (r: Option<&'a Vec<serde_json::Value>>)
    ensures
        r is Some <==> json_of(*v).elements() is Some,
        r is Some ==> jsons_of(r->Some_0@) == json_of(*v).elements()->Some_0,
{
    v.as_array()
}

/// `serde_json::Value::as_object`: the members of an object; `None` for every
/// other kind of value.
#[verifier::external_body]
pub(crate) fn as_members<'a>(v: &'a serde_json::Value) -> (r: Option<&'a Object>)
    ensures
        r is Some <==> json_of(*v).members() is Some,
        r is Some ==> entries_of(*r->Some_0) == json_of(*v).members()->Some_0,
{
    v.as_object()
}

/// `serde_json::Map::is_empty`: whether the map has no member at all.
#[verifier::external_body]
pub(crate) fn has_no_entries(m: &Object) -> (r: bool)
    ensures
        r == (entries_of(*m) == Map::<Seq<char>, Json>::empty()),
{
    m.is_empty()
}

/// `serde_json::Map::new`: a map without members.
#[verifier::external_body]
pub(crate) fn no_entries() -> (r: Object)
    ensures
        entries_of(r) == (Map::<Seq<char>, Json>::empty()),
{
    serde_json::Map::new()
}

/// `serde_json::Value::Null`: the value `null`.
#[verifier::external_body]
pub(crate) fn null() -> (r: serde_json::Value)
    ensures
        json_of(r) == Json::Null,
{
    serde_json::Value::Null
}

/// `Clone` of `serde_json::Value`: a value that holds the same document.
pub assume_specification[ <serde_json::Value as Clone>::clone ](v: &serde_json::Value) -> (r:
    serde_json::Value)
    ensures
        json_of(r) == json_of(*v),
;

/// `Clone` of `serde_json::Map`: a map that holds the same members.
pub assume_specification[ <serde_json::Map<String, serde_json::Value> as Clone>::clone ](
    m: &serde_json::Map<String, serde_json::Value>,
) -> (r: serde_json::Map<String, serde_json::Value>)
    ensures
        entries_of(r) == entries_of(*m),
;

} // verus!
