//! The boundary to `serde_json`.
//!
//! The contracts of this library speak of JSON documents as values of
//! [`Json`]. The executable code keeps them in `serde_json`'s own types, which
//! are opaque to the verifier; what such a value holds is given by
//! [`value_model`] and [`object_model`]. Every item below that carries
//! `external_body`, and every `assume_specification`, states what the crate
//! does without proof.

use vstd::prelude::*;

verus! {

/// A JSON document as a mathematical value.
pub enum Json {
    Null,
    Bool(bool),
    /// A number, held as the decimal text that the crate prints for it.
    Number(Seq<char>),
    String(Seq<char>),
    Array(Seq<Json>),
    Object(Map<Seq<char>, Json>),
}

/// One step down into a document: into a member of an object or an item of
/// an array.
pub enum Step {
    Key(Seq<char>),
    Index(int),
}

impl Json {
    /// The value found by walking `path` down from this value, if the walk
    /// stays inside the document.
    pub open spec fn at(self, path: Seq<Step>) -> Option<Json>
        decreases path.len(),
    {
        if path.len() == 0 {
            Some(self)
        } else {
            match (self, path[0]) {
                (Json::Object(members), Step::Key(key)) => if members.contains_key(key) {
                    members[key].at(path.drop_first())
                } else {
                    None
                },
                (Json::Array(items), Step::Index(i)) => if 0 <= i < items.len() {
                    items[i].at(path.drop_first())
                } else {
                    None
                },
                _ => None,
            }
        }
    }
}

/// `serde_json::Value`, carried through as an opaque value.
#[verifier::external_type_specification]
#[verifier::external_body]
pub struct ExValue(serde_json::Value);

/// `serde_json::Map`, carried through as an opaque value.
#[verifier::external_type_specification]
#[verifier::external_body]
#[verifier::reject_recursive_types(K)]
#[verifier::reject_recursive_types(V)]
pub struct ExObject<K, V>(serde_json::Map<K, V>);

/// `serde_json::Error`, carried through as an opaque value.
#[verifier::external_type_specification]
#[verifier::external_body]
pub struct ExJsonError(serde_json::Error);

/// The JSON value that a `serde_json::Value` holds.
pub uninterp spec fn value_model(v: serde_json::Value) -> Json;

/// The members that a `serde_json::Map` holds, by key.
pub uninterp spec fn object_model(m: serde_json::Map<String, serde_json::Value>) -> Map<
    Seq<char>,
    Json,
>;

/// The message that a `serde_json::Error` displays.
pub uninterp spec fn error_text(e: serde_json::Error) -> Seq<char>;

/// What `serde_json::from_str` makes of a text: the document, or the message
/// of the error it reports.
pub uninterp spec fn parsed(text: Seq<char>) -> Result<Json, Seq<char>>;

/// What `serde_json::to_string_pretty` makes of an object: the indented text,
/// or the message of the error it reports. The members are printed in the
/// order of their keys, which is how the crate's map keeps them while its
/// feature `preserve_order` is off, as it is here.
pub uninterp spec fn pretty_printed(members: Map<Seq<char>, Json>) -> Result<Seq<char>, Seq<char>>;

/// Calls `serde_json::from_str` for a `Value`. Trusted: the outcome is a
/// function of the text alone, named [`parsed`].
#[verifier::external_body]
pub(crate) fn parse_value(text: &str) -> (r: Result<serde_json::Value, serde_json::Error>)
    ensures
        match r {
            Ok(v) => parsed(text@) == Ok::<Json, Seq<char>>(value_model(v)),
            Err(e) => parsed(text@) == Err::<Json, Seq<char>>(error_text(e)),
        },
{
    serde_json::from_str::<serde_json::Value>(text)
}

/// Calls `serde_json::to_string_pretty` on an object. Trusted: the outcome is
/// a function of the members alone, named [`pretty_printed`].
#[verifier::external_body]
pub(crate) fn print_object(m: &serde_json::Map<String, serde_json::Value>) -> (r: Result<
    String,
    serde_json::Error,
>)
    ensures
        match r {
            Ok(s) => pretty_printed(object_model(*m)) == Ok::<Seq<char>, Seq<char>>(s@),
            Err(e) => pretty_printed(object_model(*m)) == Err::<Seq<char>, Seq<char>>(
                error_text(e),
            ),
        },
{
    serde_json::to_string_pretty(m)
}

/// Calls `to_string` on a `serde_json::Error`, which goes through its
/// `Display`. Trusted: the result is the error's message.
#[verifier::external_body]
pub(crate) fn describe(e: &serde_json::Error) -> (s: String)
    ensures
        s@ == error_text(*e),
{
    e.to_string()
}

/// Takes the `Object` variant of a `serde_json::Value` apart. Trusted: the
/// map comes out exactly when the value is an object, and holds its members.
#[verifier::external_body]
pub(crate) fn into_object(v: serde_json::Value) -> (r: Option<
    serde_json::Map<String, serde_json::Value>,
>)
    ensures
        match r {
            Some(m) => value_model(v) == Json::Object(object_model(m)),
            None => !(value_model(v) is Object),
        },
{
    match v {
        serde_json::Value::Object(m) => Some(m),
        _ => None,
    }
}

/// Calls `serde_json::Map::get`. Trusted: the member under `key` comes out
/// exactly when the map has that key.
#[verifier::external_body]
pub(crate) fn member<'a>(m: &'a serde_json::Map<String, serde_json::Value>, key: &str) -> (r:
    Option<&'a serde_json::Value>)
    ensures
        match r {
            Some(v) => object_model(*m).contains_key(key@) && object_model(*m)[key@]
                == value_model(*v),
            None => !object_model(*m).contains_key(key@),
        },
{
    m.get(key)
}

/// Calls `serde_json::Map::contains_key`. Trusted: it tells whether the map
/// has that key.
#[verifier::external_body]
pub(crate) fn has_member(m: &serde_json::Map<String, serde_json::Value>, key: &str) -> (r: bool)
    ensures
        r == object_model(*m).contains_key(key@),
{
    m.contains_key(key)
}

/// Calls `serde_json::Map::insert`. Trusted: afterwards the map holds `v`
/// under `key` and every other member as before.
#[verifier::external_body]
pub(crate) fn set_member(
    m: &mut serde_json::Map<String, serde_json::Value>,
    key: String,
    v: serde_json::Value,
)
    ensures
        object_model(*final(m)) == object_model(*old(m)).insert(key@, value_model(v)),
{
    m.insert(key, v);
}

/// `serde_json::Value::is_boolean` tells whether the value is a boolean.
pub assume_specification[ serde_json::Value::is_boolean ](v: &serde_json::Value) -> (r: bool)
    ensures
        r == (value_model(*v) is Bool),
;

/// `serde_json::Value::is_array` tells whether the value is an array.
pub assume_specification[ serde_json::Value::is_array ](v: &serde_json::Value) -> (r: bool)
    ensures
        r == (value_model(*v) is Array),
;

/// Calls `serde_json::Value::from` on a `bool`. Trusted: the result is that
/// boolean.
#[verifier::external_body]
pub(crate) fn bool_value(b: bool) -> (v: serde_json::Value)
    ensures
        value_model(v) == Json::Bool(b),
{
    serde_json::Value::from(b)
}

/// Calls `serde_json::Value::from` on a string slice. Trusted: the result is
/// that string.
#[verifier::external_body]
pub(crate) fn string_value(s: &str) -> (v: serde_json::Value)
    ensures
        value_model(v) == Json::String(s@),
{
    serde_json::Value::from(s)
}

/// Calls `serde_json::Value::from` on a vector of values. Trusted: the result
/// is the array of those values, in their order.
#[verifier::external_body]
pub(crate) fn array_value(items: Vec<serde_json::Value>) -> (v: serde_json::Value)
    ensures
        value_model(v) == Json::Array(items@.map_values(|x: serde_json::Value| value_model(x))),
{
    serde_json::Value::from(items)
}

} // verus!
