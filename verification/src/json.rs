//! JSON values and objects of `serde_json`, and what the engine reads of them.

use vstd::prelude::*;

verus! {

/// A JSON value: `serde_json::Value`.
#[verifier::external_type_specification]
#[verifier::external_body]
pub struct ExValue(serde_json::Value);

/// A JSON object: `serde_json::Map`.
#[verifier::external_type_specification]
#[verifier::external_body]
#[verifier::reject_recursive_types(K)]
#[verifier::reject_recursive_types(V)]
pub struct ExObject<K, V>(serde_json::Map<K, V>);

/// What a JSON object holds: the value of each key.
pub uninterp spec fn entries(
    m: serde_json::Map<String, serde_json::Value>,
) -> Map<Seq<char>, serde_json::Value>;

/// The contents of an empty object.
pub open spec fn no_entries() -> Map<Seq<char>, serde_json::Value> {
    Map::empty()
}

/// The contents of a JSON value, as far as the engine tells values apart.
pub enum Shape {
    Null,
    Array(Seq<serde_json::Value>),
    Object(Map<Seq<char>, serde_json::Value>),
    Scalar,
}

/// What a JSON value holds, one level deep.
pub uninterp spec fn shape(v: serde_json::Value) -> Shape;

/// The elements of an array; a value of any other shape has none.
pub open spec fn elements(v: serde_json::Value) -> Seq<serde_json::Value> {
    match shape(v) {
        Shape::Array(a) => a,
        _ => Seq::empty(),
    }
}

/// The entries of an object; a value of any other shape has none.
pub open spec fn fields(v: serde_json::Value) -> Map<Seq<char>, serde_json::Value> {
    match shape(v) {
        Shape::Object(m) => m,
        _ => no_entries(),
    }
}

/// A JSON value taken apart, one level deep.
pub enum Opened {
    Null,
    Array(Vec<serde_json::Value>),
    Object(serde_json::Map<String, serde_json::Value>),
    Scalar,
}

impl Opened {
    pub open spec fn shape(self) -> Shape {
        match self {
            Opened::Null => Shape::Null,
            Opened::Array(a) => Shape::Array(a@),
            Opened::Object(m) => Shape::Object(entries(m)),
            Opened::Scalar => Shape::Scalar,
        }
    }
}

/// Tells the variants of `serde_json::Value` apart and moves out what they
/// hold. Of a bool, a number or a string it only says that it is a scalar.
#[verifier::external_body]
pub(crate) fn open_value(v: serde_json::Value) -> (r: Opened)
    ensures
        r.shape() == shape(v),
{
    match v {
        serde_json::Value::Null => Opened::Null,
        serde_json::Value::Bool(_) => Opened::Scalar,
        serde_json::Value::Number(_) => Opened::Scalar,
        serde_json::Value::String(_) => Opened::Scalar,
        serde_json::Value::Array(a) => Opened::Array(a),
        serde_json::Value::Object(m) => Opened::Object(m),
    }
}

/// `serde_json::Value::is_null`: true of the null value only.
pub assume_specification[ serde_json::Value::is_null ](v: &serde_json::Value) -> (r: bool)
    ensures
        r == (shape(*v) is Null),
;

/// The variant `serde_json::Value::Null`.
#[verifier::external_body]
pub(crate) fn null_value() -> (r: serde_json::Value)
    ensures
        shape(r) is Null,
{
    serde_json::Value::Null
}

/// The variant `serde_json::Value::Array` around its elements.
#[verifier::external_body]
pub(crate) fn array_value(items: Vec<serde_json::Value>) -> (r: serde_json::Value)
    ensures
        shape(r) == Shape::Array(items@),
{
    serde_json::Value::Array(items)
}

/// The variant `serde_json::Value::Object` around its entries.
#[verifier::external_body]
pub(crate) fn object_value(m: serde_json::Map<String, serde_json::Value>) -> (r: serde_json::Value)
    ensures
        shape(r) == Shape::Object(entries(m)),
{
    serde_json::Value::Object(m)
}

/// `serde_json::Value::clone` makes a deep copy: the same value again.
pub assume_specification[ <serde_json::Value as Clone>::clone ](v: &serde_json::Value) -> (r:
    serde_json::Value)
    ensures
        r == *v,
;

/// `serde_json::Map::new` makes an object without entries.
pub assume_specification[ serde_json::Map::<String, serde_json::Value>::new ]() -> (m:
    serde_json::Map<String, serde_json::Value>)
    ensures
        entries(m) == no_entries(),
;

/// `serde_json::Map::clone` copies every entry.
pub assume_specification[ <serde_json::Map<String, serde_json::Value> as Clone>::clone ](
    m: &serde_json::Map<String, serde_json::Value>,
) -> (r: serde_json::Map<String, serde_json::Value>)
    ensures
        entries(r) == entries(*m),
;

/// `serde_json::Map::get`: the value of the key, where the object has the key.
#[verifier::external_body]
pub(crate) fn object_get<'a>(
    m: &'a serde_json::Map<String, serde_json::Value>,
    key: &str,
) -> (r: Option<&'a serde_json::Value>)
    ensures
        r == (if entries(*m).contains_key(key@) {
            Some(&entries(*m)[key@])
        } else {
            None
        }),
{
    m.get(key)
}

/// `serde_json::Map::extend` inserts every entry of `over`, replacing the
/// value of a key that is there already.
#[verifier::external_body]
pub(crate) fn object_extend(
    m: &mut serde_json::Map<String, serde_json::Value>,
    over: serde_json::Map<String, serde_json::Value>,
)
    ensures
        entries(*final(m)) == entries(*old(m)).union_prefer_right(entries(over)),
{
    m.extend(over)
}

} // verus!
