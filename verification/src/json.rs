//! JSON objects whose members are scalars.

use vstd::prelude::*;

verus! {

/// A JSON value, as `serde_json` represents it.
#[verifier::external_type_specification]
#[verifier::external_body]
pub struct ExJsonValue(serde_json::Value);

/// The value of a member of a JSON object.
#[derive(Debug)]
pub enum JsonScalar {
    Null,
    Text(String),
    Number(u64),
}

/// The mathematical value of a [`JsonScalar`].
pub enum JsonScalarView {
    Null,
    Text(Seq<char>),
    Number(nat),
}

impl View for JsonScalar {
    type V = JsonScalarView;

    open spec fn view(&self) -> JsonScalarView {
        match *self {
            JsonScalar::Null => JsonScalarView::Null,
            JsonScalar::Text(text) => JsonScalarView::Text(text@),
            JsonScalar::Number(number) => JsonScalarView::Number(number as nat),
        }
    }
}

/// The members of a JSON object, by key; `None` for a value that is no object. Of a member that
/// is neither null nor a string nor an unsigned integer nothing is known.
pub uninterp spec fn json_members(value: serde_json::Value) -> Option<Map<Seq<char>, JsonScalarView>>;

/// Calls `serde_json::Map::new` and makes a value of the map.
///
/// Trusted: the value is an object, and it has no members.
#[verifier::external_body]
pub(crate) fn empty_object() -> (value: serde_json::Value)
    ensures
        json_members(value) == Some(Map::<Seq<char>, JsonScalarView>::empty()),
{
    serde_json::Value::Object(serde_json::Map::new())
}

/// Assigns through `serde_json`'s `IndexMut` for values, by a string key.
///
/// Trusted: in an object, the key has the assigned value afterwards, whether or not it was there
/// before, and the other members stay. On a value that is neither an object nor null the
/// indexing panics; such a value is ruled out, and so is null.
#[verifier::external_body]
pub(crate) fn set_member(object: &mut serde_json::Value, key: &str, value: JsonScalar)
    requires
        json_members(*old(object)) is Some,
    ensures
        json_members(*final(object)) == Some(json_members(*old(object)).unwrap().insert(key@, value@)),
{
    object[key] = match value {
        JsonScalar::Null => serde_json::Value::Null,
        JsonScalar::Text(text) => serde_json::Value::from(text),
        JsonScalar::Number(number) => serde_json::Value::from(number),
    };
}

} // verus!
