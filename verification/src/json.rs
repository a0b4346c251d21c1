//! JSON objects of `serde_json`, carried through the session untouched.

use vstd::prelude::*;

verus! {

/// `serde_json::Value`: the library never looks inside one.
#[verifier::external_type_specification]
#[verifier::external_body]
pub struct ExJsonValue(serde_json::Value);

/// `serde_json::Map`: the library never looks inside one.
#[verifier::external_type_specification]
#[verifier::external_body]
#[verifier::reject_recursive_types(K)]
#[verifier::reject_recursive_types(V)]
pub struct ExJsonMap<K, V>(serde_json::Map<K, V>);

/// A JSON object: collection metadata, or an index configuration in its wire
/// form.
pub type JsonObject = serde_json::Map<String, serde_json::Value>;

/// The keys that a JSON object holds.
pub uninterp spec fn object_keys(object: serde_json::Map<String, serde_json::Value>) -> Set<
    Seq<char>,
>;

/// Calls `serde_json::Map::new`. Trusted: the object that it makes holds no
/// key.
#[verifier::external_body]
pub(crate) fn empty_object() -> (object: JsonObject)
    ensures
        object_keys(object) == Set::<Seq<char>>::empty(),
{
    serde_json::Map::new()
}

/// Calls `clone` of `serde_json::Map`. Trusted: the copy equals the object it
/// was made from.
#[verifier::external_body]
pub(crate) fn clone_object(object: &JsonObject) -> (copy: JsonObject)
    ensures
        copy == *object,
{
    object.clone()
}

} // verus!
