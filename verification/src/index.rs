//! An index of names, kept by `serde_json`'s map.
//!
//! An [`Object`](crate::json::Object) finds its members by their names
//! through a `serde_json::Map` that holds, under each name, the place of the
//! member. What stands here is trusted: each function says what the map is
//! relied on to do and leaves the work to it.

use vstd::prelude::*;
use serde_json::Value;

verus! {

/// `serde_json::Map`: a map from names to `serde_json` values. Verified
/// code holds one and never looks into it.
#[verifier::external_type_specification]
#[verifier::external_body]
#[verifier::reject_recursive_types(K)]
#[verifier::reject_recursive_types(V)]
pub struct ExIndex<K, V>(serde_json::Map<K, V>);

/// The places that a map holds: under each name whose value is an integer
/// from 0 to `u64::MAX`, that integer. A name whose value is anything else
/// has no place.
pub uninterp spec fn places(index: serde_json::Map<String, Value>) -> Map<Seq<char>, int>;

/// No place under any name.
pub open spec fn no_places() -> Map<Seq<char>, int> {
    Map::empty()
}

/// `serde_json::Map::new`: a map that holds nothing.
#[verifier::external_body]
pub(crate) fn index_new() -> (r: serde_json::Map<String, Value>)
    ensures
        places(r) == no_places(),
{
    serde_json::Map::new()
}

/// `serde_json::Map::get`, followed by `Value::as_u64`: the place under
/// `key`, where the map holds one.
#[verifier::external_body]
pub(crate) fn index_get(index: &serde_json::Map<String, Value>, key: &str) -> (r: Option<u64>)
    ensures
        match r {
            Some(place) => places(*index).contains_key(key@) && places(*index)[key@] == place,
            None => !places(*index).contains_key(key@),
        },
{
    index.get(key).and_then(Value::as_u64)
}

/// `serde_json::Map::insert`, with the value that `Value::from` makes of
/// `place`: afterwards `place` stands under `key`, and every other name is
/// as it was.
#[verifier::external_body]
pub(crate) fn index_put(index: &mut serde_json::Map<String, Value>, key: String, place: u64)
    ensures
        places(*final(index)) == places(*old(index)).insert(key@, place as int),
{
    index.insert(key, Value::from(place));
}

/// `Clone::clone` of `serde_json::Map`: a map that holds the same.
#[verifier::external_body]
pub(crate) fn index_clone(index: &serde_json::Map<String, Value>) -> (r: serde_json::Map<
    String,
    Value,
>)
    ensures
        places(r) == places(*index),
{
    index.clone()
}

} // verus!
