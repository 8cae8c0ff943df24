//! The JSON values that the selector answers with, built by `serde_json`.
//!
//! Nothing in this file is proved: it states what the rest of the library
//! takes on trust about `serde_json`.

use vstd::prelude::*;

verus! {

/// `serde_json::Value`, carried through verified code as an opaque value.
#[verifier::external_type_specification]
#[verifier::external_body]
pub struct ExValue(serde_json::Value);

/// The members of a JSON object all of whose members are strings: each
/// member's key mapped to the member's string. For every other value (one
/// that is no object, or an object with a member that is not a string) this
/// is the empty map.
pub uninterp spec fn json_members(value: serde_json::Value) -> Map<Seq<char>, Seq<char>>;

/// The map that holds each pair's key with the pair's text.
pub open spec fn pairs_map(pairs: Seq<(String, String)>) -> Map<Seq<char>, Seq<char>>
    decreases pairs.len(),
{
    if pairs.len() == 0 {
        Map::empty()
    } else {
        pairs_map(pairs.drop_last()).insert(pairs.last().0@, pairs.last().1@)
    }
}

/// No two pairs have the same key.
pub open spec fn distinct_keys(pairs: Seq<(String, String)>) -> bool {
    forall|i: int, j: int|
        0 <= i < j < pairs.len() ==> (#[trigger] pairs[i]).0@ != (#[trigger] pairs[j]).0@
}

/// Calls `serde_json`'s `FromIterator<(K, V)> for Value`, which collects
/// key-value pairs into a `Value::Object`, turning each text into a
/// `Value::String`. With keys that are pairwise different, the object has
/// exactly one string member per pair.
#[verifier::external_body]
pub(crate) fn object_from_pairs(pairs: Vec<(String, String)>) -> (object: serde_json::Value)
    requires
        distinct_keys(pairs@),
    ensures
        json_members(object) == pairs_map(pairs@),
{
    serde_json::Value::from_iter(pairs)
}

} // verus!
