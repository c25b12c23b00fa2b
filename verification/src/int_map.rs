//! The integer-keyed hash map that holds the texture records.
//!
//! Nothing in this file is proved: each function states what the map of the
//! `intmap` crate does, as its source shows it, and the rest of the crate is
//! verified against these statements.

use crate::texture::EguiTexture;
use intmap::IntMap;
use vstd::prelude::*;

verus! {

/// The map type of the `intmap` crate, `intmap::IntMap`, made known as a
/// type whose inside is not looked at.
#[verifier::external_type_specification]
#[verifier::external_body]
#[verifier::reject_recursive_types(V)]
pub struct ExIntMap<V>(IntMap<V>);

/// The entries that a map holds, each key with its value.
pub uninterp spec fn int_map_contents(map: IntMap<EguiTexture>) -> Map<u64, EguiTexture>;

/// The most entries a map is ever given: with more, the map's own load
/// computation, which multiplies the count by a thousand, would overflow.
pub open spec fn int_map_max_len() -> int {
    usize::MAX as int / 1000
}

/// `IntMap::new`: a map without entries.
#[verifier::external_body]
pub(crate) fn int_map_new() -> (created: IntMap<EguiTexture>)
    ensures
        int_map_contents(created) == (Map::<u64, EguiTexture>::empty()),
{
    IntMap::new()
}

/// `IntMap::len`: the number of entries.
#[verifier::external_body]
pub(crate) fn int_map_len(map: &IntMap<EguiTexture>) -> (count: usize)
    ensures
        count == int_map_contents(*map).dom().len(),
{
    map.len()
}

/// `IntMap::get`: the value stored under `key`, if there is one.
#[verifier::external_body]
pub(crate) fn int_map_get(map: &IntMap<EguiTexture>, key: u64) -> (found: Option<&EguiTexture>)
    ensures
        found == (if int_map_contents(*map).contains_key(key) {
            Some(&int_map_contents(*map)[key])
        } else {
            None
        }),
{
    map.get(key)
}

/// `IntMap::insert`: stores `value` under `key`, in place of what was there,
/// and returns what was there. The count after the call, times a thousand,
/// has to fit in `usize`.
#[verifier::external_body]
pub(crate) fn int_map_insert(map: &mut IntMap<EguiTexture>, key: u64, value: EguiTexture) -> (previous:
    Option<EguiTexture>)
    requires
        int_map_contents(*old(map)).dom().finite(),
        int_map_contents(*old(map)).dom().insert(key).len() <= int_map_max_len(),
    ensures
        int_map_contents(*final(map)) == int_map_contents(*old(map)).insert(key, value),
        previous == (if int_map_contents(*old(map)).contains_key(key) {
            Some(int_map_contents(*old(map))[key])
        } else {
            None
        }),
{
    map.insert(key, value)
}

/// `IntMap::remove`: takes the entry under `key` out of the map, if there is
/// one, and returns its value.
#[verifier::external_body]
pub(crate) fn int_map_remove(map: &mut IntMap<EguiTexture>, key: u64) -> (removed: Option<
    EguiTexture,
>)
    ensures
        int_map_contents(*final(map)) == int_map_contents(*old(map)).remove(key),
        removed == (if int_map_contents(*old(map)).contains_key(key) {
            Some(int_map_contents(*old(map))[key])
        } else {
            None
        }),
{
    map.remove(key)
}

} // verus!
