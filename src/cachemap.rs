//! The file cache's concurrent map, from `dashmap`.
use vstd::prelude::*;
use dashmap::DashMap;

use crate::buf::Buf;

verus! {

#[verifier::external_type_specification]
#[verifier::external_body]
#[verifier::reject_recursive_types(K)]
#[verifier::reject_recursive_types(V)]
#[verifier::reject_recursive_types(S)]
pub struct ExDashMap<K, V, S>(DashMap<K, V, S>);

/// The map that holds cached files by URL.
pub type CacheMap = DashMap<String, Buf>;

/// What a cache map holds: each URL with its bytes.
pub uninterp spec fn cached_files(m: CacheMap) -> Map<Seq<char>, Seq<u8>>;

/// Relies on `dashmap::DashMap::new`: an empty map.
#[verifier::external_body]
pub(crate) fn cache_map_new() -> (r: CacheMap)
    ensures
        cached_files(r).dom() == Set::<Seq<char>>::empty(),
{
    DashMap::new()
}

/// Relies on `dashmap::DashMap::insert`: the key now maps to the value,
/// replacing what it mapped to; keys are equal when their texts are.
#[verifier::external_body]
pub(crate) fn cache_map_insert(m: &mut CacheMap, url: String, bytes: Buf)
    ensures
        cached_files(*final(m)) == cached_files(*old(m)).insert(url@, bytes@),
{
    m.insert(url, bytes);
}

/// Relies on `dashmap::DashMap::get`: the value under the key, if any,
/// handed out as a second handle on the same bytes.
#[verifier::external_body]
pub(crate) fn cache_map_get(m: &CacheMap, url: &str) -> (r: Option<Buf>)
    ensures
        r.is_some() == cached_files(*m).contains_key(url@),
        r.is_some() ==> r.unwrap()@ == cached_files(*m)[url@],
{
    m.get(url).map(|e| e.value().share())
}

} // verus!
