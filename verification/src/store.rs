//! The entry store: a `dashmap::DashMap` from key to entry.
//!
//! Verus does not look inside the map. Its contents are named by
//! [`store_entries`], and each method the cache calls is reached through a
//! function of this module whose contract is stated over that name and is
//! taken on trust. The functions that change the map take it by `&mut`, so
//! that within this crate nothing else reads or writes it meanwhile.

use crate::entry::{CacheEntry, EntryView};
use vstd::prelude::*;

verus! {

/// `dashmap::DashMap`, made known to Verus as a type it cannot look into.
#[verifier::external_type_specification]
#[verifier::external_body]
#[verifier::reject_recursive_types(K)]
#[verifier::reject_recursive_types(V)]
#[verifier::reject_recursive_types(S)]
pub struct ExDashMap<K, V, S>(dashmap::DashMap<K, V, S>);

/// The entries a store holds, by key.
pub uninterp spec fn store_entries(store: dashmap::DashMap<String, CacheEntry>) -> Map<
    Seq<char>,
    EntryView,
>;

/// The store with nothing in it.
pub open spec fn no_entries() -> Map<Seq<char>, EntryView> {
    Map::empty()
}

/// The key of the `i`-th item of a listing.
pub open spec fn item_key(items: Seq<(String, CacheEntry)>, i: int) -> Seq<char> {
    items[i].0@
}

/// `items` lists `entries`: every item is an entry of the map, no key occurs
/// twice, and every key of the map occurs. The order is left open.
pub open spec fn lists(items: Seq<(String, CacheEntry)>, entries: Map<Seq<char>, EntryView>) -> bool {
    &&& forall|i: int|
        0 <= i < items.len() ==> entries.contains_key(#[trigger] item_key(items, i))
            && entries[item_key(items, i)] == items[i].1@
    &&& forall|i: int, j: int|
        0 <= i < j < items.len() ==> #[trigger] item_key(items, i) != #[trigger] item_key(items, j)
    &&& forall|k: Seq<char>| #[trigger]
        entries.contains_key(k) ==> exists|i: int|
            0 <= i < items.len() && #[trigger] item_key(items, i) == k
}

/// Calls `DashMap::new`: a map with no entries.
#[verifier::external_body]
pub(crate) fn store_new() -> (store: dashmap::DashMap<String, CacheEntry>)
    ensures
        store_entries(store) == no_entries(),
{
    dashmap::DashMap::new()
}

/// Calls `DashMap::insert`: the entry is stored under the key, in place of
/// whatever the key held before, and no other key is touched. The value that
/// `insert` hands back is dropped.
#[verifier::external_body]
pub(crate) fn store_insert(
    store: &mut dashmap::DashMap<String, CacheEntry>,
    key: String,
    entry: CacheEntry,
)
    ensures
        store_entries(*final(store)) == store_entries(*old(store)).insert(key@, entry@),
{
    store.insert(key, entry);
}

/// Calls `DashMap::get` and clones the entry out of the guard it returns:
/// the entry under the key, or `None` where the key is absent.
#[verifier::external_body]
pub(crate) fn store_get(store: &dashmap::DashMap<String, CacheEntry>, key: &String) -> (found:
    Option<CacheEntry>)
    ensures
        found is Some <==> store_entries(*store).contains_key(key@),
        found matches Some(entry) ==> entry@ == store_entries(*store)[key@],
{
    store.get(key).map(|guard| guard.value().clone())
}

/// Calls `DashMap::len`: the number of keys held.
#[verifier::external_body]
pub(crate) fn store_len(store: &dashmap::DashMap<String, CacheEntry>) -> (count: usize)
    requires
        store_entries(*store).dom().finite(),
    ensures
        count == store_entries(*store).dom().len(),
{
    store.len()
}

/// Calls `DashMap::clear`: every entry is removed.
#[verifier::external_body]
pub(crate) fn store_clear(store: &mut dashmap::DashMap<String, CacheEntry>)
    ensures
        store_entries(*final(store)) == no_entries(),
{
    store.clear();
}

/// Walks the map with `DashMap::iter` and clones every key and entry out.
/// The walk visits each entry once, in an order that the map chooses.
#[verifier::external_body]
pub(crate) fn store_items(store: &dashmap::DashMap<String, CacheEntry>) -> (items: Vec<
    (String, CacheEntry),
>)
    ensures
        lists(items@, store_entries(*store)),
{
    store.iter().map(|guard| (guard.key().clone(), guard.value().clone())).collect()
}

} // verus!
