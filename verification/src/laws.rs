//! What holds of the cache in general, proved from the contracts of its
//! operations.
//!
//! The operations state their effect over a map from key to entry. The laws
//! below are stated over such maps, so each applies to whatever cache the
//! operations have brought into that state.

use crate::entry::{valid_at, CacheEntry, EntryView};
use crate::key::key_of;
use crate::model::{
    entry_of, fetched_or_computed, loaded, lookup, scanned, scored_by, valid_vectors,
};
use crate::similarity::{
    best_of, exceeds, is_winner, vector_view, winner, Candidate, WORST_SIMILARITY,
};
use crate::store::{item_key, lists, no_entries};
use crate::timestamp::Timestamp;
use vstd::prelude::*;

verus! {

/// Where entries never expire, a vector that was stored under a text is what
/// a read of that text returns, component for component, whenever the read
/// is made.
pub proof fn law_put_then_get(
    entries: Map<Seq<char>, EntryView>,
    text: Seq<char>,
    vector: Seq<u64>,
    stored_at: Timestamp,
    read_at: Timestamp,
)
    ensures
        lookup(entries.insert(key_of(text), entry_of(vector, stored_at)), 0, text, read_at)
            == Some(vector),
{
}

/// With a time-to-live of `ttl` seconds, a stored vector is read back as long
/// as no more than `ttl` seconds have passed since it was stored, and is
/// hidden once more have passed. Hidden or not, its key stays in the store,
/// so it still counts towards the size.
pub proof fn law_ttl_hides_old_entries(
    entries: Map<Seq<char>, EntryView>,
    ttl: u64,
    text: Seq<char>,
    vector: Seq<u64>,
    stored_at: Timestamp,
    read_at: Timestamp,
)
    requires
        ttl > 0,
    ensures
        read_at.as_nanos() - stored_at.as_nanos() <= ttl * 1_000_000_000 ==> lookup(
            entries.insert(key_of(text), entry_of(vector, stored_at)),
            ttl,
            text,
            read_at,
        ) == Some(vector),
        read_at.as_nanos() - stored_at.as_nanos() > ttl * 1_000_000_000 ==> lookup(
            entries.insert(key_of(text), entry_of(vector, stored_at)),
            ttl,
            text,
            read_at,
        ) is None,
        entries.insert(key_of(text), entry_of(vector, stored_at)).dom().contains(key_of(text)),
{
}

/// Without a time-to-live nothing expires: every entry is valid at every
/// instant, and a read returns the same at any two instants.
pub proof fn law_zero_ttl_never_expires(
    entries: Map<Seq<char>, EntryView>,
    text: Seq<char>,
    created_at: Timestamp,
    now: Timestamp,
    other: Timestamp,
)
    ensures
        valid_at(created_at, 0, now),
        lookup(entries, 0, text, now) == lookup(entries, 0, text, other),
        entries.contains_key(key_of(text)) ==> lookup(entries, 0, text, now) == Some(
            entries[key_of(text)].vector,
        ),
{
}

/// One step in the life of a cache.
pub enum Step {
    /// A vector is stored under the key of a text.
    Put { text: Seq<char>, vector: Seq<u64>, at: Timestamp },
    /// Every entry is removed.
    Clean,
}

/// The store that a fresh cache holds after `steps`.
pub open spec fn replay(steps: Seq<Step>) -> Map<Seq<char>, EntryView>
    decreases steps.len(),
{
    if steps.len() == 0 {
        no_entries()
    } else {
        match steps.last() {
            Step::Put { text, vector, at } => replay(steps.drop_last()).insert(
                key_of(text),
                entry_of(vector, at),
            ),
            Step::Clean => no_entries(),
        }
    }
}

/// The distinct keys stored under since the last time the cache was cleaned.
pub open spec fn live_keys(steps: Seq<Step>) -> Set<Seq<char>>
    decreases steps.len(),
{
    if steps.len() == 0 {
        Set::empty()
    } else {
        match steps.last() {
            Step::Put { text, vector, at } => live_keys(steps.drop_last()).insert(key_of(text)),
            Step::Clean => Set::empty(),
        }
    }
}

/// The keys a cache holds are the distinct keys stored under since it was
/// last cleaned, so its size is their number. Neither the instants of the
/// steps nor any time-to-live enter into it.
pub proof fn law_size_counts_live_keys(steps: Seq<Step>)
    ensures
        replay(steps).dom() == live_keys(steps),
        live_keys(steps).finite(),
        replay(steps).dom().len() == live_keys(steps).len(),
    decreases steps.len(),
{
    if steps.len() > 0 {
        law_size_counts_live_keys(steps.drop_last());
    }
}

/// Storing under a key that the cache does not hold yet makes it one larger;
/// storing under a key that it holds leaves its size as it is.
pub proof fn law_put_counts_new_keys_once(
    entries: Map<Seq<char>, EntryView>,
    key: Seq<char>,
    entry: EntryView,
)
    requires
        entries.dom().finite(),
    ensures
        entries.insert(key, entry).dom().finite(),
        entries.insert(key, entry).dom().len() == entries.dom().len() + (if entries.contains_key(
            key,
        ) {
            0int
        } else {
            1int
        }),
{
    assert(entries.insert(key, entry).dom() == entries.dom().insert(key));
}

/// A cleaned cache has size zero and returns nothing for any text, at any
/// instant and under any time-to-live.
pub proof fn law_clean_forgets_everything(ttl: u64, text: Seq<char>, now: Timestamp)
    ensures
        no_entries().dom().finite(),
        no_entries().dom().len() == 0,
        lookup(no_entries(), ttl, text, now) is None,
{
}

/// A snapshot that lists a store rebuilds that store when it is loaded: the
/// number of entries loaded is the number of items in the snapshot and of
/// keys in the store, and every read returns what it returned before.
pub proof fn law_snapshot_round_trip(
    entries: Map<Seq<char>, EntryView>,
    snapshot: Seq<(String, CacheEntry)>,
    ttl: u64,
    text: Seq<char>,
    now: Timestamp,
)
    requires
        lists(snapshot, entries),
    ensures
        loaded(snapshot) == entries,
        entries.dom().finite(),
        loaded(snapshot).dom().len() == snapshot.len(),
        entries.dom().len() == snapshot.len(),
        lookup(loaded(snapshot), ttl, text, now) == lookup(entries, ttl, text, now),
{
    lemma_loaded_listing(entries, snapshot);
}

proof fn lemma_loaded_listing(entries: Map<Seq<char>, EntryView>, items: Seq<(String, CacheEntry)>)
    requires
        lists(items, entries),
    ensures
        loaded(items) == entries,
        loaded(items).dom().finite(),
        loaded(items).dom().len() == items.len(),
    decreases items.len(),
{
    if items.len() == 0 {
        assert(entries =~= no_entries());
    } else {
        let last = items.len() - 1;
        let key = item_key(items, last);
        let earlier = items.drop_last();
        let rest = entries.remove(key);
        assert forall|i: int| 0 <= i < earlier.len() implies rest.contains_key(
            #[trigger] item_key(earlier, i),
        ) && rest[item_key(earlier, i)] == earlier[i].1@ by {
            assert(item_key(earlier, i) == item_key(items, i));
            assert(item_key(items, i) != item_key(items, last));
        }
        assert forall|k: Seq<char>| #[trigger] rest.contains_key(k) implies exists|i: int|
            0 <= i < earlier.len() && #[trigger] item_key(earlier, i) == k by {
            assert(entries.contains_key(k));
            let i = choose|i: int| 0 <= i < items.len() && #[trigger] item_key(items, i) == k;
            assert(item_key(earlier, i) == k);
        }
        assert forall|i: int, j: int| 0 <= i < j < earlier.len() implies #[trigger] item_key(
            earlier,
            i,
        ) != #[trigger] item_key(earlier, j) by {
            assert(item_key(earlier, i) == item_key(items, i));
            assert(item_key(earlier, j) == item_key(items, j));
        }
        lemma_loaded_listing(rest, earlier);
        assert(entries.contains_key(item_key(items, last)));
        assert(loaded(items) =~= entries);
        assert(loaded(items).dom() == rest.dom().insert(key));
    }
}

/// Where a compute-or-fetch hits, the cached vector comes back and the store
/// is untouched. Where it misses and the generator succeeds, the result is
/// the generator's output, and a read of the same text returns that vector
/// for as long as it stays valid. Where the generator fails, the store is
/// untouched.
pub proof fn law_compute_or_fetch<E, F: FnOnce(&str) -> Result<Vec<u64>, E>>(
    before: Map<Seq<char>, EntryView>,
    ttl: u64,
    text: &str,
    read_at: Timestamp,
    stored_at: Timestamp,
    generator: F,
    result: Result<Vec<u64>, E>,
    after: Map<Seq<char>, EntryView>,
    later: Timestamp,
)
    requires
        fetched_or_computed(before, ttl, text, read_at, stored_at, generator, result, after),
    ensures
        lookup(before, ttl, text@, read_at) matches Some(cached) ==> vector_view(result.ok())
            == Some(cached) && after == before,
        lookup(before, ttl, text@, read_at) is None ==> call_ensures(generator, (text,), result),
        lookup(before, ttl, text@, read_at) is None && result is Err ==> after == before,
        lookup(before, ttl, text@, read_at) is None && valid_at(stored_at, ttl, later) ==> (
        result matches Ok(vector) ==> lookup(after, ttl, text@, later) == Some(vector@)),
{
}

/// A scan of a store in which no entry is valid, an empty store among them,
/// returns nothing, whatever the query, the threshold and the similarity.
pub proof fn law_nothing_valid_nothing_similar<F: Fn(&Vec<u64>, &Vec<u64>) -> Option<u64>>(
    entries: Map<Seq<char>, EntryView>,
    ttl: u64,
    query: &Vec<u64>,
    threshold: u64,
    now: Timestamp,
    similarity: F,
    best: Option<Vec<u64>>,
)
    requires
        scanned(entries, ttl, query, threshold, now, similarity, best),
        forall|key: Seq<char>| #[trigger]
            entries.contains_key(key) ==> !valid_at(entries[key].created_at, ttl, now),
    ensures
        best is None,
{
    let (items, candidates): (Seq<(String, CacheEntry)>, Seq<Candidate>) = choose|
        items: Seq<(String, CacheEntry)>,
        candidates: Seq<Candidate>,
    |
        {
            &&& lists(items, entries)
            &&& #[trigger] scored_by(similarity, query, valid_vectors(items, ttl, now), candidates)
            &&& vector_view(best) == best_of(candidates, threshold)
        };
    assert forall|i: int| 0 <= i < items.len() implies !valid_at(
        (#[trigger] items[i]).1.created_at,
        ttl,
        now,
    ) by {
        assert(entries.contains_key(item_key(items, i)));
    }
    lemma_no_valid_vectors(items, ttl, now);
    assert(candidates.len() == 0);
    assert(forall|i: int| !is_winner(candidates, i));
    assert(winner(candidates) is None);
}

/// A vector that a scan returns is the vector of an entry that is valid at
/// the instant of the scan. It is as long as the query, and `similarity`,
/// called on the query and on that vector, gave a score that exceeds both
/// the threshold and the worst similarity.
pub proof fn law_similar_is_a_valid_entry<F: Fn(&Vec<u64>, &Vec<u64>) -> Option<u64>>(
    entries: Map<Seq<char>, EntryView>,
    ttl: u64,
    query: &Vec<u64>,
    threshold: u64,
    now: Timestamp,
    similarity: F,
    best: Option<Vec<u64>>,
)
    requires
        scanned(entries, ttl, query, threshold, now, similarity, best),
        best is Some,
    ensures
        exists|key: Seq<char>| #[trigger]
            entries.contains_key(key) && valid_at(entries[key].created_at, ttl, now)
                && entries[key].vector == best->Some_0@,
        best->Some_0@.len() == query@.len(),
        exists|stored: Vec<u64>, score: u64|
            stored@ == best->Some_0@ && #[trigger] call_ensures(
                similarity,
                (query, &stored),
                Some(score),
            ) && exceeds(score, threshold) && exceeds(score, WORST_SIMILARITY),
{
    let (items, candidates): (Seq<(String, CacheEntry)>, Seq<Candidate>) = choose|
        items: Seq<(String, CacheEntry)>,
        candidates: Seq<Candidate>,
    |
        {
            &&& lists(items, entries)
            &&& #[trigger] scored_by(similarity, query, valid_vectors(items, ttl, now), candidates)
            &&& vector_view(best) == best_of(candidates, threshold)
        };
    let i = winner(candidates)->Some_0;
    assert(is_winner(candidates, i));
    let stored = candidates[i].vector;
    let score = candidates[i].similarity->Some_0;
    assert(candidates[i].similarity == Some(score));
    let j = lemma_valid_vector_origin(items, ttl, now, i);
    assert(entries.contains_key(item_key(items, j)));
    assert(call_ensures(similarity, (query, &stored), Some(score)));
}

/// Every vector among the valid ones comes from an item that is valid.
proof fn lemma_valid_vector_origin(
    items: Seq<(String, CacheEntry)>,
    ttl: u64,
    now: Timestamp,
    i: int,
) -> (j: int)
    requires
        0 <= i < valid_vectors(items, ttl, now).len(),
    ensures
        0 <= j < items.len(),
        valid_at(items[j].1.created_at, ttl, now),
        items[j].1.vector == valid_vectors(items, ttl, now)[i],
    decreases items.len(),
{
    let earlier = valid_vectors(items.drop_last(), ttl, now);
    if valid_at(items.last().1.created_at, ttl, now) && i == earlier.len() {
        items.len() - 1
    } else {
        lemma_valid_vector_origin(items.drop_last(), ttl, now, i)
    }
}

proof fn lemma_no_valid_vectors(items: Seq<(String, CacheEntry)>, ttl: u64, now: Timestamp)
    requires
        forall|i: int|
            0 <= i < items.len() ==> !valid_at((#[trigger] items[i]).1.created_at, ttl, now),
    ensures
        valid_vectors(items, ttl, now).len() == 0,
    decreases items.len(),
{
    if items.len() > 0 {
        assert(!valid_at(items[items.len() - 1].1.created_at, ttl, now));
        lemma_no_valid_vectors(items.drop_last(), ttl, now);
    }
}

} // verus!
