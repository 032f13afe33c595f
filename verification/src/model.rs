//! What the operations of the cache compute, stated over a map from key to
//! entry. The contracts of the cache and its laws are written in these terms.

use crate::entry::{valid_at, CacheEntry, EntryView};
use crate::key::key_of;
use crate::similarity::{best_of, vector_view, Candidate};
use crate::store::{lists, no_entries};
use crate::timestamp::Timestamp;
use vstd::prelude::*;

verus! {

/// The entry that a vector stored at `created_at` becomes.
pub open spec fn entry_of(vector: Seq<u64>, created_at: Timestamp) -> EntryView {
    EntryView { vector, created_at }
}

/// What a read of `text` at `now` returns: the vector stored under the text's
/// key if there is one and it is still valid, and nothing otherwise.
pub open spec fn lookup(
    entries: Map<Seq<char>, EntryView>,
    ttl: u64,
    text: Seq<char>,
    now: Timestamp,
) -> Option<Seq<u64>> {
    let key = key_of(text);
    if entries.contains_key(key) && valid_at(entries[key].created_at, ttl, now) {
        Some(entries[key].vector)
    } else {
        None
    }
}

/// The vectors of the items that are valid at `now`, in the order of the
/// listing.
pub open spec fn valid_vectors(items: Seq<(String, CacheEntry)>, ttl: u64, now: Timestamp) -> Seq<
    Vec<u64>,
>
    decreases items.len(),
{
    if items.len() == 0 {
        Seq::empty()
    } else {
        let earlier = valid_vectors(items.drop_last(), ttl, now);
        if valid_at(items.last().1.created_at, ttl, now) {
            earlier.push(items.last().1.vector)
        } else {
            earlier
        }
    }
}

/// The store that holds exactly the items of a snapshot. Where a key occurs
/// twice, the later item stands.
pub open spec fn loaded(items: Seq<(String, CacheEntry)>) -> Map<Seq<char>, EntryView>
    decreases items.len(),
{
    if items.len() == 0 {
        no_entries()
    } else {
        loaded(items.drop_last()).insert(items.last().0@, items.last().1@)
    }
}

/// `found` is what scoring `vector` against the query gives: nothing where
/// the two differ in length, and otherwise what `similarity` returned when it
/// was called on them.
pub open spec fn scored<F: Fn(&Vec<u64>, &Vec<u64>) -> Option<u64>>(
    similarity: F,
    query: &Vec<u64>,
    vector: Vec<u64>,
    found: Option<u64>,
) -> bool {
    if vector@.len() == query@.len() {
        call_ensures(similarity, (query, &vector), found)
    } else {
        found is None
    }
}

/// `candidates` are `vectors`, each with its score against the query.
pub open spec fn scored_by<F: Fn(&Vec<u64>, &Vec<u64>) -> Option<u64>>(
    similarity: F,
    query: &Vec<u64>,
    vectors: Seq<Vec<u64>>,
    candidates: Seq<Candidate>,
) -> bool {
    &&& candidates.len() == vectors.len()
    &&& forall|i: int|
        0 <= i < vectors.len() ==> (#[trigger] candidates[i]).vector == vectors[i] && scored(
            similarity,
            query,
            vectors[i],
            candidates[i].similarity,
        )
}

/// How a compute-or-fetch ends that reads at `read_at`. On a hit the cached
/// vector is returned and the store is left alone. On a miss the result is
/// what the generator returned: a vector is stored under the text's key with
/// `stored_at` as its instant, and a failure leaves the store as it was.
pub open spec fn fetched_or_computed<E, F: FnOnce(&str) -> Result<Vec<u64>, E>>(
    before: Map<Seq<char>, EntryView>,
    ttl: u64,
    text: &str,
    read_at: Timestamp,
    stored_at: Timestamp,
    generator: F,
    result: Result<Vec<u64>, E>,
    after: Map<Seq<char>, EntryView>,
) -> bool {
    match lookup(before, ttl, text@, read_at) {
        Some(cached) => {
            &&& result matches Ok(vector)
            &&& vector@ == cached
            &&& after == before
        },
        None => {
            &&& call_ensures(generator, (text,), result)
            &&& match result {
                Ok(vector) => after == before.insert(key_of(text@), entry_of(vector@, stored_at)),
                Err(_) => after == before,
            }
        },
    }
}

/// How a similarity scan at `now` ends: the store was walked in some order,
/// the entries valid at `now` were scored in that order, and the best of them
/// was chosen.
pub open spec fn scanned<F: Fn(&Vec<u64>, &Vec<u64>) -> Option<u64>>(
    entries: Map<Seq<char>, EntryView>,
    ttl: u64,
    query: &Vec<u64>,
    threshold: u64,
    now: Timestamp,
    similarity: F,
    best: Option<Vec<u64>>,
) -> bool {
    exists|items: Seq<(String, CacheEntry)>, candidates: Seq<Candidate>|
        {
            &&& lists(items, entries)
            &&& #[trigger] scored_by(similarity, query, valid_vectors(items, ttl, now), candidates)
            &&& vector_view(best) == best_of(candidates, threshold)
        }
}

} // verus!
