//! The cache: keyed storage, reads filtered by age, compute-or-fetch, the
//! similarity scan, and whole-store snapshots.

use crate::entry::{is_valid, CacheEntry, EntryView};
use crate::key::{key_of, text_key};
use crate::model::{
    entry_of, fetched_or_computed, loaded, lookup, scanned, scored_by, valid_vectors,
};
use crate::similarity::{best_match, vector_view, Candidate};
use crate::store::{
    item_key, lists, no_entries, store_clear, store_entries, store_get, store_insert, store_items,
    store_len, store_new,
};
use crate::timestamp::{read_clock, Timestamp};
use vstd::prelude::*;

verus! {

/// A cache of vectors keyed by the digest of their source text, with a
/// time-to-live in seconds that is fixed when the cache is built. Zero means
/// that entries never expire.
pub struct SemCache {
    store: dashmap::DashMap<String, CacheEntry>,
    ttl_seconds: u64,
}

impl SemCache {
    /// The entries held, expired ones included, by key.
    pub closed spec fn entries(&self) -> Map<Seq<char>, EntryView> {
        store_entries(self.store)
    }

    /// The time-to-live in seconds.
    pub closed spec fn ttl(&self) -> u64 {
        self.ttl_seconds
    }

    /// Some entry holds `vector`.
    pub open spec fn holds_vector(&self, vector: Seq<u64>) -> bool {
        exists|key: Seq<char>| #[trigger]
            self.entries().contains_key(key) && self.entries()[key].vector == vector
    }

    /// The cache holds finitely many entries.
    pub open spec fn wf(&self) -> bool {
        self.entries().dom().finite()
    }

    /// An empty cache. Without a time-to-live, entries never expire.
    pub fn new(ttl: Option<u64>) -> (cache: SemCache)
        ensures
            cache.wf(),
            cache.entries() == no_entries(),
            cache.ttl() == (match ttl {
                Some(seconds) => seconds,
                None => 0,
            }),
    {
        let ttl_seconds = match ttl {
            Some(seconds) => seconds,
            None => 0,
        };
        SemCache { store: store_new(), ttl_seconds }
    }

    /// The key under which the vector of `text` is stored.
    pub fn _hash(&self, text: &str) -> (key: String)
        ensures
            key@ == key_of(text@),
            key@.len() == 64,
    {
        text_key(text)
    }

    /// The instant at which a read is judged: the clock's reading where
    /// entries can expire, and the epoch where they cannot, since no rule
    /// looks at it then.
    fn reading_time(&self) -> (at: Timestamp)
        ensures
            self.ttl() == 0 ==> at == (Timestamp { seconds: 0, nanos: 0 }),
    {
        if self.ttl_seconds > 0 {
            read_clock()
        } else {
            Timestamp::new(0, 0)
        }
    }

    /// Stores `vector` under the key of `text` with `now` as its instant,
    /// replacing what the key held.
    pub fn put_at(&mut self, text: &str, vector: Vec<u64>, now: Timestamp)
        requires
            old(self).wf(),
        ensures
            final(self).wf(),
            final(self).ttl() == old(self).ttl(),
            final(self).entries() == old(self).entries().insert(
                key_of(text@),
                entry_of(vector@, now),
            ),
    {
        let key = text_key(text);
        store_insert(&mut self.store, key, CacheEntry { vector, created_at: now });
    }

    /// Stores `vector` under the key of `text`, stamped with the clock's
    /// reading.
    pub fn put(&mut self, text: &str, vector: Vec<u64>)
        requires
            old(self).wf(),
        ensures
            final(self).wf(),
            final(self).ttl() == old(self).ttl(),
            exists|now: Timestamp|
                final(self).entries() == old(self).entries().insert(
                    key_of(text@),
                    #[trigger] entry_of(vector@, now),
                ),
    {
        let at = read_clock();
        let ghost stored = vector@;
        self.put_at(text, vector, at);
        assert(self.entries() == old(self).entries().insert(key_of(text@), entry_of(stored, at)));
    }

    /// Reads the vector of `text` as of `now`.
    pub fn get_at(&self, text: &str, now: Timestamp) -> (found: Option<Vec<u64>>)
        ensures
            vector_view(found) == lookup(self.entries(), self.ttl(), text@, now),
    {
        let key = text_key(text);
        match store_get(&self.store, &key) {
            Some(entry) => {
                if is_valid(&entry, self.ttl_seconds, now) {
                    Some(entry.vector)
                } else {
                    None
                }
            },
            None => None,
        }
    }

    /// Reads the vector of `text` as of the clock's reading.
    pub fn get(&self, text: &str) -> (found: Option<Vec<u64>>)
        ensures
            exists|now: Timestamp|
                vector_view(found) == #[trigger] lookup(self.entries(), self.ttl(), text@, now),
            self.ttl() == 0 ==> forall|now: Timestamp|
                vector_view(found) == #[trigger] lookup(self.entries(), self.ttl(), text@, now),
    {
        let at = self.reading_time();
        let found = self.get_at(text, at);
        assert(vector_view(found) == lookup(self.entries(), self.ttl(), text@, at));
        found
    }

    /// The number of keys held. Entries that have expired still count.
    pub fn size(&self) -> (count: usize)
        requires
            self.wf(),
        ensures
            count == self.entries().dom().len(),
    {
        store_len(&self.store)
    }

    /// Removes every entry.
    pub fn clean(&mut self)
        ensures
            final(self).wf(),
            final(self).ttl() == old(self).ttl(),
            final(self).entries() == no_entries(),
    {
        store_clear(&mut self.store);
    }

    /// The miss half of compute-or-fetch: calls `generator` on the text,
    /// stores a vector it returns and hands on a failure unchanged. The
    /// vector is stamped with `stamp`, or with the clock's reading after the
    /// generator has returned where there is none.
    fn compute_and_store<E, F: FnOnce(&str) -> Result<Vec<u64>, E>>(
        &mut self,
        text: &str,
        generator: F,
        stamp: Option<Timestamp>,
    ) -> (result: Result<Vec<u64>, E>)
        requires
            old(self).wf(),
            call_requires(generator, (text,)),
        ensures
            final(self).wf(),
            final(self).ttl() == old(self).ttl(),
            call_ensures(generator, (text,), result),
            result is Err ==> final(self).entries() == old(self).entries(),
            result matches Ok(vector) ==> exists|stored_at: Timestamp|
                (stamp matches Some(given) ==> stored_at == given) && final(self).entries() == old(
                    self,
                ).entries().insert(key_of(text@), #[trigger] entry_of(vector@, stored_at)),
    {
        match generator(text) {
            Ok(vector) => {
                let stored_at = match stamp {
                    Some(given) => given,
                    None => read_clock(),
                };
                self.put_at(text, vector.clone(), stored_at);
                assert(self.entries() == old(self).entries().insert(
                    key_of(text@),
                    entry_of(vector@, stored_at),
                ));
                Ok(vector)
            },
            Err(failure) => Err(failure),
        }
    }

    /// Returns the vector of `text` as of `now` if the cache holds a valid
    /// one. Otherwise calls `generator` on the text: a vector it returns is
    /// stored with `now` as its instant and returned, and a failure is handed
    /// on unchanged, with the store as it was. The generator has to accept
    /// the text only where the read misses: on a hit it is not called.
    pub fn get_or_compute_at<E, F: FnOnce(&str) -> Result<Vec<u64>, E>>(
        &mut self,
        text: &str,
        now: Timestamp,
        generator: F,
    ) -> (result: Result<Vec<u64>, E>)
        requires
            old(self).wf(),
            lookup(old(self).entries(), old(self).ttl(), text@, now) is None ==> call_requires(
                generator,
                (text,),
            ),
        ensures
            final(self).wf(),
            final(self).ttl() == old(self).ttl(),
            fetched_or_computed(
                old(self).entries(),
                old(self).ttl(),
                text,
                now,
                now,
                generator,
                result,
                final(self).entries(),
            ),
    {
        match self.get_at(text, now) {
            Some(cached) => Ok(cached),
            None => self.compute_and_store(text, generator, Some(now)),
        }
    }

    /// Compute-or-fetch by the clock: the read is judged at the clock's
    /// reading, and a vector that the generator returns is stamped with the
    /// clock's reading after the generator has returned.
    pub fn get_or_compute<E, F: FnOnce(&str) -> Result<Vec<u64>, E>>(
        &mut self,
        text: &str,
        generator: F,
    ) -> (result: Result<Vec<u64>, E>)
        requires
            old(self).wf(),
            call_requires(generator, (text,)),
        ensures
            final(self).wf(),
            final(self).ttl() == old(self).ttl(),
            exists|read_at: Timestamp, stored_at: Timestamp| #[trigger]
                fetched_or_computed(
                    old(self).entries(),
                    old(self).ttl(),
                    text,
                    read_at,
                    stored_at,
                    generator,
                    result,
                    final(self).entries(),
                ),
    {
        let read_at = self.reading_time();
        match self.get_at(text, read_at) {
            Some(cached) => {
                assert(fetched_or_computed(
                    old(self).entries(),
                    old(self).ttl(),
                    text,
                    read_at,
                    read_at,
                    generator,
                    Ok::<Vec<u64>, E>(cached),
                    self.entries(),
                ));
                Ok(cached)
            },
            None => {
                let result = self.compute_and_store(text, generator, None);
                proof {
                    let stored_at = if result is Ok {
                        choose|stored_at: Timestamp|
                            self.entries() == old(self).entries().insert(
                                key_of(text@),
                                #[trigger] entry_of(result->Ok_0@, stored_at),
                            )
                    } else {
                        read_at
                    };
                    assert(fetched_or_computed(
                        old(self).entries(),
                        old(self).ttl(),
                        text,
                        read_at,
                        stored_at,
                        generator,
                        result,
                        self.entries(),
                    ));
                }
                result
            },
        }
    }

    /// Every entry of the store, expired ones included, in an order that the
    /// store chooses.
    pub fn dump(&self) -> (snapshot: Vec<(String, CacheEntry)>)
        ensures
            lists(snapshot@, self.entries()),
    {
        store_items(&self.store)
    }

    /// Replaces the contents of the store by the items of `snapshot`, and
    /// returns the number of entries the store then holds.
    pub fn load(&mut self, snapshot: Vec<(String, CacheEntry)>) -> (count: usize)
        ensures
            final(self).wf(),
            final(self).ttl() == old(self).ttl(),
            final(self).entries() == loaded(snapshot@),
            count == loaded(snapshot@).dom().len(),
    {
        store_clear(&mut self.store);
        let ghost items = snapshot@;
        for item in it: snapshot
            invariant
                it.seq() == items,
                self.ttl() == old(self).ttl(),
                self.entries() == loaded(items.take(it.index() as int)),
                self.wf(),
        {
            let (key, entry) = item;
            proof {
                let grown = items.take(it.index() + 1);
                assert(grown.drop_last() == items.take(it.index() as int));
                assert(grown.last() == items[it.index() as int]);
            }
            store_insert(&mut self.store, key, entry);
        }
        assert(items.take(items.len() as int) == items);
        store_len(&self.store)
    }

    /// Scans the store for the vector most similar to `query_vec`, as of
    /// `now`. Entries that are not valid at `now` are skipped. `similarity`
    /// scores a stored vector against the query, or returns `None` where it
    /// cannot. It is called on the vectors that are as long as the query; a
    /// vector of another length, and one that it returns `None` for, counts
    /// with the worst similarity and never wins. The best vector is returned
    /// only if its score exceeds `threshold`.
    pub fn get_similar_at<F: Fn(&Vec<u64>, &Vec<u64>) -> Option<u64>>(
        &self,
        query_vec: &Vec<u64>,
        threshold: u64,
        now: Timestamp,
        similarity: F,
    ) -> (best: Option<Vec<u64>>)
        requires
            forall|candidate: Vec<u64>|
                self.holds_vector(candidate@) && candidate@.len() == query_vec@.len()
                    ==> call_requires(similarity, (query_vec, &candidate)),
        ensures
            scanned(self.entries(), self.ttl(), query_vec, threshold, now, similarity, best),
    {
        let items = store_items(&self.store);
        let ghost listing = items@;
        let mut candidates: Vec<Candidate> = Vec::new();
        for item in it: items
            invariant
                it.seq() == listing,
                lists(listing, self.entries()),
                forall|candidate: Vec<u64>|
                    self.holds_vector(candidate@) && candidate@.len() == query_vec@.len()
                        ==> call_requires(similarity, (query_vec, &candidate)),
                scored_by(
                    similarity,
                    query_vec,
                    valid_vectors(listing.take(it.index() as int), self.ttl(), now),
                    candidates@,
                ),
        {
            let (_, entry) = item;
            proof {
                let grown = listing.take(it.index() + 1);
                assert(grown.drop_last() == listing.take(it.index() as int));
                assert(grown.last() == listing[it.index() as int]);
                assert(self.entries().contains_key(item_key(listing, it.index() as int)));
                assert(self.holds_vector(entry.vector@));
            }
            if is_valid(&entry, self.ttl_seconds, now) {
                let similarity_found = if entry.vector.len() == query_vec.len() {
                    similarity(query_vec, &entry.vector)
                } else {
                    None
                };
                candidates.push(Candidate { vector: entry.vector, similarity: similarity_found });
            }
        }
        assert(listing.take(listing.len() as int) == listing);
        best_match(&candidates, threshold)
    }

    /// The similarity scan as of the clock's reading.
    pub fn get_similar<F: Fn(&Vec<u64>, &Vec<u64>) -> Option<u64>>(
        &self,
        query_vec: &Vec<u64>,
        threshold: u64,
        similarity: F,
    ) -> (best: Option<Vec<u64>>)
        requires
            forall|candidate: Vec<u64>|
                self.holds_vector(candidate@) && candidate@.len() == query_vec@.len()
                    ==> call_requires(similarity, (query_vec, &candidate)),
        ensures
            exists|now: Timestamp| #[trigger]
                scanned(self.entries(), self.ttl(), query_vec, threshold, now, similarity, best),
    {
        let at = self.reading_time();
        self.get_similar_at(query_vec, threshold, at, similarity)
    }
}

} // verus!
