//! Cache entries and the read-time validity rule.

use crate::timestamp::Timestamp;
use vstd::prelude::*;

verus! {

/// One cached result: a vector, each component held as the 64-bit pattern of
/// a double-precision number, and the instant at which it was stored.
///
/// An entry is never changed in place: storing again under the same key
/// replaces it whole, with a new instant.
#[derive(Debug)]
pub struct CacheEntry {
    pub vector: Vec<u64>,
    pub created_at: Timestamp,
}

/// What an entry is to a contract: its components and its instant.
pub struct EntryView {
    pub vector: Seq<u64>,
    pub created_at: Timestamp,
}

impl View for CacheEntry {
    type V = EntryView;

    open spec fn view(&self) -> EntryView {
        EntryView { vector: self.vector@, created_at: self.created_at }
    }
}

impl Clone for CacheEntry {
    fn clone(&self) -> (copy: Self)
        ensures
            copy@ == self@,
    {
        CacheEntry { vector: self.vector.clone(), created_at: self.created_at }
    }
}

/// The validity rule: with a time-to-live of zero an entry never expires;
/// otherwise it is valid as long as no more than `ttl_seconds` seconds lie
/// between its creation and `now`. An entry created after `now` is valid.
pub open spec fn valid_at(created_at: Timestamp, ttl_seconds: u64, now: Timestamp) -> bool {
    ttl_seconds == 0 || now.as_nanos() - created_at.as_nanos() <= ttl_seconds * 1_000_000_000
}

/// Decides whether `entry` may still be read at `now`.
pub fn is_valid(entry: &CacheEntry, ttl_seconds: u64, now: Timestamp) -> (valid: bool)
    ensures
        valid == valid_at(entry.created_at, ttl_seconds, now),
{
    if ttl_seconds == 0 {
        return true;
    }
    let limit: i128 = ttl_seconds as i128 * 1_000_000_000;
    now.nanos_since(&entry.created_at) <= limit
}

} // verus!
