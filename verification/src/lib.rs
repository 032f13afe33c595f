//! An in-memory cache for embedding vectors, keyed by the SHA-256 digest of
//! the text they were computed from.
//!
//! Entries carry the instant they were stored at. A time-to-live, fixed when
//! the cache is built, hides entries that are too old from every read; it
//! never removes them. Vector components and similarity scores are handled as
//! the 64-bit patterns of double-precision numbers, so that what is stored is
//! returned bit for bit.
//!
//! Each operation that depends on the time exists twice: once reading the
//! system clock, and once, with `_at` in its name, taking the instant as an
//! argument.

pub mod cache;
pub mod entry;
pub mod key;
pub mod laws;
pub mod model;
pub mod similarity;
pub mod store;
pub mod timestamp;

pub use cache::SemCache;
pub use entry::CacheEntry;
pub use similarity::Candidate;
pub use timestamp::Timestamp;
