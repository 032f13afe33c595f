use semcache::{SemCache, Timestamp};
use std::cell::Cell;

#[derive(Debug, PartialEq)]
enum GeneratorError {
    Unavailable,
    BadOutput(String),
}

#[test]
fn hit_never_calls_the_generator() {
    let mut cache = SemCache::new(None);
    cache.put("t", vec![10, 20]);
    let calls = Cell::new(0);
    let result: Result<Vec<u64>, GeneratorError> = cache.get_or_compute("t", |_| {
        calls.set(calls.get() + 1);
        Ok(vec![99])
    });
    assert_eq!(result, Ok(vec![10, 20]));
    assert_eq!(calls.get(), 0);
    assert_eq!(cache.get("t"), Some(vec![10, 20]));
    assert_eq!(cache.size(), 1);
}

#[test]
fn hit_with_a_generator_that_would_panic() {
    let mut cache = SemCache::new(Some(60));
    cache.put_at("t", vec![1], Timestamp::new(100, 0));
    let result: Result<Vec<u64>, GeneratorError> =
        cache.get_or_compute_at("t", Timestamp::new(160, 0), |_| panic!("called on a hit"));
    assert_eq!(result, Ok(vec![1]));
}

#[test]
fn miss_stores_what_the_generator_returns() {
    let mut cache = SemCache::new(None);
    let calls = Cell::new(0);
    let result: Result<Vec<u64>, GeneratorError> = cache.get_or_compute("fresh", |text| {
        calls.set(calls.get() + 1);
        Ok(vec![text.len() as u64, 7])
    });
    assert_eq!(result, Ok(vec![5, 7]));
    assert_eq!(calls.get(), 1);
    assert_eq!(cache.get("fresh"), Some(vec![5, 7]));
    assert_eq!(cache.size(), 1);
}

#[test]
fn generator_sees_the_text() {
    let mut cache = SemCache::new(None);
    let seen = Cell::new(false);
    let _: Result<Vec<u64>, GeneratorError> = cache.get_or_compute("the text", |text| {
        seen.set(text == "the text");
        Ok(Vec::new())
    });
    assert!(seen.get());
}

#[test]
fn second_call_is_served_from_the_cache() {
    let mut cache = SemCache::new(None);
    let calls = Cell::new(0);
    for _ in 0..3 {
        let result: Result<Vec<u64>, GeneratorError> = cache.get_or_compute("t", |_| {
            calls.set(calls.get() + 1);
            Ok(vec![calls.get()])
        });
        assert_eq!(result, Ok(vec![1]));
    }
    assert_eq!(calls.get(), 1);
}

#[test]
fn failure_is_handed_on_unchanged() {
    let mut cache = SemCache::new(None);
    cache.put("other", vec![1]);
    let result: Result<Vec<u64>, GeneratorError> =
        cache.get_or_compute("t", |_| Err(GeneratorError::BadOutput(String::from("not a vector"))));
    assert_eq!(result, Err(GeneratorError::BadOutput(String::from("not a vector"))));
    assert_eq!(cache.get("t"), None);
    assert_eq!(cache.size(), 1);
    assert_eq!(cache.get("other"), Some(vec![1]));
}

#[test]
fn failure_leaves_an_expired_entry_in_place() {
    let mut cache = SemCache::new(Some(1));
    cache.put_at("t", vec![1], Timestamp::new(0, 0));
    let result: Result<Vec<u64>, GeneratorError> =
        cache.get_or_compute_at("t", Timestamp::new(100, 0), |_| Err(GeneratorError::Unavailable));
    assert_eq!(result, Err(GeneratorError::Unavailable));
    assert_eq!(cache.size(), 1);
    assert_eq!(cache.get_at("t", Timestamp::new(1, 0)), Some(vec![1]));
    assert_eq!(cache.dump()[0].1.created_at, Timestamp::new(0, 0));
}

#[test]
fn expired_entry_is_computed_again() {
    let mut cache = SemCache::new(Some(10));
    cache.put_at("t", vec![1], Timestamp::new(0, 0));
    let calls = Cell::new(0);
    let result: Result<Vec<u64>, GeneratorError> =
        cache.get_or_compute_at("t", Timestamp::new(11, 0), |_| {
            calls.set(calls.get() + 1);
            Ok(vec![2])
        });
    assert_eq!(result, Ok(vec![2]));
    assert_eq!(calls.get(), 1);
    assert_eq!(cache.size(), 1);
    assert_eq!(cache.get_at("t", Timestamp::new(21, 0)), Some(vec![2]));
    assert_eq!(cache.get_at("t", Timestamp::new(21, 1)), None);
    assert_eq!(cache.dump()[0].1.created_at, Timestamp::new(11, 0));
}

#[test]
fn entry_at_the_edge_of_its_ttl_is_a_hit() {
    let mut cache = SemCache::new(Some(10));
    cache.put_at("t", vec![1], Timestamp::new(0, 0));
    let result: Result<Vec<u64>, GeneratorError> =
        cache.get_or_compute_at("t", Timestamp::new(10, 0), |_| Ok(vec![2]));
    assert_eq!(result, Ok(vec![1]));
    let result: Result<Vec<u64>, GeneratorError> =
        cache.get_or_compute_at("t", Timestamp::new(10, 1), |_| Ok(vec![3]));
    assert_eq!(result, Ok(vec![3]));
}

#[test]
fn computed_vector_is_stamped_with_the_given_instant() {
    let mut cache = SemCache::new(Some(5));
    let result: Result<Vec<u64>, GeneratorError> =
        cache.get_or_compute_at("t", Timestamp::new(1_000, 123), |_| Ok(vec![4]));
    assert_eq!(result, Ok(vec![4]));
    let snapshot = cache.dump();
    assert_eq!(snapshot.len(), 1);
    assert_eq!(snapshot[0].0, cache._hash("t"));
    assert_eq!(snapshot[0].1.vector, vec![4]);
    assert_eq!(snapshot[0].1.created_at, Timestamp::new(1_000, 123));
}
