use semcache::{CacheEntry, SemCache, Timestamp};

fn entry(vector: &[u64], seconds: i64, nanos: u32) -> CacheEntry {
    CacheEntry { vector: vector.to_vec(), created_at: Timestamp::new(seconds, nanos) }
}

fn sorted(mut snapshot: Vec<(String, CacheEntry)>) -> Vec<(String, Vec<u64>, Timestamp)> {
    snapshot.sort_by(|a, b| a.0.cmp(&b.0));
    snapshot.into_iter().map(|(key, e)| (key, e.vector, e.created_at)).collect()
}

type Plain = Vec<(String, (Vec<u64>, (i64, u32)))>;

fn to_plain(snapshot: Vec<(String, CacheEntry)>) -> Plain {
    snapshot
        .into_iter()
        .map(|(key, e)| (key, (e.vector, (e.created_at.seconds, e.created_at.nanos))))
        .collect()
}

fn from_plain(plain: Plain) -> Vec<(String, CacheEntry)> {
    plain
        .into_iter()
        .map(|(key, (vector, (seconds, nanos)))| {
            (key, CacheEntry { vector, created_at: Timestamp::new(seconds, nanos) })
        })
        .collect()
}

#[test]
fn dump_of_an_empty_cache_is_empty() {
    assert!(SemCache::new(None).dump().is_empty());
}

#[test]
fn dump_lists_every_entry_once() {
    let mut cache = SemCache::new(Some(1));
    cache.put_at("a", vec![1, 2], Timestamp::new(10, 1));
    cache.put_at("b", vec![3], Timestamp::new(20, 2));
    cache.put_at("a", vec![4, 5, 6], Timestamp::new(30, 3));
    let listed = sorted(cache.dump());
    let mut expected = vec![
        (cache._hash("a"), vec![4, 5, 6], Timestamp::new(30, 3)),
        (cache._hash("b"), vec![3], Timestamp::new(20, 2)),
    ];
    expected.sort_by(|x, y| x.0.cmp(&y.0));
    assert_eq!(listed, expected);
}

#[test]
fn dump_includes_expired_entries() {
    let mut cache = SemCache::new(Some(1));
    cache.put_at("a", vec![1], Timestamp::new(0, 0));
    assert_eq!(cache.get_at("a", Timestamp::new(1_000, 0)), None);
    assert_eq!(cache.dump().len(), 1);
}

#[test]
fn clone_of_an_entry_is_equal() {
    let first = entry(&[9, 8, 7], -3, 17);
    let copy = first.clone();
    assert_eq!(copy.vector, first.vector);
    assert_eq!(copy.created_at, first.created_at);
}

#[test]
fn load_returns_the_number_of_entries() {
    let mut cache = SemCache::new(None);
    let snapshot = vec![
        (String::from("k1"), entry(&[1], 1, 0)),
        (String::from("k2"), entry(&[2], 2, 0)),
        (String::from("k3"), entry(&[3], 3, 0)),
    ];
    assert_eq!(cache.load(snapshot), 3);
    assert_eq!(cache.size(), 3);
}

#[test]
fn load_of_nothing_empties_the_cache() {
    let mut cache = SemCache::new(None);
    cache.put("a", vec![1]);
    assert_eq!(cache.load(Vec::new()), 0);
    assert_eq!(cache.size(), 0);
    assert_eq!(cache.get("a"), None);
}

#[test]
fn load_replaces_what_was_there() {
    let mut source = SemCache::new(None);
    source.put("kept", vec![1, 2]);
    let mut target = SemCache::new(None);
    target.put("dropped", vec![3]);
    target.put("kept", vec![4]);
    assert_eq!(target.load(source.dump()), 1);
    assert_eq!(target.size(), 1);
    assert_eq!(target.get("dropped"), None);
    assert_eq!(target.get("kept"), Some(vec![1, 2]));
}

#[test]
fn load_keeps_the_later_of_two_items_with_one_key() {
    let mut cache = SemCache::new(None);
    let key = cache._hash("t");
    let snapshot = vec![
        (key.clone(), entry(&[1], 1, 0)),
        (String::from("other"), entry(&[2], 2, 0)),
        (key, entry(&[3], 3, 0)),
    ];
    assert_eq!(cache.load(snapshot), 2);
    assert_eq!(cache.size(), 2);
    assert_eq!(cache.get("t"), Some(vec![3]));
}

#[test]
fn load_keeps_the_ttl_of_the_cache() {
    let mut cache = SemCache::new(Some(10));
    let key = cache._hash("t");
    assert_eq!(cache.load(vec![(key, entry(&[1], 100, 0))]), 1);
    assert_eq!(cache.get_at("t", Timestamp::new(110, 0)), Some(vec![1]));
    assert_eq!(cache.get_at("t", Timestamp::new(111, 0)), None);
}

#[test]
fn dump_then_load_reproduces_every_read() {
    let texts = ["alpha", "beta", "gamma", "delta", ""];
    let mut source = SemCache::new(Some(100));
    for (i, text) in texts.iter().enumerate() {
        let vector = vec![(i as f64 * 0.25).to_bits(), f64::NAN.to_bits(), i as u64];
        source.put_at(text, vector, Timestamp::new(1_000 + 40 * i as i64, 999_999_999));
    }
    source.put_at("beta", vec![77], Timestamp::new(1_500, 0));
    let mut target = SemCache::new(Some(100));
    let count = target.load(source.dump());
    assert_eq!(count, 5);
    assert_eq!(count, source.size());
    assert_eq!(target.size(), source.size());
    for now in [1_000, 1_100, 1_101, 1_140, 1_200, 1_261, 1_600, 1_601, 9_999] {
        let at = Timestamp::new(now, 0);
        for text in texts {
            assert_eq!(target.get_at(text, at), source.get_at(text, at));
        }
        assert_eq!(target.get_at("absent", at), None);
    }
    assert_eq!(sorted(target.dump()), sorted(source.dump()));
}

#[test]
fn dump_then_load_through_bytes() {
    let mut source = SemCache::new(None);
    source.put_at("a", vec![0.1f64.to_bits(), 0.2f64.to_bits()], Timestamp::new(1_700_000_000, 5));
    source.put_at("b", vec![], Timestamp::new(-1, 999_999_999));
    source.put_at("c", vec![u64::MAX, 0], Timestamp::new(i64::MAX, u32::MAX));
    let bytes = bincode::serialize(&to_plain(source.dump())).expect("encodes");
    let decoded: Plain = bincode::deserialize(&bytes).expect("decodes");
    let mut target = SemCache::new(None);
    assert_eq!(target.load(from_plain(decoded)), 3);
    assert_eq!(sorted(target.dump()), sorted(source.dump()));
    for text in ["a", "b", "c"] {
        assert_eq!(target.get(text), source.get(text));
    }
    let truncated: Result<Plain, _> = bincode::deserialize(&bytes[..bytes.len() - 1]);
    assert!(truncated.is_err());
}

#[test]
fn load_twice_keeps_only_the_second_snapshot() {
    let mut cache = SemCache::new(None);
    assert_eq!(cache.load(vec![(String::from("x"), entry(&[1], 0, 0))]), 1);
    let second = vec![
        (String::from("y"), entry(&[2], 0, 0)),
        (String::from("z"), entry(&[3], 0, 0)),
    ];
    assert_eq!(cache.load(second), 2);
    let keys: Vec<String> = sorted(cache.dump()).into_iter().map(|item| item.0).collect();
    assert_eq!(keys, vec![String::from("y"), String::from("z")]);
}
