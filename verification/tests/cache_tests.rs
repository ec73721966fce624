use steam_bridge::cache::HandleCache;

fn name(text: &str) -> String {
    text.to_string()
}

#[test]
fn new_cache_is_empty() {
    let cache: HandleCache<u64> = HandleCache::new();
    assert_eq!(cache.len(), 0);
    assert!(cache.list_names().is_empty());
    assert_eq!(cache.get(&name("weekly")), None);
    assert!(!cache.contains(&name("weekly")));
}

#[test]
fn insert_then_get() {
    let mut cache: HandleCache<u64> = HandleCache::new();
    cache.insert(name("weekly"), 11);
    assert_eq!(cache.get(&name("weekly")), Some(&11));
    assert!(cache.contains(&name("weekly")));
    assert_eq!(cache.len(), 1);
}

#[test]
fn insert_under_the_same_name_overwrites() {
    let mut cache: HandleCache<u64> = HandleCache::new();
    cache.insert(name("weekly"), 11);
    cache.insert(name("weekly"), 22);
    assert_eq!(cache.get(&name("weekly")), Some(&22));
    assert_eq!(cache.len(), 1);
    assert_eq!(cache.list_names(), vec![name("weekly")]);
}

#[test]
fn names_are_kept_apart() {
    let mut cache: HandleCache<u64> = HandleCache::new();
    cache.insert(name("weekly"), 11);
    cache.insert(name("daily"), 22);
    cache.insert(name("alltime"), 33);
    assert_eq!(cache.get(&name("weekly")), Some(&11));
    assert_eq!(cache.get(&name("daily")), Some(&22));
    assert_eq!(cache.get(&name("alltime")), Some(&33));
    assert_eq!(cache.get(&name("week")), None);
    assert_eq!(cache.len(), 3);
}

#[test]
fn names_are_compared_exactly() {
    let mut cache: HandleCache<u64> = HandleCache::new();
    cache.insert(name("Weekly"), 1);
    assert_eq!(cache.get(&name("weekly")), None);
    assert_eq!(cache.get(&name("Weekly ")), None);
    assert_eq!(cache.get(&name("")), None);
    cache.insert(name(""), 2);
    assert_eq!(cache.get(&name("")), Some(&2));
}

#[test]
fn remove_says_whether_the_name_was_held() {
    let mut cache: HandleCache<u64> = HandleCache::new();
    cache.insert(name("weekly"), 11);
    assert!(cache.remove(&name("weekly")));
    assert!(!cache.remove(&name("weekly")));
    assert!(!cache.remove(&name("daily")));
    assert_eq!(cache.len(), 0);
}

#[test]
fn remove_leaves_the_other_names() {
    let mut cache: HandleCache<u64> = HandleCache::new();
    cache.insert(name("a"), 1);
    cache.insert(name("b"), 2);
    cache.insert(name("c"), 3);
    assert!(cache.remove(&name("b")));
    assert_eq!(cache.get(&name("a")), Some(&1));
    assert_eq!(cache.get(&name("b")), None);
    assert_eq!(cache.get(&name("c")), Some(&3));
    let mut names = cache.list_names();
    names.sort();
    assert_eq!(names, vec![name("a"), name("c")]);
}

#[test]
fn removed_name_can_be_cached_again() {
    let mut cache: HandleCache<u64> = HandleCache::new();
    cache.insert(name("weekly"), 1);
    assert!(cache.remove(&name("weekly")));
    cache.insert(name("weekly"), 2);
    assert_eq!(cache.get(&name("weekly")), Some(&2));
    assert_eq!(cache.len(), 1);
}

#[test]
fn list_names_holds_each_name_once() {
    let mut cache: HandleCache<u64> = HandleCache::new();
    cache.insert(name("x"), 1);
    cache.insert(name("y"), 2);
    cache.insert(name("x"), 3);
    cache.insert(name("z"), 4);
    cache.insert(name("y"), 5);
    let mut names = cache.list_names();
    names.sort();
    assert_eq!(names, vec![name("x"), name("y"), name("z")]);
    assert_eq!(cache.len(), 3);
}
