use sierra::cache::ResourceCache;

#[test]
fn cache_fetch_or_create_reuses() {
    let mut cache: ResourceCache<u32> = ResourceCache::new();
    assert_eq!(*cache.fetch_or_create(|r| *r == 5, || 5), 5);
    let mut created = false;
    assert_eq!(
        *cache.fetch_or_create(|r| *r == 5, || {
            created = true;
            5
        }),
        5
    );
    assert!(!created);
    assert_eq!(*cache.get_or_create(&7, || 7), 7);
    assert_eq!(cache.fetch_no_update(|r| *r > 6), Some(&7));
    assert_eq!(cache.get_no_update(&5), Some(&5));
    assert_eq!(cache.get_no_update(&9), None);
}

#[test]
fn cache_try_create_error_leaves_cache() {
    let mut cache: ResourceCache<u32> = ResourceCache::with_capacity(4);
    let r: Result<&u32, &str> = cache.try_fetch_or_create(|r| *r == 1, || Err("fail"));
    assert_eq!(r, Err("fail"));
    assert_eq!(cache.get_no_update(&1), None);
    let r: Result<&u32, &str> = cache.try_get_or_create(&1, || Ok(1));
    assert_eq!(r, Ok(&1));
    let r: Result<&u32, &str> = cache.try_get_or_create(&1, || Err("unused"));
    assert_eq!(r, Ok(&1));
}

#[test]
fn cache_evicts_unused_resources() {
    let mut cache: ResourceCache<u32> = ResourceCache::new();
    cache.get_or_create(&1, || 1);
    cache.get_or_create(&2, || 2);
    cache.next_epoch();
    cache.next_epoch();
    assert_eq!(cache.get(&2), Some(&2));
    cache.evict(1);
    assert_eq!(cache.get_no_update(&1), None);
    assert_eq!(cache.get_no_update(&2), Some(&2));
}

#[test]
fn cache_used_resource_survives_eviction() {
    let mut cache: ResourceCache<u32> = ResourceCache::new();
    cache.get_or_create(&3, || 3);
    cache.next_epoch();
    cache.next_epoch();
    cache.next_epoch();
    assert_eq!(cache.fetch(|r| *r == 3), Some(&3));
    cache.evict(3);
    assert_eq!(cache.get_no_update(&3), Some(&3));
    cache.evict(3);
    assert_eq!(cache.get_no_update(&3), Some(&3));
}

#[test]
fn cache_eviction_past_current_epoch_empties() {
    let mut cache: ResourceCache<u32> = ResourceCache::new();
    cache.get_or_create(&1, || 1);
    cache.next_epoch();
    cache.get_or_create(&2, || 2);
    cache.evict(2);
    assert_eq!(cache.get_no_update(&1), None);
    assert_eq!(cache.get_no_update(&2), None);
}

#[test]
fn cache_fetch_updates_only_found_entry() {
    let mut cache: ResourceCache<u32> = ResourceCache::new();
    cache.get_or_create(&1, || 1);
    cache.get_or_create(&2, || 2);
    cache.next_epoch();
    assert_eq!(cache.fetch(|r| *r == 1), Some(&1));
    assert_eq!(cache.fetch(|r| *r == 4), None);
    cache.evict(1);
    assert_eq!(cache.get_no_update(&1), Some(&1));
    assert_eq!(cache.get_no_update(&2), None);
}

#[test]
fn get_or_create_twice_creates_once() {
    let mut cache: ResourceCache<u32> = ResourceCache::new();
    cache.get_or_create(&1, || 1);
    cache.get_or_create(&4, || 4);
    let mut created = false;
    assert_eq!(
        *cache.get_or_create(&4, || {
            created = true;
            4
        }),
        4
    );
    assert!(!created);
    let by_key = cache.get(&4).copied();
    let by_predicate = cache.fetch(|r| *r == 4).copied();
    assert_eq!(by_key, Some(4));
    assert_eq!(by_key, by_predicate);
}
