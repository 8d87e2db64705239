use psst_gui::delegate::{Delegate, Fetch, ImageAnswer, IMAGE_CACHE_SIZE};
use psst_gui::image_cache::ImageCache;

#[test]
fn inserting_one_past_capacity_evicts_the_first() {
    let mut cache = ImageCache::new(IMAGE_CACHE_SIZE);
    for i in 0..=IMAGE_CACHE_SIZE {
        cache.insert(format!("https://img/{}", i), vec![i as u8]);
    }
    assert_eq!(cache.get(&"https://img/0".to_string()), None);
    let last = format!("https://img/{}", IMAGE_CACHE_SIZE);
    assert_eq!(cache.get(&last), Some(vec![IMAGE_CACHE_SIZE as u8]));
    assert_eq!(cache.get(&"https://img/1".to_string()), Some(vec![1]));
}

#[test]
fn a_hit_is_kept_over_older_entries() {
    let mut cache = ImageCache::new(2);
    cache.insert("a".to_string(), vec![1]);
    cache.insert("b".to_string(), vec![2]);
    assert_eq!(cache.get(&"a".to_string()), Some(vec![1]));
    cache.insert("c".to_string(), vec![3]);
    assert_eq!(cache.get(&"b".to_string()), None);
    assert_eq!(cache.get(&"a".to_string()), Some(vec![1]));
    assert_eq!(cache.get(&"c".to_string()), Some(vec![3]));
}

#[test]
fn reinsert_replaces_value() {
    let mut cache = ImageCache::new(2);
    cache.insert("a".to_string(), vec![1]);
    cache.insert("a".to_string(), vec![9]);
    cache.insert("b".to_string(), vec![2]);
    assert_eq!(cache.get(&"a".to_string()), Some(vec![9]));
    assert_eq!(cache.get(&"b".to_string()), Some(vec![2]));
}

#[test]
fn zero_capacity_keeps_nothing() {
    let mut cache = ImageCache::new(0);
    cache.insert("a".to_string(), vec![1]);
    assert_eq!(cache.get(&"a".to_string()), None);
}

#[test]
fn delegate_answers_images_from_memory_after_a_fetch() {
    let mut d = Delegate::new();
    match d.request_image("https://i/1".to_string()) {
        ImageAnswer::Fetch(f) => assert_eq!(f, Fetch::Image { location: "https://i/1".to_string() }),
        ImageAnswer::Ready { .. } => panic!("empty cache answered"),
    }
    d.provide_image("https://i/1".to_string(), vec![4, 5]);
    match d.request_image("https://i/1".to_string()) {
        ImageAnswer::Ready { data } => assert_eq!(data, vec![4, 5]),
        ImageAnswer::Fetch(_) => panic!("cached image fetched again"),
    }
}
