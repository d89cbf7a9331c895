use oxibridge::storage::{plan_url, StorageAction, UrlCache, DAY, MARGIN};

const ABC: &str = "ba7816bf8f01cfea414140de5dae2223b00361a396177a9cb410ff61f20015ad";

#[test]
fn stored_link_is_handed_out_until_the_margin() {
    let mut cache = UrlCache::new();
    assert_eq!(cache.lookup("h", 0), None);
    cache.store("h".to_owned(), "https://a".to_owned(), 1000);
    assert_eq!(cache.lookup("h", 1000), Some("https://a".to_owned()));
    assert_eq!(cache.lookup("h", 1000 + DAY - MARGIN), Some("https://a".to_owned()));
    assert_eq!(cache.lookup("h", 1000 + DAY - MARGIN + 1), None);
    assert_eq!(cache.lookup("other", 1000), None);
}

#[test]
fn storing_again_replaces_the_link() {
    let mut cache = UrlCache::new();
    cache.store("h".to_owned(), "https://a".to_owned(), 0);
    cache.store("g".to_owned(), "https://g".to_owned(), 0);
    cache.store("h".to_owned(), "https://b".to_owned(), 500);
    assert_eq!(cache.lookup("h", DAY), Some("https://b".to_owned()));
    assert_eq!(cache.lookup("g", 0), Some("https://g".to_owned()));
    assert_eq!(cache.lookup("g", DAY), None);
}

#[test]
fn content_is_stored_under_its_digest() {
    let mut cache = UrlCache::new();
    let content = b"abc".to_vec();
    match plan_url(&cache, &content, 0) {
        StorageAction::Upload(name) => assert_eq!(name, ABC),
        other => panic!("unexpected action {other:?}"),
    }
    cache.store(ABC.to_owned(), "https://abc".to_owned(), 0);
    match plan_url(&cache, &content, 10) {
        StorageAction::Reuse(url) => assert_eq!(url, "https://abc"),
        other => panic!("unexpected action {other:?}"),
    }
    match plan_url(&cache, &content, DAY) {
        StorageAction::Upload(name) => assert_eq!(name, ABC),
        other => panic!("unexpected action {other:?}"),
    }
    match plan_url(&cache, &b"abd".to_vec(), 10) {
        StorageAction::Upload(name) => assert_ne!(name, ABC),
        other => panic!("unexpected action {other:?}"),
    }
}

#[test]
fn late_links_never_overflow() {
    let mut cache = UrlCache::new();
    cache.store("h".to_owned(), "https://a".to_owned(), u64::MAX);
    assert_eq!(cache.lookup("h", u64::MAX - MARGIN), Some("https://a".to_owned()));
    assert_eq!(cache.lookup("h", u64::MAX), None);
}
