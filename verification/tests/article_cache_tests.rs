use news_mcp::cache::{ArticleCache, CachedArticle};

#[test]
fn test_cached_article_creation() {
    let article = CachedArticle::new("This is test content with seven words.".to_string());
    assert_eq!(article.word_count, 7);
}

#[test]
fn test_cache_insert_and_get() {
    let mut cache = ArticleCache::new(10);
    let article = CachedArticle::new("Content".to_string());

    cache
        .insert("https://example.com".to_string(), article.clone())
        .unwrap();

    let cached = cache.get("https://example.com").unwrap();
    assert!(cached.is_some());
    assert_eq!(cached.unwrap().content, "Content");
}

#[test]
fn test_cache_max_capacity() {
    let mut cache = ArticleCache::new(3);

    for i in 0..5 {
        let article = CachedArticle::new(format!("Content {}", i));
        cache
            .insert(format!("https://example.com/{}", i), article)
            .unwrap();
    }

    let count = cache.count().unwrap();
    assert_eq!(count, 3);
}

#[test]
fn word_count_splits_on_any_whitespace() {
    assert_eq!(CachedArticle::new_at("  one\ttwo\n three  ".to_string(), at(0)).word_count, 3);
    assert_eq!(CachedArticle::new_at(String::new(), at(0)).word_count, 0);
    assert_eq!(CachedArticle::new_at("x".to_string(), at(42)).fetched_at, at(42));
}

#[test]
fn insert_evicts_the_earliest_fetched_entry() {
    let mut cache = ArticleCache::new(2);
    cache.insert("https://a".to_string(), CachedArticle::new_at("A".to_string(), at(30))).unwrap();
    cache.insert("https://b".to_string(), CachedArticle::new_at("B".to_string(), at(10))).unwrap();
    cache.insert("https://c".to_string(), CachedArticle::new_at("C".to_string(), at(20))).unwrap();
    assert_eq!(cache.count().unwrap(), 2);
    assert!(cache.get("https://b").unwrap().is_none());
    assert_eq!(cache.get("https://a").unwrap().unwrap().content, "A");
    assert_eq!(cache.get("https://c").unwrap().unwrap().content, "C");
}

#[test]
fn eviction_orders_fetch_times_within_a_second() {
    let stamp = |nanos: u32| news_mcp::time::Timestamp { secs: 100, nanos };
    let mut cache = ArticleCache::new(2);
    cache.insert("https://a".to_string(), CachedArticle::new_at("A".to_string(), stamp(700))).unwrap();
    cache.insert("https://b".to_string(), CachedArticle::new_at("B".to_string(), stamp(200))).unwrap();
    cache.insert("https://c".to_string(), CachedArticle::new_at("C".to_string(), stamp(900))).unwrap();
    assert!(cache.get("https://b").unwrap().is_none());
    assert!(cache.get("https://a").unwrap().is_some());
    assert!(cache.get("https://c").unwrap().is_some());
}

#[test]
fn insert_replaces_an_existing_url_without_evicting() {
    let mut cache = ArticleCache::new(2);
    cache.insert("https://a".to_string(), CachedArticle::new_at("A".to_string(), at(1))).unwrap();
    cache.insert("https://b".to_string(), CachedArticle::new_at("B".to_string(), at(2))).unwrap();
    cache.insert("https://a".to_string(), CachedArticle::new_at("A2".to_string(), at(3))).unwrap();
    assert_eq!(cache.count().unwrap(), 2);
    assert_eq!(cache.get("https://a").unwrap().unwrap().content, "A2");
    assert_eq!(cache.get("https://b").unwrap().unwrap().content, "B");
}

#[test]
fn clear_empties_the_article_cache() {
    let mut cache = ArticleCache::default();
    cache.insert("https://a".to_string(), CachedArticle::new("A".to_string())).unwrap();
    cache.clear().unwrap();
    assert_eq!(cache.count().unwrap(), 0);
    assert!(cache.get("https://a").unwrap().is_none());
}

fn at(secs: i64) -> news_mcp::time::Timestamp {
    news_mcp::time::Timestamp { secs, nanos: 0 }
}
