use news_mcp::cache::{NewsArticle, NewsCache, NewsCategory};
use std::str::FromStr;

fn article(title: &str, description: Option<&str>, link: &str, category: NewsCategory) -> NewsArticle {
    NewsArticle::new(
        title.to_string(),
        description.map(|d| d.to_string()),
        link.to_string(),
        "Source".to_string(),
        category,
        None,
        None,
    )
}

#[test]
fn test_news_article_creation() {
    let article = NewsArticle::new(
        "Test Title".to_string(),
        Some("Test Description".to_string()),
        "https://example.com".to_string(),
        "Test Source".to_string(),
        NewsCategory::Technology,
        None,
        Some("Test Author".to_string()),
    );

    assert_eq!(article.title, "Test Title");
    assert_eq!(article.description, Some("Test Description".to_string()));
    assert_eq!(article.link, "https://example.com");
    assert_eq!(article.source, "Test Source");
    assert_eq!(article.category, NewsCategory::Technology);
    assert_eq!(article.author, Some("Test Author".to_string()));
}

#[test]
fn test_cache_search() {
    let mut cache = NewsCache::new(100);

    let articles = vec![
        NewsArticle::new(
            "Rust Programming".to_string(),
            Some("Learn Rust programming language".to_string()),
            "https://example.com/rust".to_string(),
            "Tech Source".to_string(),
            NewsCategory::Technology,
            None,
            None,
        ),
        NewsArticle::new(
            "Python Programming".to_string(),
            Some("Learn Python programming language".to_string()),
            "https://example.com/python".to_string(),
            "Tech Source".to_string(),
            NewsCategory::Technology,
            None,
            None,
        ),
    ];

    cache
        .set_category_news(NewsCategory::Technology, articles)
        .unwrap();

    // Search for "rust"
    let results = cache
        .search("rust", Some(&NewsCategory::Technology))
        .unwrap();
    assert_eq!(results.len(), 1);
    assert_eq!(results[0].title, "Rust Programming");

    // Search for "programming" (matches both)
    let results = cache
        .search("programming", Some(&NewsCategory::Technology))
        .unwrap();
    assert_eq!(results.len(), 2);

    // Search in all categories
    let results = cache.search("programming", None).unwrap();
    assert_eq!(results.len(), 2);
}

#[test]
fn test_cache_max_articles_limit() {
    let mut cache = NewsCache::new(5); // Limit to 5 articles

    let articles: Vec<NewsArticle> = (0..10)
        .map(|i| {
            NewsArticle::new(
                format!("Article {}", i),
                Some(format!("Description {}", i)),
                format!("https://example.com/{}", i),
                "Source".to_string(),
                NewsCategory::Technology,
                None,
                None,
            )
        })
        .collect();

    cache
        .set_category_news(NewsCategory::Technology, articles)
        .unwrap();

    let retrieved = cache.get_category_news(&NewsCategory::Technology).unwrap();
    assert_eq!(retrieved.len(), 5); // Should be limited to 5
}

#[test]
fn test_cache_clear() {
    let mut cache = NewsCache::new(100);

    let articles = vec![NewsArticle::new(
        "Article".to_string(),
        None,
        "https://example.com".to_string(),
        "Source".to_string(),
        NewsCategory::Technology,
        None,
        None,
    )];

    cache
        .set_category_news(NewsCategory::Technology, articles)
        .unwrap();

    assert_eq!(cache.total_article_count().unwrap(), 1);

    cache.clear().unwrap();

    assert_eq!(cache.total_article_count().unwrap(), 0);
}

#[test]
fn category_names_parse_ignoring_case() {
    assert_eq!(NewsCategory::from_str("technology").unwrap(), NewsCategory::Technology);
    assert_eq!(NewsCategory::from_str("tech").unwrap(), NewsCategory::Technology);
    assert_eq!(NewsCategory::from_str("TECHNOLOGY").unwrap(), NewsCategory::Technology);
    assert_eq!(NewsCategory::from_str("Science").unwrap(), NewsCategory::Science);
    assert_eq!(NewsCategory::from_str("hn").unwrap(), NewsCategory::HackerNews);
    assert_eq!(NewsCategory::from_str("HackerNews").unwrap(), NewsCategory::HackerNews);
    assert_eq!(NewsCategory::from_str("即时新闻").unwrap(), NewsCategory::Instant);
    assert_eq!(NewsCategory::from_str("B站热搜").unwrap(), NewsCategory::BilibiliHot);
    assert_eq!(NewsCategory::from_str("ifenghot").unwrap(), NewsCategory::IfengHot);
    assert!(NewsCategory::from_str("invalid").is_err());
}

#[test]
fn invalid_category_error_lists_the_categories() {
    let err = NewsCategory::parse("invalid").unwrap_err();
    let text = err.to_string();
    assert!(text.ends_with("'invalid' is not a valid category. Valid categories: technology, business, science, health, sports, entertainment, general, world, hackernews, instant, headlines, politics, eastwest, society, finance, life, wellness, greaterbayarea, chinese, video, photo, creative, live, education, law, unitedfront, ethnicunity, beltandroad, theory, asean"));
    assert!(text.starts_with("[INVALID_CATEGORY] 'invalid'"));
}

#[test]
fn every_category_is_listed_once_and_names_parse_back() {
    let all = NewsCategory::all();
    assert_eq!(all.len(), 34);
    for (i, c) in all.iter().enumerate() {
        assert_eq!(c.index(), i);
    }
    for (name, c) in [("technology", NewsCategory::Technology), ("science", NewsCategory::Science), ("hackernews", NewsCategory::HackerNews), ("greaterbayarea", NewsCategory::GreaterBayArea), ("wallstreetcnhot", NewsCategory::WallstreetcnHot)] {
        assert_eq!(NewsCategory::from_lowercase(name), Some(c));
    }
    assert_eq!(all[0], NewsCategory::Technology);
    assert_eq!(all[2], NewsCategory::HackerNews);
    assert_eq!(all[33], NewsCategory::IfengHot);
}

#[test]
fn category_display_names() {
    assert_eq!(NewsCategory::Technology.display_name(), "Technology");
    assert_eq!(NewsCategory::Science.display_name(), "Science");
    assert_eq!(NewsCategory::HackerNews.display_name(), "Hacker News");
    assert_eq!(NewsCategory::Instant.display_name(), "即时新闻");
    assert_eq!(NewsCategory::Technology.to_string(), "Technology");
}

#[test]
fn empty_cache_lists_every_category_with_no_articles() {
    let cache = NewsCache::new(100);
    let categories = cache.get_all_categories().unwrap();
    assert_eq!(categories.len(), 34);
    for (i, (category, count)) in categories.iter().enumerate() {
        assert_eq!(*category, NewsCategory::all()[i]);
        assert_eq!(*count, 0);
        assert_eq!(cache.get_last_updated(category).unwrap(), None);
        assert!(cache.get_category_news(category).unwrap().is_empty());
    }
    assert_eq!(cache.total_article_count().unwrap(), 0);
}

#[test]
fn read_after_set_gives_back_the_articles_and_time() {
    let mut cache = NewsCache::new(2);
    let arts = vec![
        article("A", None, "https://a", NewsCategory::Science),
        article("B", Some("b"), "https://b", NewsCategory::Science),
        article("C", None, "https://c", NewsCategory::Science),
    ];
    cache.set_category_news_at(NewsCategory::Science, arts, at(1_700_000_000));
    let back = cache.get_category_news(&NewsCategory::Science).unwrap();
    assert_eq!(back.len(), 2);
    assert_eq!(back[0].title, "A");
    assert_eq!(back[1].title, "B");
    assert_eq!(cache.get_last_updated(&NewsCategory::Science).unwrap(), Some(at(1_700_000_000)));
    // other categories are untouched
    assert!(cache.get_category_news(&NewsCategory::Technology).unwrap().is_empty());
    assert_eq!(cache.get_last_updated(&NewsCategory::Technology).unwrap(), None);
    assert_eq!(cache.max_articles_per_category(), 2);
}

#[test]
fn setting_again_replaces_the_category() {
    let mut cache = NewsCache::new(10);
    cache.set_category_news_at(NewsCategory::Law, vec![article("Old", None, "https://o", NewsCategory::Law)], at(1));
    cache.set_category_news_at(NewsCategory::Law, vec![article("New", None, "https://n", NewsCategory::Law)], at(2));
    let back = cache.get_category_news(&NewsCategory::Law).unwrap();
    assert_eq!(back.len(), 1);
    assert_eq!(back[0].title, "New");
    assert_eq!(cache.get_last_updated(&NewsCategory::Law).unwrap(), Some(at(2)));
}

#[test]
fn search_all_goes_category_by_category_and_matches_descriptions() {
    let mut cache = NewsCache::new(10);
    cache.set_category_news_at(
        NewsCategory::Science,
        vec![article("Space", Some("Rocket launch"), "https://s", NewsCategory::Science)],
        at(5),
    );
    cache.set_category_news_at(
        NewsCategory::Technology,
        vec![
            article("ROCKET engines", None, "https://t1", NewsCategory::Technology),
            article("Chips", None, "https://t2", NewsCategory::Technology),
        ],
        at(5),
    );
    let found = cache.search("rocket", None).unwrap();
    assert_eq!(found.len(), 2);
    // Technology comes before Science in the category order
    assert_eq!(found[0].title, "ROCKET engines");
    assert_eq!(found[1].title, "Space");
    let in_science = cache.search("ROCKET", Some(&NewsCategory::Science)).unwrap();
    assert_eq!(in_science.len(), 1);
    assert!(cache.search("nothing-here", None).unwrap().is_empty());
}

#[test]
fn counts_agree_with_the_cached_articles() {
    let mut cache = NewsCache::new(10);
    cache.set_category_news_at(
        NewsCategory::Finance,
        vec![
            article("x", None, "https://x", NewsCategory::Finance),
            article("y", None, "https://y", NewsCategory::Finance),
        ],
        at(9),
    );
    cache.set_category_news_at(NewsCategory::Video, vec![article("z", None, "https://z", NewsCategory::Video)], at(9));
    let counts = cache.get_all_categories().unwrap();
    let finance = counts.iter().find(|(c, _)| *c == NewsCategory::Finance).unwrap();
    assert_eq!(finance.1, 2);
    let video = counts.iter().find(|(c, _)| *c == NewsCategory::Video).unwrap();
    assert_eq!(video.1, 1);
    let sum: usize = counts.iter().map(|(_, n)| *n).sum();
    assert_eq!(sum, 3);
    assert_eq!(cache.total_article_count().unwrap(), 3);
}

#[test]
fn set_with_the_clock_stamps_a_time() {
    let mut cache = NewsCache::new(10);
    cache
        .set_category_news(NewsCategory::Photo, vec![article("p", None, "https://p", NewsCategory::Photo)])
        .unwrap();
    assert!(cache.get_last_updated(&NewsCategory::Photo).unwrap().is_some());
}

#[test]
fn setting_two_categories_in_either_order_gives_the_same_cache() {
    let sci = || vec![article("s", None, "https://s", NewsCategory::Science)];
    let tech = || vec![article("t", None, "https://t", NewsCategory::Technology)];
    let mut a = NewsCache::new(10);
    a.set_category_news_at(NewsCategory::Science, sci(), at(7));
    a.set_category_news_at(NewsCategory::Technology, tech(), at(7));
    let mut b = NewsCache::new(10);
    b.set_category_news_at(NewsCategory::Technology, tech(), at(7));
    b.set_category_news_at(NewsCategory::Science, sci(), at(7));
    for c in NewsCategory::all() {
        let x: Vec<String> = a.get_category_news(&c).unwrap().into_iter().map(|n| n.title).collect();
        let y: Vec<String> = b.get_category_news(&c).unwrap().into_iter().map(|n| n.title).collect();
        assert_eq!(x, y);
        assert_eq!(a.get_last_updated(&c).unwrap(), b.get_last_updated(&c).unwrap());
    }
}

#[test]
fn test_cache_operations() {
    let mut cache = NewsCache::new(100);

    let articles = vec![
        NewsArticle::new(
            "Article 1".to_string(),
            Some("Description 1".to_string()),
            "https://example.com/1".to_string(),
            "Source 1".to_string(),
            NewsCategory::Technology,
            None,
            None,
        ),
        NewsArticle::new(
            "Article 2".to_string(),
            Some("Description 2".to_string()),
            "https://example.com/2".to_string(),
            "Source 2".to_string(),
            NewsCategory::Technology,
            None,
            None,
        ),
    ];

    // Set articles
    cache
        .set_category_news(NewsCategory::Technology, articles)
        .unwrap();

    // Get articles
    let retrieved = cache.get_category_news(&NewsCategory::Technology).unwrap();
    assert_eq!(retrieved.len(), 2);

    // Get empty category
    let empty = cache.get_category_news(&NewsCategory::Science).unwrap();
    assert_eq!(empty.len(), 0);
}

#[test]
fn display_names_parse_back_and_are_distinct() {
    let all = NewsCategory::all();
    for c in &all {
        assert!(!c.display_name().is_empty());
        if *c != NewsCategory::HackerNews {
            assert_eq!(NewsCategory::from_str(c.display_name()).unwrap(), *c);
            assert_eq!(NewsCategory::from_str(&c.display_name().to_uppercase()).unwrap(), *c);
        }
        for d in &all {
            if c != d {
                assert_ne!(c.display_name(), d.display_name());
            }
        }
    }
    assert!(NewsCategory::from_str("Hacker News").is_err());
    assert_eq!(NewsCategory::from_str("TECH").unwrap(), NewsCategory::Technology);
    assert_eq!(NewsCategory::from_str("HN").unwrap(), NewsCategory::HackerNews);
}

#[test]
fn clock_times_are_ones_chrono_represents() {
    let t = news_mcp::time::now_timestamp();
    assert!(news_mcp::time::timestamp_in_range(t.secs));
    assert!(t.nanos < 1_000_000_000);
}

#[test]
fn a_category_never_set_stays_empty_over_writes() {
    let mut cache = NewsCache::new(10);
    cache.set_category_news_at(NewsCategory::Law, vec![article("l", None, "https://l", NewsCategory::Law)], at(1));
    cache.clear().unwrap();
    cache.set_category_news_at(NewsCategory::Video, vec![article("v", None, "https://v", NewsCategory::Video)], at(2));
    assert!(cache.get_category_news(&NewsCategory::Law).unwrap().is_empty());
    assert_eq!(cache.get_last_updated(&NewsCategory::Law).unwrap(), None);
    assert!(cache.get_category_news(&NewsCategory::Photo).unwrap().is_empty());
    assert_eq!(cache.get_category_news(&NewsCategory::Video).unwrap().len(), 1);
}

#[test]
fn test_news_category_from_str() {
    assert_eq!(NewsCategory::from_str("technology").unwrap(), NewsCategory::Technology);
    assert_eq!(NewsCategory::from_str("tech").unwrap(), NewsCategory::Technology);
    assert_eq!(NewsCategory::from_str("science").unwrap(), NewsCategory::Science);
    assert!(NewsCategory::from_str("invalid").is_err());
}

#[test]
fn test_news_category_all() {
    let categories = NewsCategory::all();
    assert_eq!(categories.len(), 34);
}

#[test]
fn test_news_category_display() {
    assert_eq!(NewsCategory::Technology.display_name(), "Technology");
    assert_eq!(NewsCategory::Science.display_name(), "Science");
}

#[test]
fn test_cache_categories() {
    let cache = NewsCache::new(100);

    let categories = cache.get_all_categories().unwrap();
    assert_eq!(categories.len(), 34);

    for (category, count) in categories {
        assert!(count == 0);
        let _ = category.display_name();
    }
}

fn at(secs: i64) -> news_mcp::time::Timestamp {
    news_mcp::time::Timestamp { secs, nanos: 0 }
}
