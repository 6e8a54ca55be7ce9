use news_mcp::tools::refresh_news::apply_refresh_results;
use news_mcp::cache::{NewsArticle, NewsCache, NewsCategory};
use news_mcp::tools::{
    default_tool_names, ArticleFormat, GetCategoriesTool, GetNewsTool, HealthCheckTool,
    RefreshNewsTool, RefreshTarget, SearchNewsTool, ToolKind, ToolOutput,
};

fn text(r: Result<ToolOutput, news_mcp::tools::ToolError>) -> String {
    match r.unwrap() {
        ToolOutput::Text(t) => t,
        ToolOutput::Json(_) => panic!("expected text"),
    }
}

fn test_cache() -> NewsCache {
    let mut cache = NewsCache::new(100);
    cache.set_category_news_at(
        NewsCategory::Technology,
        vec![NewsArticle::new(
            "Technology News".to_string(),
            Some("Latest tech updates".to_string()),
            "https://example.com/tech".to_string(),
            "Tech Source".to_string(),
            NewsCategory::Technology,
            None,
            None,
        )],
        at(1_700_000_000),
    );
    cache.set_category_news_at(
        NewsCategory::Science,
        vec![NewsArticle::new(
            "Science News".to_string(),
            Some("Science updates".to_string()),
            "https://example.com/science".to_string(),
            "Science Source".to_string(),
            NewsCategory::Science,
            None,
            None,
        )],
        at(1_700_000_000),
    );
    cache
}

fn get_news(category: Option<&str>, limit: Option<u32>, format: Option<&str>) -> GetNewsTool {
    GetNewsTool {
        category: category.map(|s| s.to_string()),
        limit,
        format: format.map(|s| s.to_string()),
    }
}

fn search(query: &str, category: Option<&str>, limit: Option<u32>, format: Option<&str>) -> SearchNewsTool {
    SearchNewsTool {
        query: query.to_string(),
        category: category.map(|s| s.to_string()),
        limit,
        format: format.map(|s| s.to_string()),
    }
}

#[test]
fn registry_names_and_lookup() {
    let names = default_tool_names();
    assert_eq!(names, vec!["get_news", "search_news", "get_categories", "health_check", "refresh_news"]);
    for n in names {
        assert_eq!(ToolKind::from_name(n).unwrap().name(), n);
    }
    assert!(ToolKind::from_name("invalid_tool").is_none());
}

#[test]
fn get_news_defaults_to_technology_markdown() {
    let out = text(get_news(None, None, None).execute(&test_cache()));
    assert!(out.starts_with("# News Articles\n\n## Technology News\n"));
}

#[test]
fn get_news_category_and_text_format() {
    let out = text(get_news(Some("science"), Some(1), Some("text")).execute(&test_cache()));
    assert_eq!(out, "1. Science News\n   Science updates\n   Source: Science Source | Link: https://example.com/science\n\n");
}

#[test]
fn get_news_json_gives_the_articles() {
    match get_news(Some("TECH"), None, Some("JSON")).execute(&test_cache()).unwrap() {
        ToolOutput::Json(v) => {
            assert_eq!(v.len(), 1);
            assert_eq!(v[0].title, "Technology News");
        }
        ToolOutput::Text(_) => panic!("expected articles"),
    }
}

#[test]
fn get_news_errors() {
    let err = get_news(Some("invalid_category"), None, None).execute(&test_cache()).unwrap_err();
    assert!(err.message.starts_with("Invalid category: [INVALID_CATEGORY] 'invalid_category' is not a valid category."));
    let err = get_news(None, None, Some("invalid_format")).execute(&test_cache()).unwrap_err();
    assert_eq!(err.message, "Invalid format: invalid_format");
}

#[test]
fn get_news_empty_category() {
    let out = text(get_news(Some("politics"), None, None).execute(&NewsCache::new(100)));
    assert_eq!(out, "No articles found.");
}

#[test]
fn limits_are_clamped() {
    let mut cache = NewsCache::new(100);
    let arts: Vec<NewsArticle> = (0..60)
        .map(|i| NewsArticle::new(format!("Technology Article {}", i), None, format!("https://e/{}", i), "S".to_string(), NewsCategory::Technology, None, None))
        .collect();
    cache.set_category_news_at(NewsCategory::Technology, arts, at(0));
    let count = |l: Option<u32>| match get_news(None, l, Some("json")).execute(&cache).unwrap() {
        ToolOutput::Json(v) => v.len(),
        ToolOutput::Text(_) => panic!(),
    };
    assert_eq!(count(None), 10);
    assert_eq!(count(Some(0)), 1);
    assert_eq!(count(Some(5)), 5);
    assert_eq!(count(Some(100)), 50);
    let found = text(search("technology article", None, Some(5), Some("text")).execute(&cache));
    assert_eq!(found.matches("Technology Article").count(), 5);
}

#[test]
fn search_is_case_insensitive_and_filters_by_category() {
    let cache = test_cache();
    assert!(text(search("TECHNOLOGY", None, None, None).execute(&cache)).contains("Technology News"));
    let out = text(search("News", Some("science"), None, Some("text")).execute(&cache));
    assert!(out.contains("Science News"));
    assert!(!out.contains("Technology News"));
    assert_eq!(text(search("nonexistent_keyword_xyz123", None, None, None).execute(&cache)), "No articles found.");
    assert!(search("test", Some("invalid"), None, None).execute(&cache).is_err());
}

#[test]
fn categories_listing() {
    let out = text(GetCategoriesTool {}.execute(&test_cache()));
    assert!(out.starts_with("# Available News Categories\n\n- **Technology** (1 articles)\n"));
    assert!(out.contains("- **Hacker News** (0 articles)\n"));
    assert!(out.contains("即时新闻"));
}

#[test]
fn health_report() {
    let cache = test_cache();
    let out = text(HealthCheckTool { check_type: None, verbose: None }.execute(&cache));
    assert!(out.starts_with("# Health Check Report\n\n## Server Status\n\n- **Status**: Healthy\n- **Version**: 0.1.0\n\n## Cache Statistics\n\n- **Total Articles**: 2\n- **Categories**:\n  - Technology: 1 articles\n  - Science: 1 articles\n"));
    assert!(!out.contains("Last Update"));
    let verbose = text(HealthCheckTool { check_type: Some("internal".to_string()), verbose: Some(true) }.execute(&cache));
    assert!(verbose.contains("## Last Update Times\n\n- Technology: 2023-11-14 22:13 UTC\n- Science: 2023-11-14 22:13 UTC\n"));
    assert!(verbose.contains("  - Hacker News: 0 articles\n"));
    let empty = text(HealthCheckTool { check_type: None, verbose: None }.execute(&NewsCache::new(100)));
    assert!(empty.contains("- **Total Articles**: 0\n"));
}

#[test]
fn refresh_plans() {
    let cache = test_cache();
    let plan = RefreshNewsTool { category: Some("science".to_string()) }.execute(&cache).unwrap();
    assert_eq!(plan.target, RefreshTarget::Category(NewsCategory::Science));
    assert_eq!(
        plan.text,
        "# Refresh News Status\n\nCategory: Science\n\nCurrent cached articles: 1\n\nStatus: Refresh triggered in background\nNote: New data will be available on next request\n"
    );
    let all = RefreshNewsTool { category: None }.execute(&cache).unwrap();
    assert_eq!(all.target, RefreshTarget::All);
    assert!(all.text.contains("All categories\n\n"));
    assert!(RefreshNewsTool { category: Some("invalid_category".to_string()) }.execute(&cache).is_err());
}

#[test]
fn format_names() {
    assert_eq!(ArticleFormat::parse("Markdown"), Some(ArticleFormat::Markdown));
    assert_eq!(ArticleFormat::parse("json"), Some(ArticleFormat::Json));
    assert_eq!(ArticleFormat::parse("TEXT"), Some(ArticleFormat::Text));
    assert_eq!(ArticleFormat::parse("xml"), None);
}

#[test]
fn refresh_results_are_stored_even_when_empty() {
    let mut cache = test_cache();
    let total = apply_refresh_results(&mut cache, vec![(NewsCategory::Technology, vec![]), (NewsCategory::Law, vec![])], at(42));
    assert_eq!(total, 0);
    assert!(cache.get_category_news(&NewsCategory::Technology).unwrap().is_empty());
    assert_eq!(cache.get_last_updated(&NewsCategory::Technology).unwrap(), Some(at(42)));
    assert_eq!(cache.get_last_updated(&NewsCategory::Law).unwrap(), Some(at(42)));
    assert_eq!(cache.get_category_news(&NewsCategory::Science).unwrap().len(), 1);
}

fn at(secs: i64) -> news_mcp::time::Timestamp {
    news_mcp::time::Timestamp { secs, nanos: 0 }
}
