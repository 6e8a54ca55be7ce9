use news_mcp::cache::{NewsArticle, NewsCategory};
use news_mcp::time::Timestamp;
use news_mcp::utils::{format_articles_as_markdown, format_articles_as_text, get_feed_urls};

fn sample(published_at: Option<i64>, author: Option<&str>) -> NewsArticle {
    let published_at = published_at.map(|secs| Timestamp { secs, nanos: 0 });
    NewsArticle::new(
        "Title".to_string(),
        Some("Desc".to_string()),
        "https://example.com/a".to_string(),
        "Src".to_string(),
        NewsCategory::Technology,
        published_at,
        author.map(|a| a.to_string()),
    )
}

#[test]
fn markdown_of_no_articles() {
    assert_eq!(format_articles_as_markdown(&[]), "No articles found.");
}

#[test]
fn markdown_of_one_article() {
    let out = format_articles_as_markdown(&[sample(Some(0), Some("Ann"))]);
    assert_eq!(
        out,
        "# News Articles\n\n## Title\nDesc\n\n- **Source**: Src\n- **Link**: https://example.com/a\n- **Published**: 1970-01-01 00:00 UTC\n- **Author**: Ann\n\n---\n\n"
    );
}

#[test]
fn markdown_leaves_out_absent_fields() {
    let mut a = sample(None, None);
    a.description = None;
    let out = format_articles_as_markdown(&[a]);
    assert_eq!(
        out,
        "# News Articles\n\n## Title\n- **Source**: Src\n- **Link**: https://example.com/a\n\n---\n\n"
    );
}

#[test]
fn text_of_no_articles() {
    assert_eq!(format_articles_as_text(&[]), "No articles found.");
}

#[test]
fn text_numbers_the_articles() {
    let out = format_articles_as_text(&[sample(Some(1_700_000_000), None), sample(None, None)]);
    assert_eq!(
        out,
        "1. Title\n   Desc\n   Source: Src | Link: https://example.com/a\n   Published: 2023-11-14 22:13 UTC\n\n2. Title\n   Desc\n   Source: Src | Link: https://example.com/a\n\n"
    );
}

#[test]
fn feed_urls_by_category() {
    assert_eq!(
        get_feed_urls(&NewsCategory::Technology),
        vec![
            "https://techcrunch.com/feed/",
            "https://feeds.arstechnica.com/arstechnica/index",
            "https://www.theverge.com/rss/index.xml"
        ]
    );
    assert_eq!(get_feed_urls(&NewsCategory::Science), vec!["https://www.sciencedaily.com/rss/all.xml"]);
    assert!(get_feed_urls(&NewsCategory::HackerNews).is_empty());
    assert!(get_feed_urls(&NewsCategory::WeiboHot).is_empty());
    assert_eq!(get_feed_urls(&NewsCategory::Finance), vec!["https://www.chinanews.com.cn/rss/finance.xml"]);
}
