use news_mcp::cache::{NewsArticle, NewsCategory};
use news_mcp::error::Error;
use news_mcp::time::Timestamp;
use news_mcp::service::hn_service::{item_url, story_ids_to_fetch, story_ids_url, HnFeed};
use news_mcp::service::news_service::{articles_from_feed, entry_to_article, feed_is_safe_to_parse};
use news_mcp::service::{
    item_to_article, merge_feed_results, parse_feed, sort_newest_first, stories_from_items,
    FeedEntry, HnItem, ParsedFeed,
};

fn item(id: u64, title: &str, item_type: &str, time: i64) -> HnItem {
    HnItem {
        id,
        title: title.to_string(),
        text: String::new(),
        url: String::new(),
        by: String::new(),
        time,
        score: 1,
        item_type: item_type.to_string(),
    }
}

fn at(secs: i64) -> Option<Timestamp> {
    Some(Timestamp { secs, nanos: 0 })
}

fn dated(title: &str, published_at: Option<i64>) -> NewsArticle {
    let published_at = published_at.and_then(at);
    NewsArticle::new(
        title.to_string(),
        None,
        format!("https://x/{}", title),
        "S".to_string(),
        NewsCategory::Science,
        published_at,
        None,
    )
}

#[test]
fn story_becomes_an_article() {
    let mut it = item(42, "Show HN: &quot;Thing&quot;", "story", 1_700_000_000);
    it.text = "<p>Some&nbsp;text</p>".to_string();
    it.by = "pg".to_string();
    let a = item_to_article(&it).unwrap();
    assert_eq!(a.title, "Show HN: \"Thing\"");
    assert_eq!(a.description, Some("Some text".to_string()));
    assert_eq!(a.link, "https://news.ycombinator.com/item?id=42");
    assert_eq!(a.source, "Hacker News");
    assert_eq!(a.category, NewsCategory::HackerNews);
    assert_eq!(a.published_at, at(1_700_000_000));
    assert_eq!(a.author, Some("pg".to_string()));
}

#[test]
fn story_with_url_links_to_it() {
    let mut it = item(1, "T", "story", 0);
    it.url = "https://example.com/post".to_string();
    let a = item_to_article(&it).unwrap();
    assert_eq!(a.link, "https://example.com/post");
    assert_eq!(a.description, None);
    assert_eq!(a.author, None);
}

#[test]
fn non_stories_and_untitled_items_are_skipped() {
    assert!(item_to_article(&item(1, "A job", "job", 0)).is_none());
    assert!(item_to_article(&item(2, "", "story", 0)).is_none());
    assert!(item_to_article(&item(3, "A comment", "comment", 0)).is_none());
}

#[test]
fn stories_come_newest_first() {
    let items = vec![
        item(1, "old", "story", 100),
        item(2, "job", "job", 500),
        item(3, "new", "story", 300),
        item(4, "mid", "story", 200),
    ];
    let arts = stories_from_items(items);
    let titles: Vec<&str> = arts.iter().map(|a| a.title.as_str()).collect();
    assert_eq!(titles, vec!["new", "mid", "old"]);
}

#[test]
fn sort_is_newest_first_stable_with_undated_last() {
    let arts = vec![
        dated("a", None),
        dated("b", Some(10)),
        dated("c", Some(30)),
        dated("d", Some(10)),
        dated("e", None),
    ];
    let sorted = sort_newest_first(arts);
    let titles: Vec<&str> = sorted.iter().map(|a| a.title.as_str()).collect();
    assert_eq!(titles, vec!["c", "b", "d", "a", "e"]);
}

#[test]
fn failed_feeds_are_skipped_when_merging() {
    let results = vec![
        Ok(vec![dated("x", Some(1))]),
        Err(Error::rss("down")),
        Ok(vec![dated("y", Some(2)), dated("z", None)]),
    ];
    let merged = merge_feed_results(results);
    let titles: Vec<&str> = merged.iter().map(|a| a.title.as_str()).collect();
    assert_eq!(titles, vec!["y", "x", "z"]);
}

#[test]
fn entries_without_link_are_skipped() {
    let feed = ParsedFeed {
        title: Some("Feed".to_string()),
        entries: vec![
            FeedEntry::new(Some("A".to_string()), Some("sum".to_string()), None, Some("https://a".to_string()), None, Some((5, 0)), Some("Al".to_string())),
            FeedEntry::new(Some("B".to_string()), None, None, None, Some((1, 0)), None, None),
            FeedEntry::new(None, None, Some(None), Some("https://c".to_string()), Some((7, 500)), Some((9, 0)), None),
        ],
    };
    let arts = articles_from_feed(&feed, NewsCategory::Science);
    assert_eq!(arts.len(), 2);
    assert_eq!(arts[0].title, "A");
    assert_eq!(arts[0].description, Some("sum".to_string()));
    assert_eq!(arts[0].source, "Feed");
    assert_eq!(arts[0].published_at, at(5));
    assert_eq!(arts[0].author, Some("Al".to_string()));
    assert_eq!(arts[1].title, "Untitled");
    assert_eq!(arts[1].description, Some(String::new()));
    assert_eq!(arts[1].published_at, Some(Timestamp { secs: 7, nanos: 500 }));
    let untitled_feed = entry_to_article(&feed.entries[0], &None, NewsCategory::Law).unwrap();
    assert_eq!(untitled_feed.source, "Unknown Source");
    assert_eq!(untitled_feed.category, NewsCategory::Law);
}

#[test]
fn rss_text_parses_into_articles() {
    let rss = r#"<?xml version="1.0" encoding="UTF-8"?>
<rss version="2.0"><channel><title>Example Feed</title><link>https://example.com</link><description>d</description>
<item><title>First</title><link>https://example.com/1</link><description>One</description><pubDate>Tue, 14 Nov 2023 22:13:20 GMT</pubDate></item>
<item><title>No link</title><description>Two</description></item>
</channel></rss>"#;
    let arts = parse_feed(rss, NewsCategory::Technology).unwrap();
    assert_eq!(arts.len(), 1);
    assert_eq!(arts[0].title, "First");
    assert_eq!(arts[0].link, "https://example.com/1");
    assert_eq!(arts[0].description, Some("One".to_string()));
    assert_eq!(arts[0].source, "Example Feed");
    assert_eq!(arts[0].published_at, at(1_700_000_000));
    assert_eq!(arts[0].category, NewsCategory::Technology);
}

#[test]
fn unparsable_feed_is_an_rss_error() {
    let err = parse_feed("this is not a feed", NewsCategory::Technology).unwrap_err();
    assert!(err.to_string().starts_with("[RSS_PARSE_ERROR] Failed to parse feed: "));
}

#[test]
fn hn_urls_and_ids() {
    assert_eq!(story_ids_url(HnFeed::Top), "https://hacker-news.firebaseio.com/v0/topstories.json");
    assert_eq!(story_ids_url(HnFeed::Show), "https://hacker-news.firebaseio.com/v0/showstories.json");
    assert_eq!(item_url(8863), "https://hacker-news.firebaseio.com/v0/item/8863.json");
    assert_eq!(story_ids_to_fetch(&vec![5, 6, 7], 2), vec![5, 6]);
    assert_eq!(story_ids_to_fetch(&vec![5, 6, 7], 30), vec![5, 6, 7]);
}

#[test]
fn articles_of_the_same_second_order_by_nanoseconds() {
    let mut early = dated("early", None);
    early.published_at = Some(Timestamp { secs: 10, nanos: 5 });
    let mut late = dated("late", None);
    late.published_at = Some(Timestamp { secs: 10, nanos: 900_000_000 });
    let sorted = sort_newest_first(vec![early, late]);
    assert_eq!(sorted[0].title, "late");
    assert_eq!(sorted[1].title, "early");
}

#[test]
fn atom_times_keep_their_fraction() {
    let atom = r#"<?xml version="1.0" encoding="utf-8"?>
<feed xmlns="http://www.w3.org/2005/Atom"><title>Atom Feed</title><id>urn:x</id><updated>2023-11-14T22:13:20.5Z</updated>
<entry><title>One</title><id>urn:1</id><link href="https://example.com/one"/><updated>2023-11-14T22:13:20.5Z</updated><author><name>Ann</name></author></entry>
</feed>"#;
    assert!(feed_is_safe_to_parse(atom));
    let arts = parse_feed(atom, NewsCategory::Science).unwrap();
    assert_eq!(arts.len(), 1);
    assert_eq!(arts[0].published_at, Some(Timestamp { secs: 1_700_000_000, nanos: 500_000_000 }));
    assert_eq!(arts[0].author, Some("Ann".to_string()));
    assert_eq!(arts[0].source, "Atom Feed");
}

#[test]
fn feeds_the_parser_reads_to_the_end_are_parsed_here() {
    let itunes = "<rss version=\"2.0\" xmlns:itunes=\"http://www.itunes.com/dtds/podcast-1.0.dtd\">";
    let media = "<rss version=\"2.0\" xmlns:media=\"http://search.yahoo.com/mrss/\">";
    assert!(feed_is_safe_to_parse("<rss version=\"2.0\"><channel><title>t</title></channel></rss>"));
    assert!(feed_is_safe_to_parse(&format!("{}<channel><item><itunes:duration>01:02:03</itunes:duration></item></channel></rss>", itunes)));
    assert!(feed_is_safe_to_parse(&format!("{}<channel><title>新闻 2024</title><item><media:thumbnail time=\"12.5\"/></item></channel></rss>", media)));
    assert!(!feed_is_safe_to_parse(&format!("{}<channel><item><itunes:duration>1234567890123456:00:00</itunes:duration></item></channel></rss>", itunes)));
    assert!(!feed_is_safe_to_parse(&format!("{}<channel><item><itunes:duration>&#49;2</itunes:duration></item></channel></rss>", itunes)));
    assert!(!feed_is_safe_to_parse(&format!("{}<channel><item><media:thumbnail time=\"１２\"/></item></channel></rss>", media)));
    assert!(!feed_is_safe_to_parse(&format!("{}<channel><item><itunes:duration>12<!-- x -->34</itunes:duration></item></channel></rss>", itunes)));
    assert!(!feed_is_safe_to_parse(&format!("{}<channel><item><itunes:duration><![CDATA[12]]></itunes:duration></item></channel></rss>", itunes)));
    assert!(feed_is_safe_to_parse("<?xml version=\"1.0\" encoding=\"UTF-8\"?><rss version=\"2.0\"></rss>"));
    assert!(!feed_is_safe_to_parse("<?xml version=\"1.0\" encoding=\"ISO-8859-1\"?><rss version=\"2.0\"></rss>"));
    assert!(!feed_is_safe_to_parse("<rss version=\"2.0\"><channel></channel></rss><?xml version=\"1.0\" encoding=\"gbk\"?>"));
    assert!(!feed_is_safe_to_parse("\u{0}<\u{0}?\u{0}x"));
    assert!(!feed_is_safe_to_parse("<!DOCTYPE rss><rss version=\"2.0\"></rss>"));
    assert!(feed_is_safe_to_parse("<rss version=\"2.0\"><channel><item><author>john@example.com (John)</author></item></channel></rss>"));
    assert!(!feed_is_safe_to_parse("<rss version=\"2.0\"><channel><item><author>张三（zhang@example.com）</author></item></channel></rss>"));
    assert!(!feed_is_safe_to_parse("<rss version=\"2.0\"><channel><item><author>zhang&#64;example.com</author></item></channel></rss>"));
}

#[test]
fn podcast_feed_parses_into_articles() {
    let feed = "<?xml version=\"1.0\" encoding=\"UTF-8\"?>\n<rss version=\"2.0\" xmlns:itunes=\"http://www.itunes.com/dtds/podcast-1.0.dtd\"><channel><title>Pod</title>\n<item><title>Episode 1</title><link>https://example.com/e1</link><itunes:duration>01:02:03</itunes:duration><author>host@example.com (Host)</author></item>\n<item><title>No link</title></item>\n</channel></rss>";
    assert!(feed_is_safe_to_parse(feed));
    let arts = parse_feed(feed, NewsCategory::Technology).unwrap();
    assert_eq!(arts.len(), 1);
    assert_eq!(arts[0].title, "Episode 1");
    assert_eq!(arts[0].link, "https://example.com/e1");
    assert_eq!(arts[0].source, "Pod");
}

#[test]
fn clean_text_decodes_entities_once() {
    assert_eq!(news_mcp::service::clean_text("&amp;lt;b&amp;gt;"), "&lt;b&gt;");
    let out = news_mcp::service::clean_text("  <p>a  <b>b</b></p>\n\n  c >  d  \n");
    assert_eq!(out, "a b c d");
    assert!(!out.contains('<') && !out.contains('>') && !out.contains('\n') && !out.contains("  "));
    assert_eq!(out, out.trim());
}
