use news_mcp::service::article_fetcher::{extract_main_content, ArticleFetcher};

fn long_text(word: &str, n: usize) -> String {
    vec![word; n].join(" ")
}

#[test]
fn article_element_wins_when_long_enough() {
    let body = long_text("alpha", 50);
    let html = format!("<html><body><main>{}</main><article>  {}\n</article></body></html>", long_text("beta", 50), body);
    assert_eq!(extract_main_content(&html), body);
}

#[test]
fn short_article_falls_through_to_main() {
    let main = long_text("gamma", 60);
    let html = format!("<html><body><article>short</article><main><p>{}</p></main></body></html>", main);
    assert_eq!(extract_main_content(&html), main);
}

#[test]
fn content_class_is_tried() {
    let text = long_text("delta", 60);
    let html = format!("<html><body><div class=\"post-content\">{}</div></body></html>", text);
    assert_eq!(extract_main_content(&html), text);
}

#[test]
fn substantial_paragraphs_are_joined() {
    let p1 = long_text("one", 20);
    let p2 = long_text("two", 20);
    let html = format!("<html><body><p>{}</p><p>tiny</p><p>{}</p></body></html>", p1, p2);
    assert_eq!(extract_main_content(&html), format!("{}\n\n{}", p1, p2));
}

#[test]
fn nothing_substantial_gives_empty_content() {
    assert_eq!(extract_main_content("<html><body><p>tiny</p></body></html>"), "");
    let fetcher = ArticleFetcher::new(10, 3);
    assert_eq!(fetcher.max_fetch_per_category(), 3);
    assert_eq!(fetcher.timeout_secs(), 10);
    assert_eq!(fetcher.content_of_response(true, "<p>tiny</p>"), None);
    let p = long_text("word", 20);
    let page = format!("<p>{}</p>", p);
    assert_eq!(fetcher.content_of_response(false, &page), None);
    assert_eq!(fetcher.content_of_response(true, &page), Some(p.clone()));
    assert_eq!(fetcher.extract_content_from_html(&page), p);
}
