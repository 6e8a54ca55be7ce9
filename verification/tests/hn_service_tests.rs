use news_mcp::service::clean_text;

#[test]
fn test_clean_text_basic() {
    let input = "Hello &amp; World";
    let output = clean_text(input);
    assert_eq!(output, "Hello & World");
}

#[test]
fn test_clean_text_html_tags() {
    let input = "<p>Hello World</p>";
    let output = clean_text(input);
    assert_eq!(output, "Hello World");
}

#[test]
fn test_clean_text_whitespace() {
    let input = "Hello   World  \n\n Test";
    let output = clean_text(input);
    assert_eq!(output, "Hello World Test");
}

#[test]
fn test_clean_text_entities() {
    let input = "Test &lt;code&gt; &quot;quoted&quot; text";
    let output = clean_text(input);
    // HTML tags are removed, so <code> becomes empty
    assert_eq!(output, "Test \"quoted\" text");
}
