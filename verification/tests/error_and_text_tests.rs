use news_mcp::time::timestamp_in_range;
use news_mcp::error::{Error, ErrorCode};
use news_mcp::text::{decimal_string, normalize_whitespace, word_count};

#[test]
fn error_messages() {
    assert_eq!(Error::config("port", "bad").to_string(), "[CONFIG_ERROR] port: bad");
    assert_eq!(Error::cache("full").to_string(), "[CACHE_ERROR] cache: full");
    assert_eq!(Error::tool("get_news", "oops").to_string(), "[TOOL_ERROR] Tool 'get_news': oops");
    assert_eq!(Error::rss("broken").to_string(), "[RSS_PARSE_ERROR] broken");
    assert_eq!(
        Error::timeout("fetch", 30).to_string(),
        "[TIMEOUT_ERROR] Operation 'fetch' timed out after 30 seconds"
    );
    assert_eq!(
        Error::rate_limit("hn", 5).to_string(),
        "[RATE_LIMIT_ERROR] Rate limit exceeded for hn. Retry after 5 seconds"
    );
}

#[test]
fn error_codes() {
    assert_eq!(Error::config("a", "b").code(), ErrorCode::Config);
    assert_eq!(Error::rss_with_url("m", "https://u").code(), ErrorCode::RssParse);
    assert_eq!(Error::invalid_category("x").code(), ErrorCode::InvalidCategory);
    assert_eq!(Error::mcp("ctx", "m").code(), ErrorCode::Mcp);
    assert_eq!(Error::tool_msg("m").code(), ErrorCode::Tool);
    assert_eq!(ErrorCode::Network.to_string(), "NETWORK_ERROR");
}

#[test]
fn text_helpers() {
    assert_eq!(decimal_string(0), "0");
    assert_eq!(decimal_string(18446744073709551615), "18446744073709551615");
    assert_eq!(normalize_whitespace("  a \t b\n\nc  "), "a b c");
    assert_eq!(normalize_whitespace("   "), "");
    assert_eq!(word_count("one two  three"), 3);
}

#[test]
fn timestamp_range_matches_chrono() {
    for secs in [0i64, 1_700_000_000, -8_334_601_228_800, -8_334_601_228_801, 8_210_266_876_799, 8_210_266_876_800, i64::MIN, i64::MAX] {
        assert_eq!(timestamp_in_range(secs), chrono::DateTime::from_timestamp(secs, 0).is_some(), "{}", secs);
    }
}
