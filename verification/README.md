# news_mcp

An MCP (Model Context Protocol) news server: it polls RSS feeds and Hacker
News in the background, keeps the articles in an in-memory cache by category,
and answers the tools `get_news`, `search_news`, `get_categories`,
`health_check` and `refresh_news` over stdio, HTTP, SSE or both.

## Layout

- `src/` is the library, written in Verus. Its functions carry contracts
  that Verus proves, except six small trusted wrappers around outside code,
  each documented where it stands: `str::to_lowercase` and `String::push`
  (`text`), the clock and date formatting of `chrono` (`time`), the feed
  parser of `feed-rs` (`service::news_service`) and the HTML selection of
  `scraper` (`service::article_fetcher`). The modules:
  - `cache/`: the news cache (articles and update time per category, with a
    per-category limit) and the article-content cache (by URL, evicting the
    earliest fetched entry when full); the laws of reading after a write, of
    a history of writes, of searching, of counting (the per-category counts
    add up to the total), and of category names parsing back.
  - `service/`: feeds parsed with `feed-rs` into articles, Hacker News items
    into articles, cleaning of item text, sorting newest first, and the main
    text of an article page read with `scraper`. `feed_text` states on which
    feed texts the parser cannot panic (an encoding switch that `quick-xml`
    refuses, an author's address next to a multi-byte character, an overlong
    or non-ASCII duration in the Media RSS or iTunes namespace); `parse_feed`
    is verified on those texts, and `app/fetch.rs` parses any other text
    unverified before the library makes the articles.
  - `tools/`: each tool's reply, computed from its parameters and the cache.
  - `poller/`: the decisions of the poll loop, what a poll cycle stores, and
    the laws of a run of poller steps.
  - `config/`, `cli/`, `error/`, `utils/`, `text/`, `time/`: configuration
    defaults, command options, error messages, output formats, string
    helpers, and the clock and calendar from `chrono`.
- `app/` is the program around the library: command-line parsing with clap,
  the TOML configuration file, HTTP fetching with reqwest, the poll loop on
  tokio, and the MCP transports of rust-mcp-sdk.
- `tests/` runs the library on concrete inputs.
