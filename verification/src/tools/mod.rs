//! The MCP tools' logic: from tool parameters and the cache to the tool's reply.

pub mod get_categories;
pub mod get_news;
pub mod health_check;
pub mod refresh_news;
pub mod search_news;

use vstd::prelude::*;

use crate::cache::news_cache::NewsArticle;
use crate::error::{bracketed, listed_categories_text, ErrorCode};
use crate::text::{
    all_simple, ascii_lowercase, chars_of, eq_lit, lowercase, push_str, string_of, to_lowercase,
};
use crate::utils::{format_articles_as_markdown, format_articles_as_text, markdown_of, text_of};

pub use get_categories::GetCategoriesTool;
pub use get_news::GetNewsTool;
pub use health_check::HealthCheckTool;
pub use refresh_news::{RefreshNewsTool, RefreshTarget};
pub use search_news::SearchNewsTool;

verus! {

/// The names of the tools, in the order they are registered.
pub open spec fn tool_names() -> Seq<Seq<char>> {
    seq!["get_news"@, "search_news"@, "get_categories"@, "health_check"@, "refresh_news"@]
}

/// The names of the tools, in the order they are registered.
pub fn default_tool_names() -> (r: Vec<&'static str>)
    ensures
        r@.map_values(|s: &str| s@) == tool_names(),
{
    let r = vec!["get_news", "search_news", "get_categories", "health_check", "refresh_news"];
    assert(r@.map_values(|s: &str| s@) =~= tool_names());
    r
}

/// The tools the server offers.
#[derive(Debug, Clone, Copy, PartialEq, Eq, Structural)]
pub enum ToolKind {
    /// Get the latest news of a category
    GetNews,
    /// Search cached news
    SearchNews,
    /// List the categories
    GetCategories,
    /// Report the health of the server
    HealthCheck,
    /// Refresh the news of a category, or of all
    RefreshNews,
}

/// The name under which a tool is called.
pub open spec fn tool_name_of(k: ToolKind) -> Seq<char> {
    match k {
        ToolKind::GetNews => "get_news"@,
        ToolKind::SearchNews => "search_news"@,
        ToolKind::GetCategories => "get_categories"@,
        ToolKind::HealthCheck => "health_check"@,
        ToolKind::RefreshNews => "refresh_news"@,
    }
}

/// The tool called by the name `n`, if any.
pub open spec fn tool_for_name(n: Seq<char>) -> Option<ToolKind> {
    if n == "get_news"@ {
        Some(ToolKind::GetNews)
    } else if n == "search_news"@ {
        Some(ToolKind::SearchNews)
    } else if n == "get_categories"@ {
        Some(ToolKind::GetCategories)
    } else if n == "health_check"@ {
        Some(ToolKind::HealthCheck)
    } else if n == "refresh_news"@ {
        Some(ToolKind::RefreshNews)
    } else {
        None
    }
}

impl ToolKind {
    /// The name under which this tool is called.
    pub fn name(&self) -> (r: &'static str)
        ensures
            r@ == tool_name_of(*self),
    {
        match self {
            ToolKind::GetNews => "get_news",
            ToolKind::SearchNews => "search_news",
            ToolKind::GetCategories => "get_categories",
            ToolKind::HealthCheck => "health_check",
            ToolKind::RefreshNews => "refresh_news",
        }
    }

    /// The tool called by `name`, or `None` for an unknown tool.
    pub fn from_name(name: &str) -> (r: Option<ToolKind>)
        ensures
            r == tool_for_name(name@),
    {
        let k = chars_of(name);
        if eq_lit(&k, "get_news") {
            Some(ToolKind::GetNews)
        } else if eq_lit(&k, "search_news") {
            Some(ToolKind::SearchNews)
        } else if eq_lit(&k, "get_categories") {
            Some(ToolKind::GetCategories)
        } else if eq_lit(&k, "health_check") {
            Some(ToolKind::HealthCheck)
        } else if eq_lit(&k, "refresh_news") {
            Some(ToolKind::RefreshNews)
        } else {
            None
        }
    }
}

/// Every registered tool name calls a tool of that name, and every tool is
/// registered: looking a tool up by its own name finds it.
pub proof fn law_tool_registry_consistent(k: ToolKind)
    ensures
        tool_for_name(tool_name_of(k)) == Some(k),
        tool_names().contains(tool_name_of(k)),
        forall|i: int| 0 <= i < tool_names().len() ==> #[trigger] tool_for_name(tool_names()[i]) is Some,
{
    reveal_strlit("get_news");
    reveal_strlit("search_news");
    reveal_strlit("get_categories");
    reveal_strlit("health_check");
    reveal_strlit("refresh_news");
    let ghost names = tool_names();
    assert(names[0] == "get_news"@);
    assert(names[1] == "search_news"@);
    assert(names[2] == "get_categories"@);
    assert(names[3] == "health_check"@);
    assert(names[4] == "refresh_news"@);
    match k {
        ToolKind::GetNews => {
            assert(names[0] == tool_name_of(k));
            assert(tool_for_name(tool_name_of(k)) == Some(ToolKind::GetNews));
        },
        ToolKind::SearchNews => {
            assert(names[1] == tool_name_of(k));
            assert(tool_for_name(tool_name_of(k)) == Some(ToolKind::SearchNews));
        },
        ToolKind::GetCategories => {
            assert(names[2] == tool_name_of(k));
            assert(tool_for_name(tool_name_of(k)) == Some(ToolKind::GetCategories));
        },
        ToolKind::HealthCheck => {
            assert(names[3] == tool_name_of(k));
            assert(tool_for_name(tool_name_of(k)) == Some(ToolKind::HealthCheck));
        },
        ToolKind::RefreshNews => {
            assert(names[4] == tool_name_of(k));
            assert("refresh_news"@[0] != "health_check"@[0]);
            assert(tool_for_name(tool_name_of(k)) == Some(ToolKind::RefreshNews));
        },
    }
}

/// An error a tool reports to the client.
#[derive(Debug, Clone)]
pub struct ToolError {
    /// The error message
    pub message: String,
}

/// What a tool replies: text, or articles to be written out as JSON.
#[derive(Debug, Clone)]
pub enum ToolOutput {
    /// Text content
    Text(String),
    /// Articles, to be rendered as pretty-printed JSON
    Json(Vec<NewsArticle>),
}

/// The output formats of article lists.
#[derive(Debug, Clone, Copy, PartialEq, Eq, Structural)]
pub enum ArticleFormat {
    /// Markdown
    Markdown,
    /// JSON
    Json,
    /// Plain text
    Text,
}

/// The format named by a lowercase name, if any.
pub open spec fn format_for_key(k: Seq<char>) -> Option<ArticleFormat> {
    if k == "markdown"@ {
        Some(ArticleFormat::Markdown)
    } else if k == "json"@ {
        Some(ArticleFormat::Json)
    } else if k == "text"@ {
        Some(ArticleFormat::Text)
    } else {
        None
    }
}

/// The number of articles a tool returns for a requested limit: 10 by
/// default, and at least 1 and at most 50.
pub open spec fn effective_limit(limit: Option<u32>) -> nat {
    let l = match limit {
        Some(l) => l as nat,
        None => 10,
    };
    if l < 1 {
        1
    } else if l > 50 {
        50
    } else {
        l
    }
}

/// The first `n` articles of `s` (all of them when there are fewer).
pub open spec fn first_n(s: Seq<NewsArticle>, n: nat) -> Seq<NewsArticle> {
    if s.len() <= n {
        s
    } else {
        s.take(n as int)
    }
}

/// A tool returns 10 articles when no limit is asked for, the limit asked
/// for when it lies in 1..=50, and never fewer than 1 or more than 50.
pub proof fn law_limit_is_clamped(limit: Option<u32>)
    ensures
        1 <= effective_limit(limit) <= 50,
        limit is None ==> effective_limit(limit) == 10,
        limit matches Some(l) ==> (1 <= l <= 50 ==> effective_limit(limit) == l),
        limit matches Some(l) ==> (l == 0 ==> effective_limit(limit) == 1),
        limit matches Some(l) ==> (l > 50 ==> effective_limit(limit) == 50),
{
}

/// The first `n` articles are a prefix of the list, of length `n` or the
/// whole list when it is shorter.
pub proof fn law_first_n_is_a_prefix(s: Seq<NewsArticle>, n: nat)
    ensures
        first_n(s, n).len() == if s.len() <= n { s.len() } else { n },
        forall|i: int| 0 <= i < first_n(s, n).len() ==> #[trigger] first_n(s, n)[i] == s[i],
{
}

/// The text of an optional parameter, or its default.
pub open spec fn text_or_default(p: Option<String>, default: Seq<char>) -> Seq<char> {
    match p {
        Some(s) => s@,
        None => default,
    }
}

/// The message of an invalid-category tool error for the name `s`.
pub open spec fn invalid_category_reply(s: Seq<char>) -> Seq<char> {
    "Invalid category: "@ + bracketed(ErrorCode::InvalidCategory) + "'"@ + s
        + "' is not a valid category. Valid categories: "@ + listed_categories_text()
}

/// What listing `arts` in the format named `fmt` gives: the output, or the
/// message of the invalid-format error.
pub open spec fn render_reply(arts: Seq<NewsArticle>, fmt: Seq<char>) -> Result<ToolOutputView, Seq<char>> {
    match format_for_key(lowercase(fmt)) {
        Some(ArticleFormat::Markdown) => Ok(ToolOutputView::Text(markdown_of(arts))),
        Some(ArticleFormat::Json) => Ok(ToolOutputView::Json(arts)),
        Some(ArticleFormat::Text) => Ok(ToolOutputView::Text(text_of(arts))),
        None => Err("Invalid format: "@ + fmt),
    }
}

/// What a tool output holds.
pub ghost enum ToolOutputView {
    Text(Seq<char>),
    Json(Seq<NewsArticle>),
}

impl View for ToolOutput {
    type V = ToolOutputView;

    open spec fn view(&self) -> ToolOutputView {
        match self {
            ToolOutput::Text(s) => ToolOutputView::Text(s@),
            ToolOutput::Json(v) => ToolOutputView::Json(v@),
        }
    }
}

/// The reply of a tool as text values: the output, or the error message.
pub open spec fn reply_view(r: Result<ToolOutput, ToolError>) -> Result<ToolOutputView, Seq<char>> {
    match r {
        Ok(o) => Ok(o@),
        Err(e) => Err(e.message@),
    }
}


impl ArticleFormat {
    /// Parses a format name (`markdown`, `json` or `text`), ignoring case.
    pub fn parse(s: &str) -> (r: Option<ArticleFormat>)
        ensures
            r == format_for_key(lowercase(s@)),
            all_simple(s@) ==> r == format_for_key(ascii_lowercase(s@)),
    {
        let lower = to_lowercase(s);
        let k = chars_of(lower.as_str());
        if eq_lit(&k, "markdown") {
            Some(ArticleFormat::Markdown)
        } else if eq_lit(&k, "json") {
            Some(ArticleFormat::Json)
        } else if eq_lit(&k, "text") {
            Some(ArticleFormat::Text)
        } else {
            None
        }
    }
}

/// The requested limit, defaulted and clamped to 1..=50.
pub fn clamp_limit(limit: Option<u32>) -> (r: usize)
    ensures
        r == effective_limit(limit),
{
    let l = match limit {
        Some(l) => l,
        None => 10,
    };
    if l < 1 {
        1
    } else if l > 50 {
        50
    } else {
        l as usize
    }
}

/// Keeps the first `n` articles.
pub fn keep_first(articles: Vec<NewsArticle>, n: usize) -> (r: Vec<NewsArticle>)
    ensures
        r@ == first_n(articles@, n as nat),
{
    let mut v = articles;
    if v.len() > n {
        v.truncate(n);
    }
    v
}

/// The tool error `"Invalid category: "` followed by the error for the name `s`.
pub fn invalid_category_error(s: &str) -> (r: ToolError)
    ensures
        r.message@ == invalid_category_reply(s@),
{
    let e = crate::error::Error::invalid_category(s);
    let m = e.to_string();
    let mut v: Vec<char> = Vec::new();
    push_str(&mut v, "Invalid category: ");
    push_str(&mut v, m.as_str());
    ToolError { message: string_of(&v) }
}

/// Lists the articles in the format named `format` (ignoring case), or
/// reports an invalid format.
pub fn render_articles(articles: Vec<NewsArticle>, format: &str) -> (r: Result<ToolOutput, ToolError>)
    ensures
        reply_view(r) == render_reply(articles@, format@),
{
    match ArticleFormat::parse(format) {
        Some(ArticleFormat::Markdown) => Ok(ToolOutput::Text(format_articles_as_markdown(articles.as_slice()))),
        Some(ArticleFormat::Json) => Ok(ToolOutput::Json(articles)),
        Some(ArticleFormat::Text) => Ok(ToolOutput::Text(format_articles_as_text(articles.as_slice()))),
        None => {
            let mut v: Vec<char> = Vec::new();
            push_str(&mut v, "Invalid format: ");
            push_str(&mut v, format);
            Err(ToolError { message: string_of(&v) })
        },
    }
}

} // verus!
