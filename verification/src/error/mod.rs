//! Error values of the library, with their codes and messages.

use vstd::prelude::*;

use crate::text::{decimal, push_decimal, push_str, string_of};

verus! {

/// Error codes for categorizing errors.
#[derive(Debug, Clone, Copy, PartialEq, Eq, Structural)]
pub enum ErrorCode {
    /// Network-related errors
    Network,
    /// RSS feed parsing errors
    RssParse,
    /// Cache operation errors
    Cache,
    /// Configuration errors
    Config,
    /// MCP protocol errors
    Mcp,
    /// IO errors
    Io,
    /// JSON serialization errors
    Json,
    /// Invalid category
    InvalidCategory,
    /// Tool execution errors
    Tool,
    /// Rate limiting errors
    RateLimit,
    /// Timeout errors
    Timeout,
}

/// The text shown for an error code.
pub open spec fn code_text(c: ErrorCode) -> Seq<char> {
    match c {
        ErrorCode::Network => "NETWORK_ERROR"@,
        ErrorCode::RssParse => "RSS_PARSE_ERROR"@,
        ErrorCode::Cache => "CACHE_ERROR"@,
        ErrorCode::Config => "CONFIG_ERROR"@,
        ErrorCode::Mcp => "MCP_ERROR"@,
        ErrorCode::Io => "IO_ERROR"@,
        ErrorCode::Json => "JSON_ERROR"@,
        ErrorCode::InvalidCategory => "INVALID_CATEGORY"@,
        ErrorCode::Tool => "TOOL_ERROR"@,
        ErrorCode::RateLimit => "RATE_LIMIT_ERROR"@,
        ErrorCode::Timeout => "TIMEOUT_ERROR"@,
    }
}

impl ErrorCode {
    /// The text shown for this code, such as `NETWORK_ERROR`.
    pub fn as_str(&self) -> (r: &'static str)
        ensures
            r@ == code_text(*self),
    {
        match self {
            ErrorCode::Network => "NETWORK_ERROR",
            ErrorCode::RssParse => "RSS_PARSE_ERROR",
            ErrorCode::Cache => "CACHE_ERROR",
            ErrorCode::Config => "CONFIG_ERROR",
            ErrorCode::Mcp => "MCP_ERROR",
            ErrorCode::Io => "IO_ERROR",
            ErrorCode::Json => "JSON_ERROR",
            ErrorCode::InvalidCategory => "INVALID_CATEGORY",
            ErrorCode::Tool => "TOOL_ERROR",
            ErrorCode::RateLimit => "RATE_LIMIT_ERROR",
            ErrorCode::Timeout => "TIMEOUT_ERROR",
        }
    }

    /// The text shown for this code (what `to_string` gives for it).
    pub fn to_string(&self) -> (r: String)
        ensures
            r@ == code_text(*self),
    {
        self.as_str().to_owned()
    }
}

/// Errors of the library. The texts of errors raised by outside code
/// (HTTP, files, JSON, TOML) are carried as plain strings.
#[derive(Debug, Clone)]
pub enum Error {
    /// HTTP request failed
    Http {
        /// Error code
        code: ErrorCode,
        /// Error message
        message: String,
        /// Text of the underlying error
        source: String,
    },
    /// HTTP middleware error
    HttpMiddleware {
        /// Error code
        code: ErrorCode,
        /// Error message
        message: String,
    },
    /// RSS feed parsing failed
    RssParse {
        /// Error message
        message: String,
        /// URL that failed
        url: Option<String>,
    },
    /// Cache operation failed
    Cache {
        /// Operation that failed
        operation: String,
        /// Error message
        message: String,
    },
    /// Configuration error
    Config {
        /// Field that has the error
        field: String,
        /// Error message
        message: String,
        /// Expected value description
        expected: Option<String>,
    },
    /// MCP protocol error
    Mcp {
        /// Context where error occurred
        context: String,
        /// Error message
        message: String,
        /// Tool name if applicable
        tool_name: Option<String>,
    },
    /// IO error
    Io {
        /// Operation that failed
        operation: String,
        /// Error message
        message: String,
    },
    /// JSON serialization/deserialization error
    Json {
        /// Context of the error
        context: String,
    },
    /// TOML parsing error (deserialization)
    TomlParse {
        /// File path
        file: String,
        /// Error message
        message: String,
    },
    /// TOML serialization error
    TomlSerialize {
        /// Context
        context: String,
    },
    /// Invalid category
    InvalidCategory {
        /// The invalid category string
        category: String,
        /// List of valid categories
        valid_categories: String,
    },
    /// Tool execution error
    Tool {
        /// Tool name
        tool: String,
        /// Error message
        message: String,
        /// Error code if applicable
        tool_code: Option<String>,
    },
    /// Rate limiting error
    RateLimit {
        /// Source name
        source_name: String,
        /// Seconds until retry
        retry_after_secs: u64,
    },
    /// Timeout error
    Timeout {
        /// Operation that timed out
        operation: String,
        /// Timeout duration in seconds
        timeout_secs: u64,
    },
    /// Generic error with message
    Message(String),
}

/// The category names listed in an invalid-category error, in order.
pub open spec fn listed_categories() -> Seq<Seq<char>> {
    seq![
        "technology"@, "business"@, "science"@, "health"@, "sports"@, "entertainment"@,
        "general"@, "world"@, "hackernews"@, "instant"@, "headlines"@, "politics"@,
        "eastwest"@, "society"@, "finance"@, "life"@, "wellness"@, "greaterbayarea"@,
        "chinese"@, "video"@, "photo"@, "creative"@, "live"@, "education"@, "law"@,
        "unitedfront"@, "ethnicunity"@, "beltandroad"@, "theory"@, "asean"@,
    ]
}

/// The category names of [`listed_categories`] joined with `", "`.
pub open spec fn listed_categories_text() -> Seq<char> {
    crate::text::join(listed_categories(), ", "@)
}

/// Whether `e` is the invalid-category error for `category`.
pub open spec fn is_invalid_category_error(e: Error, category: Seq<char>) -> bool {
    e matches Error::InvalidCategory { category: c, valid_categories: v } && c@ == category
        && v@ == listed_categories_text()
}

/// The code of an error.
pub open spec fn code_of(e: Error) -> ErrorCode {
    match e {
        Error::Http { .. } => ErrorCode::Network,
        Error::HttpMiddleware { .. } => ErrorCode::Network,
        Error::RssParse { .. } => ErrorCode::RssParse,
        Error::Cache { .. } => ErrorCode::Cache,
        Error::Config { .. } => ErrorCode::Config,
        Error::Mcp { .. } => ErrorCode::Mcp,
        Error::Io { .. } => ErrorCode::Io,
        Error::Json { .. } => ErrorCode::Json,
        Error::TomlParse { .. } => ErrorCode::Config,
        Error::TomlSerialize { .. } => ErrorCode::Config,
        Error::InvalidCategory { .. } => ErrorCode::InvalidCategory,
        Error::Tool { .. } => ErrorCode::Tool,
        Error::RateLimit { .. } => ErrorCode::RateLimit,
        Error::Timeout { .. } => ErrorCode::Timeout,
        Error::Message(_) => ErrorCode::Tool,
    }
}

/// `"[" + code + "] "`.
pub open spec fn bracketed(c: ErrorCode) -> Seq<char> {
    "["@ + code_text(c) + "] "@
}

/// The message shown for an error.
pub open spec fn message_text(e: Error) -> Seq<char> {
    match e {
        Error::Http { code, message, source } => bracketed(code) + source@ + ": "@ + message@,
        Error::HttpMiddleware { code, message } => bracketed(code) + message@,
        Error::RssParse { message, .. } => bracketed(ErrorCode::RssParse) + message@,
        Error::Cache { operation, message } => bracketed(ErrorCode::Cache) + operation@ + ": "@
            + message@,
        Error::Config { field, message, .. } => bracketed(ErrorCode::Config) + field@ + ": "@
            + message@,
        Error::Mcp { context, message, .. } => bracketed(ErrorCode::Mcp) + context@ + ": "@
            + message@,
        Error::Io { operation, message } => bracketed(ErrorCode::Io) + operation@ + ": "@
            + message@,
        Error::Json { context } => bracketed(ErrorCode::Json) + context@,
        Error::TomlParse { file, message } => bracketed(ErrorCode::Config) + file@ + ": "@
            + message@,
        Error::TomlSerialize { context } => bracketed(ErrorCode::Config) + context@,
        Error::InvalidCategory { category, valid_categories } => bracketed(
            ErrorCode::InvalidCategory,
        ) + "'"@ + category@ + "' is not a valid category. Valid categories: "@
            + valid_categories@,
        Error::Tool { tool, message, .. } => bracketed(ErrorCode::Tool) + "Tool '"@ + tool@
            + "': "@ + message@,
        Error::RateLimit { source_name, retry_after_secs } => bracketed(ErrorCode::RateLimit)
            + "Rate limit exceeded for "@ + source_name@ + ". Retry after "@ + decimal(
            retry_after_secs as nat,
        ) + " seconds"@,
        Error::Timeout { operation, timeout_secs } => bracketed(ErrorCode::Timeout)
            + "Operation '"@ + operation@ + "' timed out after "@ + decimal(timeout_secs as nat)
            + " seconds"@,
        Error::Message(m) => m@,
    }
}

fn push_bracketed(out: &mut Vec<char>, c: ErrorCode)
    ensures
        final(out)@ == old(out)@ + bracketed(c),
{
    push_str(out, "[");
    push_str(out, c.as_str());
    push_str(out, "] ");
}

fn push_string(out: &mut Vec<char>, s: &String)
    ensures
        final(out)@ == old(out)@ + s@,
{
    push_str(out, s.as_str());
}

impl Error {
    /// Create a configuration error with a field name and message
    pub fn config(field: &str, message: &str) -> (r: Self)
        ensures
            r matches Error::Config { field: f, message: m, expected } && f@ == field@ && m@
                == message@ && expected is None,
    {
        Error::Config { field: field.to_owned(), message: message.to_owned(), expected: None }
    }

    /// Create a cache error with a message
    pub fn cache(message: &str) -> (r: Self)
        ensures
            r matches Error::Cache { operation: o, message: m } && o@ == "cache"@ && m@
                == message@,
    {
        Error::Cache { operation: "cache".to_owned(), message: message.to_owned() }
    }

    /// Create an MCP error with context and message
    pub fn mcp(context: &str, message: &str) -> (r: Self)
        ensures
            r matches Error::Mcp { context: c, message: m, tool_name } && c@ == context@ && m@
                == message@ && tool_name is None,
    {
        Error::Mcp { context: context.to_owned(), message: message.to_owned(), tool_name: None }
    }

    /// Create a tool execution error with tool name and message
    pub fn tool(tool: &str, message: &str) -> (r: Self)
        ensures
            r matches Error::Tool { tool: t, message: m, tool_code } && t@ == tool@ && m@
                == message@ && tool_code is None,
    {
        Error::Tool { tool: tool.to_owned(), message: message.to_owned(), tool_code: None }
    }

    /// Create a tool execution error with only a message (tool name defaults to "unknown")
    pub fn tool_msg(message: &str) -> (r: Self)
        ensures
            r matches Error::Tool { tool: t, message: m, tool_code } && t@ == "unknown"@ && m@
                == message@ && tool_code is None,
    {
        Error::Tool { tool: "unknown".to_owned(), message: message.to_owned(), tool_code: None }
    }

    /// Create an RSS parsing error with a message
    pub fn rss(message: &str) -> (r: Self)
        ensures
            r matches Error::RssParse { message: m, url } && m@ == message@ && url is None,
    {
        Error::RssParse { message: message.to_owned(), url: None }
    }

    /// Create an RSS parsing error with URL context
    pub fn rss_with_url(message: &str, url: &str) -> (r: Self)
        ensures
            r matches Error::RssParse { message: m, url: Some(u) } && m@ == message@ && u@
                == url@,
    {
        Error::RssParse { message: message.to_owned(), url: Some(url.to_owned()) }
    }

    /// Create an invalid category error
    pub fn invalid_category(category: &str) -> (r: Self)
        ensures
            is_invalid_category_error(r, category@),
    {
        let valid: Vec<&str> = vec![
            "technology", "business", "science", "health", "sports", "entertainment",
            "general", "world", "hackernews", "instant", "headlines", "politics",
            "eastwest", "society", "finance", "life", "wellness", "greaterbayarea",
            "chinese", "video", "photo", "creative", "live", "education", "law",
            "unitedfront", "ethnicunity", "beltandroad", "theory", "asean",
        ];
        let ghost names = valid@.map_values(|s: &str| s@);
        assert(names =~= listed_categories());
        let mut out: Vec<char> = Vec::new();
        let mut i: usize = 0;
        while i < valid.len()
            invariant
                i <= valid.len(),
                names == valid@.map_values(|s: &str| s@),
                out@ == crate::text::join(names.take(i as int), ", "@),
            decreases valid.len() - i,
        {
            assert(names.take(i + 1).drop_last() == names.take(i as int));
            assert(names.take(i + 1).last() == valid@[i as int]@);
            if i > 0 {
                push_str(&mut out, ", ");
            } else {
                assert(out@ == Seq::<char>::empty());
            }
            push_str(&mut out, valid[i]);
            i = i + 1;
        }
        assert(names.take(valid.len() as int) == names);
        Error::InvalidCategory { category: category.to_owned(), valid_categories: string_of(&out) }
    }

    /// Create a timeout error
    pub fn timeout(operation: &str, timeout_secs: u64) -> (r: Self)
        ensures
            r matches Error::Timeout { operation: o, timeout_secs: t } && o@ == operation@ && t
                == timeout_secs,
    {
        Error::Timeout { operation: operation.to_owned(), timeout_secs }
    }

    /// Create a rate limit error
    pub fn rate_limit(source_name: &str, retry_after_secs: u64) -> (r: Self)
        ensures
            r matches Error::RateLimit { source_name: s, retry_after_secs: t } && s@
                == source_name@ && t == retry_after_secs,
    {
        Error::RateLimit { source_name: source_name.to_owned(), retry_after_secs }
    }

    /// Get the error code for this error
    pub fn code(&self) -> (r: ErrorCode)
        ensures
            r == code_of(*self),
    {
        match self {
            Error::Http { .. } => ErrorCode::Network,
            Error::HttpMiddleware { .. } => ErrorCode::Network,
            Error::RssParse { .. } => ErrorCode::RssParse,
            Error::Cache { .. } => ErrorCode::Cache,
            Error::Config { .. } => ErrorCode::Config,
            Error::Mcp { .. } => ErrorCode::Mcp,
            Error::Io { .. } => ErrorCode::Io,
            Error::Json { .. } => ErrorCode::Json,
            Error::TomlParse { .. } | Error::TomlSerialize { .. } => ErrorCode::Config,
            Error::InvalidCategory { .. } => ErrorCode::InvalidCategory,
            Error::Tool { .. } => ErrorCode::Tool,
            Error::RateLimit { .. } => ErrorCode::RateLimit,
            Error::Timeout { .. } => ErrorCode::Timeout,
            Error::Message(_) => ErrorCode::Tool,
        }
    }

    /// The message shown for this error (what `to_string` gives for it).
    pub fn to_string(&self) -> (r: String)
        ensures
            r@ == message_text(*self),
    {
        let mut out: Vec<char> = Vec::new();
        match self {
            Error::Http { code, message, source } => {
                push_bracketed(&mut out, *code);
                push_string(&mut out, source);
                push_str(&mut out, ": ");
                push_string(&mut out, message);
            },
            Error::HttpMiddleware { code, message } => {
                push_bracketed(&mut out, *code);
                push_string(&mut out, message);
            },
            Error::RssParse { message, .. } => {
                push_bracketed(&mut out, ErrorCode::RssParse);
                push_string(&mut out, message);
            },
            Error::Cache { operation, message } => {
                push_bracketed(&mut out, ErrorCode::Cache);
                push_string(&mut out, operation);
                push_str(&mut out, ": ");
                push_string(&mut out, message);
            },
            Error::Config { field, message, .. } => {
                push_bracketed(&mut out, ErrorCode::Config);
                push_string(&mut out, field);
                push_str(&mut out, ": ");
                push_string(&mut out, message);
            },
            Error::Mcp { context, message, .. } => {
                push_bracketed(&mut out, ErrorCode::Mcp);
                push_string(&mut out, context);
                push_str(&mut out, ": ");
                push_string(&mut out, message);
            },
            Error::Io { operation, message } => {
                push_bracketed(&mut out, ErrorCode::Io);
                push_string(&mut out, operation);
                push_str(&mut out, ": ");
                push_string(&mut out, message);
            },
            Error::Json { context } => {
                push_bracketed(&mut out, ErrorCode::Json);
                push_string(&mut out, context);
            },
            Error::TomlParse { file, message } => {
                push_bracketed(&mut out, ErrorCode::Config);
                push_string(&mut out, file);
                push_str(&mut out, ": ");
                push_string(&mut out, message);
            },
            Error::TomlSerialize { context } => {
                push_bracketed(&mut out, ErrorCode::Config);
                push_string(&mut out, context);
            },
            Error::InvalidCategory { category, valid_categories } => {
                push_bracketed(&mut out, ErrorCode::InvalidCategory);
                push_str(&mut out, "'");
                push_string(&mut out, category);
                push_str(&mut out, "' is not a valid category. Valid categories: ");
                push_string(&mut out, valid_categories);
            },
            Error::Tool { tool, message, .. } => {
                push_bracketed(&mut out, ErrorCode::Tool);
                push_str(&mut out, "Tool '");
                push_string(&mut out, tool);
                push_str(&mut out, "': ");
                push_string(&mut out, message);
            },
            Error::RateLimit { source_name, retry_after_secs } => {
                push_bracketed(&mut out, ErrorCode::RateLimit);
                push_str(&mut out, "Rate limit exceeded for ");
                push_string(&mut out, source_name);
                push_str(&mut out, ". Retry after ");
                push_decimal(&mut out, *retry_after_secs);
                push_str(&mut out, " seconds");
            },
            Error::Timeout { operation, timeout_secs } => {
                push_bracketed(&mut out, ErrorCode::Timeout);
                push_str(&mut out, "Operation '");
                push_string(&mut out, operation);
                push_str(&mut out, "' timed out after ");
                push_decimal(&mut out, *timeout_secs);
                push_str(&mut out, " seconds");
            },
            Error::Message(m) => {
                push_string(&mut out, m);
            },
        }
        string_of(&out)
    }
}

} // verus!
