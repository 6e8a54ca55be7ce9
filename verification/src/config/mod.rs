//! Configuration structures for the news server, with their defaults.

use vstd::prelude::*;

use crate::error::Error;
use crate::text::{
    all_simple, ascii_lowercase, chars_of, eq_lit, lowercase, push_str, simple_char, string_of,
    to_lowercase,
};

verus! {

/// Server configuration
#[derive(Debug, Clone)]
pub struct ServerConfig {
    /// Server name
    pub name: String,
    /// Server version
    pub version: String,
    /// Server host
    pub host: String,
    /// Server port
    pub port: u16,
    /// Transport mode: stdio, http, sse, hybrid
    pub transport_mode: String,
}

/// The default server name, `news-mcp`.
pub fn default_server_name() -> (r: String)
    ensures
        r@ == "news-mcp"@,
{
    "news-mcp".to_owned()
}

/// The default server version, `0.1.0`.
pub fn default_server_version() -> (r: String)
    ensures
        r@ == "0.1.0"@,
{
    "0.1.0".to_owned()
}

/// The default host, `127.0.0.1`.
pub fn default_host() -> (r: String)
    ensures
        r@ == "127.0.0.1"@,
{
    "127.0.0.1".to_owned()
}

/// The default port, 8080.
pub fn default_port() -> (r: u16)
    ensures
        r == 8080,
{
    8080
}

/// The default transport mode, `stdio`.
pub fn default_transport_mode() -> (r: String)
    ensures
        r@ == "stdio"@,
{
    "stdio".to_owned()
}

impl ServerConfig {
    /// Whether this is the default server configuration.
    pub open spec fn is_default(self) -> bool {
        &&& self.name@ == "news-mcp"@
        &&& self.version@ == "0.1.0"@
        &&& self.host@ == "127.0.0.1"@
        &&& self.port == 8080
        &&& self.transport_mode@ == "stdio"@
    }
}

impl Default for ServerConfig {
    fn default() -> (r: Self)
        ensures
            r.is_default(),
    {
        ServerConfig {
            name: default_server_name(),
            version: default_server_version(),
            host: default_host(),
            port: default_port(),
            transport_mode: default_transport_mode(),
        }
    }
}

/// Poller configuration
#[derive(Debug, Clone)]
pub struct PollerConfig {
    /// Polling interval in seconds
    pub interval_secs: u64,
    /// Enable background polling
    pub enabled: bool,
}

/// The default polling interval, 3600 seconds (one hour).
pub fn default_poll_interval() -> (r: u64)
    ensures
        r == 3600,
{
    3600
}

/// Polling is enabled by default.
pub fn default_poll_enabled() -> (r: bool)
    ensures
        r,
{
    true
}

impl Default for PollerConfig {
    fn default() -> (r: Self)
        ensures
            r.interval_secs == 3600,
            r.enabled,
    {
        PollerConfig { interval_secs: default_poll_interval(), enabled: default_poll_enabled() }
    }
}

/// Cache configuration
#[derive(Debug, Clone)]
pub struct CacheConfig {
    /// Maximum articles per category
    pub max_articles_per_category: usize,
}

/// The default number of articles kept per category, 100.
pub fn default_max_articles() -> (r: usize)
    ensures
        r == 100,
{
    100
}

impl Default for CacheConfig {
    fn default() -> (r: Self)
        ensures
            r.max_articles_per_category == 100,
    {
        CacheConfig { max_articles_per_category: default_max_articles() }
    }
}

/// Logging configuration
#[derive(Debug, Clone)]
pub struct LoggingConfig {
    /// Log level
    pub level: String,
    /// Enable console logging
    pub enable_console: bool,
}

/// The default log level, `info`.
pub fn default_log_level() -> (r: String)
    ensures
        r@ == "info"@,
{
    "info".to_owned()
}

/// Console logging is enabled by default.
pub fn default_console_enabled() -> (r: bool)
    ensures
        r,
{
    true
}

impl Default for LoggingConfig {
    fn default() -> (r: Self)
        ensures
            r.level@ == "info"@,
            r.enable_console,
    {
        LoggingConfig { level: default_log_level(), enable_console: default_console_enabled() }
    }
}

/// Main application configuration
#[derive(Debug, Clone)]
pub struct AppConfig {
    /// Server configuration
    pub server: ServerConfig,
    /// Poller configuration
    pub poller: PollerConfig,
    /// Cache configuration
    pub cache: CacheConfig,
    /// Logging configuration
    pub logging: LoggingConfig,
}

impl AppConfig {
    /// Whether this is the default configuration.
    pub open spec fn is_default(self) -> bool {
        &&& self.server.is_default()
        &&& self.poller.interval_secs == 3600
        &&& self.poller.enabled
        &&& self.cache.max_articles_per_category == 100
        &&& self.logging.level@ == "info"@
        &&& self.logging.enable_console
    }

    /// Create default configuration
    pub fn default_config() -> (r: Self)
        ensures
            r.is_default(),
    {
        Self::default()
    }
}

impl Default for AppConfig {
    fn default() -> (r: Self)
        ensures
            r.is_default(),
    {
        AppConfig {
            server: ServerConfig::default(),
            poller: PollerConfig::default(),
            cache: CacheConfig::default(),
            logging: LoggingConfig::default(),
        }
    }
}

/// Transport mode enum
#[derive(Debug, Clone, Copy, PartialEq, Eq, Structural)]
pub enum TransportMode {
    /// Standard input/output mode
    Stdio,
    /// HTTP mode (Streamable HTTP)
    Http,
    /// Server-Sent Events mode
    Sse,
    /// Hybrid mode (HTTP + SSE)
    Hybrid,
}

/// The name of a transport mode.
pub open spec fn transport_name(m: TransportMode) -> Seq<char> {
    match m {
        TransportMode::Stdio => "stdio"@,
        TransportMode::Http => "http"@,
        TransportMode::Sse => "sse"@,
        TransportMode::Hybrid => "hybrid"@,
    }
}

/// The transport mode named by a lowercase name, if any.
pub open spec fn transport_for_key(k: Seq<char>) -> Option<TransportMode> {
    if k == "stdio"@ {
        Some(TransportMode::Stdio)
    } else if k == "http"@ {
        Some(TransportMode::Http)
    } else if k == "sse"@ {
        Some(TransportMode::Sse)
    } else if k == "hybrid"@ {
        Some(TransportMode::Hybrid)
    } else {
        None
    }
}

/// Whether `e` is the error for the invalid transport mode `s`.
pub open spec fn is_invalid_transport_error(e: Error, s: Seq<char>) -> bool {
    e matches Error::Config { field, message, expected } && field@ == "transport_mode"@ && message@
        == "invalid transport mode: "@ + s && expected is None
}


impl TransportMode {
    /// The mode named by an already lowercased name, if any.
    pub fn from_lowercase(key: &str) -> (r: Option<TransportMode>)
        ensures
            r == transport_for_key(key@),
    {
        let k = chars_of(key);
        if eq_lit(&k, "stdio") {
            Some(TransportMode::Stdio)
        } else if eq_lit(&k, "http") {
            Some(TransportMode::Http)
        } else if eq_lit(&k, "sse") {
            Some(TransportMode::Sse)
        } else if eq_lit(&k, "hybrid") {
            Some(TransportMode::Hybrid)
        } else {
            None
        }
    }

    /// Parses a transport mode name (`stdio`, `http`, `sse` or `hybrid`), ignoring case.
    pub fn parse(s: &str) -> (r: Result<TransportMode, Error>)
        ensures
            transport_for_key(lowercase(s@)) matches Some(m) ==> r == Ok::<TransportMode, Error>(m),
            transport_for_key(lowercase(s@)) is None ==> (r matches Err(e)
                && is_invalid_transport_error(e, s@)),
            all_simple(s@) ==> match transport_for_key(ascii_lowercase(s@)) {
                Some(m) => r == Ok::<TransportMode, Error>(m),
                None => r is Err,
            },
    {
        let lower = to_lowercase(s);
        match TransportMode::from_lowercase(lower.as_str()) {
            Some(m) => Ok(m),
            None => {
                let mut msg: Vec<char> = Vec::new();
                push_str(&mut msg, "invalid transport mode: ");
                push_str(&mut msg, s);
                let message = string_of(&msg);
                Err(Error::config("transport_mode", message.as_str()))
            },
        }
    }

    /// The name of this mode (what `to_string` gives for it).
    pub fn to_string(&self) -> (r: String)
        ensures
            r@ == transport_name(*self),
    {
        match self {
            TransportMode::Stdio => "stdio".to_owned(),
            TransportMode::Http => "http".to_owned(),
            TransportMode::Sse => "sse".to_owned(),
            TransportMode::Hybrid => "hybrid".to_owned(),
        }
    }
}

/// A transport mode's name parses back to that mode.
pub proof fn law_transport_name_parses(m: TransportMode)
    ensures
        transport_for_key(transport_name(m)) == Some(m),
        all_simple(transport_name(m)),
        ascii_lowercase(transport_name(m)) == transport_name(m),
{
    reveal_strlit("stdio");
    reveal_strlit("http");
    reveal_strlit("sse");
    reveal_strlit("hybrid");
    assert("stdio"@.len() == 5);
    assert("http"@.len() == 4);
    assert("sse"@.len() == 3);
    assert("hybrid"@.len() == 6);
    assert("stdio"@ != "http"@);
    assert("sse"@ != "stdio"@ && "sse"@ != "http"@);
    assert("hybrid"@ != "stdio"@ && "hybrid"@ != "http"@ && "hybrid"@ != "sse"@);
    let n = transport_name(m);
    assert forall|i: int| 0 <= i < n.len() implies simple_char(#[trigger] n[i]) && ascii_lowercase(n)[i]
        == n[i] by {
        assert(i == 0 || i == 1 || i == 2 || i == 3 || i == 4 || i == 5);
    }
    assert(ascii_lowercase(n) =~= n);
}

/// A transport mode's name parses back to it in any ASCII case (such as
/// `HTTP` or `Stdio`).
pub proof fn law_transport_parse_ignores_ascii_case(m: TransportMode, s: Seq<char>)
    requires
        all_simple(s),
        ascii_lowercase(s) == transport_name(m),
    ensures
        transport_for_key(ascii_lowercase(s)) == Some(m),
{
    law_transport_name_parses(m);
}

impl std::str::FromStr for TransportMode {
    type Err = Error;

    fn from_str(s: &str) -> (r: Result<TransportMode, Error>)
        ensures
            transport_for_key(lowercase(s@)) matches Some(m) ==> r == Ok::<TransportMode, Error>(m),
            transport_for_key(lowercase(s@)) is None ==> (r matches Err(e)
                && is_invalid_transport_error(e, s@)),
            all_simple(s@) ==> match transport_for_key(ascii_lowercase(s@)) {
                Some(m) => r == Ok::<TransportMode, Error>(m),
                None => r is Err,
            },
    {
        TransportMode::parse(s)
    }
}

} // verus!
