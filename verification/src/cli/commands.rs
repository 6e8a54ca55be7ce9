//! The command-line options.

use vstd::prelude::*;

verus! {

/// News MCP Server - A Rust MCP server for fetching news from RSS feeds
#[derive(Debug, Clone)]
pub struct Cli {
    /// Configuration file path
    pub config: Option<String>,
    /// Log level (trace, debug, info, warn, error)
    pub log_level: String,
    /// Subcommand
    pub command: Commands,
}

/// Available commands
#[derive(Debug, Clone)]
pub enum Commands {
    /// Start the MCP server
    Serve(ServeCommand),
    /// Test the server functionality
    Test(TestCommand),
    /// Generate default configuration file
    Config(ConfigCommand),
}

/// Serve command options
#[derive(Debug, Clone)]
pub struct ServeCommand {
    /// Transport mode (stdio, http, sse, hybrid)
    pub mode: String,
    /// Server host for HTTP/SSE modes
    pub host: String,
    /// Server port for HTTP/SSE modes
    pub port: u16,
    /// Enable background polling
    pub poll: bool,
    /// Polling interval in seconds
    pub poll_interval: u64,
    /// Maximum articles per category
    pub max_articles: usize,
}

/// Test command options
#[derive(Debug, Clone)]
pub struct TestCommand {
    /// Test type (cache, poll, tools, all)
    pub test_type: String,
}

/// Config command options
#[derive(Debug, Clone)]
pub struct ConfigCommand {
    /// Output file path for generated config
    pub output: String,
}

} // verus!
