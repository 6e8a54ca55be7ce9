//! News MCP library: the verified core of a news server that caches articles
//! by category, searches and formats them, turns feeds, Hacker News items and
//! article pages into articles, and decides what the background poller does.

pub mod cache;
pub mod cli;
pub mod config;
pub mod error;
pub mod poller;
pub mod service;
pub mod text;
pub mod time;
pub mod tools;
pub mod utils;

pub use error::Error;
