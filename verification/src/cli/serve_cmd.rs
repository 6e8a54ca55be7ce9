//! The configuration that the serve command runs with.

use vstd::prelude::*;

use crate::cli::commands::ServeCommand;
use crate::config::{AppConfig, CacheConfig, LoggingConfig, PollerConfig, ServerConfig};

verus! {

/// Create configuration from serve command options: the server's name and
/// version, and logging, are the defaults; the rest comes from the options.
pub fn create_config_from_cmd(cmd: &ServeCommand) -> (r: AppConfig)
    ensures
        r.server.name@ == "news-mcp"@,
        r.server.version@ == "0.1.0"@,
        r.server.host@ == cmd.host@,
        r.server.port == cmd.port,
        r.server.transport_mode@ == cmd.mode@,
        r.poller.interval_secs == cmd.poll_interval,
        r.poller.enabled == cmd.poll,
        r.cache.max_articles_per_category == cmd.max_articles,
        r.logging.level@ == "info"@,
        r.logging.enable_console,
{
    AppConfig {
        server: ServerConfig {
            name: "news-mcp".to_owned(),
            version: "0.1.0".to_owned(),
            host: cmd.host.clone(),
            port: cmd.port,
            transport_mode: cmd.mode.clone(),
        },
        poller: PollerConfig { interval_secs: cmd.poll_interval, enabled: cmd.poll },
        cache: CacheConfig { max_articles_per_category: cmd.max_articles },
        logging: LoggingConfig { level: "info".to_owned(), enable_console: true },
    }
}

} // verus!
