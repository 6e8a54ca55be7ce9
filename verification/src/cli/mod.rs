//! Command-line commands: their options, and the decisions taken from them.

pub mod commands;
pub mod serve_cmd;
pub mod test_cmd;

pub use commands::{Cli, Commands, ConfigCommand, ServeCommand, TestCommand};
pub use serve_cmd::create_config_from_cmd;
pub use test_cmd::{test_command, TestKind};
