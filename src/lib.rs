pub mod cli;
pub mod completions;
pub mod config;
pub mod open;
pub mod paths;
pub mod plan;

pub use cli::{Cli, Commands, CompletionShell, CreateArgs, Request, UsageError};
pub use completions::{fish_line, fish_without_file_completion};
pub use config::{config_file_path, Config};
pub use open::{open_command, OpenCommand, OpenPlatform};
pub use plan::{directory_paths, entry_in, entry_in_place, plan_entries, Entry};
