pub mod commands;
pub mod compile;
pub mod config;
pub mod indices;
pub mod laws;
pub mod runner;
pub mod text;

pub use crate::config::CliArgs;
pub use crate::config::CliCommand;
pub use crate::config::Config;
pub use crate::config::Hook;
pub use crate::config::HookName;
pub use crate::config::Layout;
pub use crate::config::Pane;
pub use crate::config::ParseCliCommandError;
pub use crate::config::StartDirectory;
pub use crate::config::TmuxBaseIndices;
pub use crate::config::Window;
pub use crate::compile::convert_config_to_tmux_commands;
pub use crate::indices::parse_base_indices;
pub use crate::runner::get_tmux_base_indices;
pub use crate::runner::index_query_args;
pub use crate::runner::render_debug_line;
pub use crate::runner::run_debug;
pub use crate::runner::run_start;
pub use crate::runner::TmuxCommandRunner;
pub use crate::text::convert_pascal_case_to_kebab_case;
