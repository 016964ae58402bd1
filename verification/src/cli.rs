//! The server's command line, and which command it runs.
use vstd::prelude::*;

verus! {

/// The parsed command line.
pub struct Cli {
    pub command: Option<Commands>,
    /// Increase verbosity. Can be used multiple times (e.g., -v, -vv, -vvv).
    pub verbose: u8,
}

/// The subcommands.
pub enum Commands {
    /// Serve
    Serve,
    /// Index the whole file system
    Index {
        /// The directory to index; without it, the configured watch paths
        root_path: Option<String>,
    },
    /// Clear all caches (index + embedding cache)
    ClearCache,
    /// Debug: show the cached keywords and metadata
    DebugCache {
        /// Filter by file path (partial match)
        filter: Option<String>,
        /// The number of entries to show
        limit: usize,
        /// Show the file metadata instead of the keywords
        show_meta: bool,
    },
}

/// The command the server runs.
pub enum CommandToRun {
    Serve,
    Index { root_path: Option<String> },
    ClearCache,
    DebugCache { filter: Option<String>, limit: usize },
    DebugCacheMeta { filter: Option<String>, limit: usize },
}

/// The command a subcommand runs: the cache debugging subcommand lists the
/// file metadata when asked to, else the keywords. Without a subcommand the
/// server prints its help, and runs nothing.
pub fn command_to_run(cli: Cli) -> (r: Option<CommandToRun>)
    ensures
        cli.command is None ==> r is None,
        cli.command matches Some(Commands::Serve) ==> r matches Some(CommandToRun::Serve),
        cli.command matches Some(Commands::ClearCache) ==> r matches Some(CommandToRun::ClearCache),
        cli.command matches Some(Commands::Index { root_path }) ==> (r matches Some(CommandToRun::Index { root_path: p }) && p == root_path),
        cli.command matches Some(Commands::DebugCache { filter, limit, show_meta }) ==> (
            if show_meta {
                r matches Some(CommandToRun::DebugCacheMeta { filter: f, limit: l }) && f == filter && l == limit
            } else {
                r matches Some(CommandToRun::DebugCache { filter: f, limit: l }) && f == filter && l == limit
            }
        ),
{
    match cli.command {
        None => None,
        Some(command) => Some(match command {
            Commands::Serve => CommandToRun::Serve,
            Commands::Index { root_path } => CommandToRun::Index { root_path },
            Commands::ClearCache => CommandToRun::ClearCache,
            Commands::DebugCache { filter, limit, show_meta } => {
                if show_meta {
                    CommandToRun::DebugCacheMeta { filter, limit }
                } else {
                    CommandToRun::DebugCache { filter, limit }
                }
            },
        }),
    }
}

} // verus!
