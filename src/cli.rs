use vstd::prelude::*;

verus! {

/// How `status` prints.
#[derive(Debug, Clone, Copy, PartialEq, Eq, Structural)]
pub enum OutputFormat {
    /// The table as `docker-compose ps` prints it.
    Table,
    Json,
    Yaml,
}

/// The subcommands and their arguments.
#[derive(Debug, Clone, PartialEq, Eq)]
pub enum Commands {
    /// Record the catalog server (asked for where not given).
    Init { host: Option<String> },
    /// Download an environment's templates and record its settings.
    Create {
        dev_env: Option<String>,
        name: Option<String>,
        /// `host_port:container_port`.
        debug_port: Option<String>,
        workspace: Option<String>,
    },
    Start { detach: bool },
    Stop { remove: bool },
    Restart,
    /// Run a command in the container.
    Run { command: Vec<String> },
    /// Open an interactive shell in the container.
    Exec { shell: String },
    Status { format: OutputFormat },
    Logs { follow: bool, tail: Option<usize>, since: Option<String> },
    Clean { all: bool, images: bool, containers: bool, volumes: bool },
    Doctor,
    Version,
}

/// A parsed command line.
#[derive(Debug, Clone, PartialEq, Eq)]
pub struct Cli {
    pub command: Commands,
}

} // verus!
