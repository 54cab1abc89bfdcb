//! The command line: what a user asks of the program.
//!
//! Reading the arguments is the caller's part; these types hold what was read.
use vstd::prelude::*;

verus! {

/// The parsed command line.
pub struct Cli {
    /// The command, if one was given.
    pub command: Option<Commands>,
    /// `-v`, `--verbose`: follow the daemon's log.
    pub verbose: bool,
    /// `-l`, `--log-level`: the level of the log to follow.
    pub log_level: Option<u64>,
}

/// The commands of the program.
#[allow(inconsistent_fields)]
pub enum Commands {
    /// Bind a local address to a remote service through a chain of SSH hosts.
    Bind {
        /// `-a`: the local address to listen on.
        addr: String,
        /// `-j`: the jump hosts, in the order they are passed through.
        jump_host: Vec<String>,
        /// `-r`: the service to reach from the last host.
        remote: Option<String>,
        /// `-s`: the SOPS file with the credentials.
        sopsfile: String,
        /// `-c`: a command to run on the last host in place of forwarding.
        cmd: Option<String>,
    },
    /// Remove the binding on an address, or every binding.
    Unbind {
        /// `-a`: the local address whose binding is removed.
        addr: Option<String>,
        /// `--all`: remove every binding.
        all: bool,
    },
    /// Stop the daemon.
    Shutdown,
    /// List the bindings.
    List,
    /// Run as the daemon (not shown in the help).
    Daemon,
}

} // verus!
