use vstd::prelude::*;

verus! {

/// A parsed command line: one subcommand and the two global flags.
pub struct Args {
    pub command: Commands,
    /// Skip confirmations and permit overwriting.
    pub force: bool,
    /// Show the plan without executing it.
    pub dry_run: bool,
}

/// The subcommands. Without a name, status, install and uninstall cover the
/// whole fleet.
#[allow(inconsistent_fields)]
pub enum Commands {
    Status { app_name: Option<String> },
    Install { app_name: Option<String> },
    Uninstall { app_name: Option<String> },
    Logs { app_name: String },
}

} // verus!
