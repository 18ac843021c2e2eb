use vstd::prelude::*;

verus! {

/// The command line: an optional subcommand.
pub struct Args {
    pub command: Option<Command>,
}

/// What to do with a model file.
pub enum Command {
    /// Print what the file holds.
    Inspect { path: String },
    /// Show the file in a window.
    Display { path: String },
}

} // verus!
