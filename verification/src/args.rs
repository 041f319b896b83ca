//! Process configuration: the path of the backing file, the way to open it,
//! and the two display flags.

use vstd::prelude::*;

verus! {

/// The path argument of a subcommand.
#[derive(Clone, Debug, PartialEq, Eq)]
pub struct PathArgs {
    pub list_path: String,
}

/// Whether to start from an empty list at the path or to open the one there.
#[derive(Clone, Debug, PartialEq, Eq)]
pub enum Mode {
    New(PathArgs),
    Open(PathArgs),
}

/// All arguments of a run.
#[derive(Clone, Debug, PartialEq, Eq)]
pub struct Args {
    /// Show the diagnostic log panel.
    pub debug: bool,
    /// Show hidden items from the start.
    pub display_hidden: bool,
    pub mode: Mode,
}

impl Mode {
    /// The path argument, whichever the subcommand.
    pub open spec fn spec_list_path(&self) -> Seq<char> {
        match self {
            Mode::New(args) => args.list_path@,
            Mode::Open(args) => args.list_path@,
        }
    }

    /// The path argument, whichever the subcommand.
    pub fn list_path(&self) -> (path: &String)
        ensures
            path@ == self.spec_list_path(),
    {
        match self {
            Mode::New(args) => &args.list_path,
            Mode::Open(args) => &args.list_path,
        }
    }
}

} // verus!
