use vstd::prelude::*;

verus! {

/// Command-line arguments of the launcher: it takes none.
#[derive(Debug, Clone, PartialEq, Eq)]
pub struct Args {}

/// Sub-commands handed to an already running instance: there are none.
#[derive(Debug, Clone, PartialEq, Eq)]
pub struct LauncherCommands;

impl Args {
    /// The sub-command these arguments carry; the launcher has none.
    pub fn action(&self) -> (r: Option<&LauncherCommands>)
        ensures
            r is None,
    {
        None
    }
}

} // verus!
