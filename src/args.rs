//! The parsed command line.
use vstd::prelude::*;
use crate::commands::Command;
use crate::error::Error;

verus! {

/// The parsed command line: the command to run.
#[derive(Clone, Debug)]
pub struct Args {
    pub command: Command,
}

impl Args {
    /// Runs the command: the text it prints on stdout.
    pub fn execute(self) -> (r: Result<String, Error>)
        requires
            self.command.wf(),
        ensures
            r is Ok,
            r->Ok_0@ == self.command.output(),
    {
        self.command.execute()
    }
}

} // verus!
