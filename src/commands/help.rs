//! The `help` command.
use vstd::prelude::*;
use crate::error::Error;

verus! {

/// The arguments of the `help` command.
#[derive(Clone, Debug)]
pub struct Help {
    /// The command to show the manual page of.
    pub command: Option<String>,
}

impl Help {
    /// Runs the command, which prints nothing.
    pub fn execute(self) -> (r: Result<(), Error>)
        ensures
            r is Ok,
    {
        Ok(())
    }
}

} // verus!
