//! What the debugger is started with.

use vstd::prelude::*;

verus! {

/// The arguments of the debugger.
#[derive(Clone, Debug, Default, PartialEq, Eq)]
pub struct Args {
    /// Path of the program to debug.
    pub program: String,
}

impl Args {
    /// Checks the arguments. Every path is accepted as it is, so nothing
    /// changes.
    pub fn validate(&mut self)
        ensures
            *final(self) == *old(self),
    {
    }
}

} // verus!
