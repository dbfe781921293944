//! The session configuration handed in across the process boundary.
use vstd::prelude::*;

verus! {

/// Which measurement a session runs; fixed for the session's lifetime.
#[derive(Clone, Copy, Debug, PartialEq, Eq, Structural)]
pub enum Action {
    /// Continuous measurement into the shared gauge, reported once per interval.
    MeasureStack,
    /// Rate-limited measurement that reports inline, at most once per interval.
    DoMoreStuff,
}

impl Default for Action {
    fn default() -> (r: Action)
        ensures
            r == Action::MeasureStack,
    {
        Action::MeasureStack
    }
}

/// A session configuration: the exact name of the function to probe and the
/// action to run on it.
#[derive(Clone, Debug)]
pub struct Config {
    pub target_function: String,
    pub action: Action,
}

} // verus!
