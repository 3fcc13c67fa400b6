//! The routing mode of the proxy client.
use vstd::prelude::*;

verus! {

/// How the proxy client routes traffic.
#[derive(Clone, Copy, Debug, PartialEq, Eq, Structural)]
pub enum RunMode {
    Global,
    Rule,
    Direct,
}

impl DeepView for RunMode {
    type V = RunMode;

    open spec fn deep_view(&self) -> RunMode {
        *self
    }
}

impl Default for RunMode {
    /// Rule-based routing.
    fn default() -> (r: RunMode)
        ensures
            r == RunMode::Rule,
    {
        RunMode::Rule
    }
}

} // verus!
