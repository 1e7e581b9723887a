//! Waiting on two descriptors: one on which someone calls, and one that input comes from.
use vstd::prelude::*;

verus! {

/// How waiting ended.
#[derive(Debug, Clone, Copy, PartialEq, Eq, Structural)]
pub enum PollOutcome {
    Interrupted,
    Failed,
    /// Someone called, there is input, or the other side is gone.
    Ready { wake: bool, input: bool, hangup: bool },
}

} // verus!
