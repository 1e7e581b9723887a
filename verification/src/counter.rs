//! Numbers that start over after the last.
use vstd::prelude::*;

verus! {

/// `n` moved on by one, starting over after the last.
pub open spec fn following(n: u64) -> u64 {
    if n == u64::MAX {
        0
    } else {
        (n + 1) as u64
    }
}

} // verus!
