//! Positions for a seek.

use vstd::prelude::*;

verus! {

/// Where a seek counts from.
#[derive(Clone, Copy, Debug, PartialEq, Eq, Structural)]
pub enum SeekFrom {
    /// An absolute offset from the start.
    Start(u64),
    /// A signed offset from the end.
    End(i64),
    /// A signed offset from the current position.
    Current(i64),
}

} // verus!
