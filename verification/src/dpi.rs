//! Size measures for window configuration.
//!
//! A size is either logical (pre-scaling, the unit in which callers and
//! page styles reason) or physical (device pixels). Widths and heights
//! are whole pixel counts, so the non-negativity invariant holds by type.

use vstd::prelude::*;

verus! {

/// A size in logical pixels.
#[derive(Clone, Copy, PartialEq, Eq, Debug)]
pub struct LogicalSize {
    pub width: u32,
    pub height: u32,
}

/// A size in physical (device) pixels.
#[derive(Clone, Copy, PartialEq, Eq, Debug)]
pub struct PhysicalSize {
    pub width: u32,
    pub height: u32,
}

/// A size measure tagged with the unit it is expressed in.
#[derive(Clone, Copy, PartialEq, Eq, Debug)]
pub enum Size {
    Logical(LogicalSize),
    Physical(PhysicalSize),
}

impl LogicalSize {
    pub fn new(width: u32, height: u32) -> (r: LogicalSize)
        ensures
            r == (LogicalSize { width, height }),
    {
        LogicalSize { width, height }
    }
}

impl PhysicalSize {
    pub fn new(width: u32, height: u32) -> (r: PhysicalSize)
        ensures
            r == (PhysicalSize { width, height }),
    {
        PhysicalSize { width, height }
    }
}

} // verus!
