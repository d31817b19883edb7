//! The window of memory in which an entry point is searched.

use vstd::prelude::*;

verus! {

/// First address of the window that legacy firmware uses for the entry point.
pub const LEGACY_WINDOW_START: u64 = 0x000F_0000;

/// Last address of the window that legacy firmware uses for the entry point.
pub const LEGACY_WINDOW_END: u64 = 0x000F_FFFF;

/// An inclusive range `[start, end]` of addresses of a memory source.
#[derive(Clone, Copy, Debug, PartialEq, Eq, Structural)]
pub struct MemoryWindow {
    pub start: u64,
    pub end: u64,
}

impl MemoryWindow {
    /// A window is well formed when it holds at least one address.
    pub open spec fn wf(self) -> bool {
        self.start <= self.end
    }

    /// Whether `address` lies inside the window.
    pub open spec fn holds(self, address: int) -> bool {
        self.start <= address <= self.end
    }

    /// The window `[start, end]`, or `None` where `start` lies behind `end`.
    pub fn new(start: u64, end: u64) -> (window: Option<MemoryWindow>)
        ensures
            start <= end ==> window == Some(MemoryWindow { start, end }),
            start > end ==> window is None,
            window matches Some(made) ==> made.wf(),
    {
        if start <= end {
            Some(MemoryWindow { start, end })
        } else {
            None
        }
    }

    /// The 64 KiB directly below the 1 MiB boundary.
    pub fn legacy() -> (window: MemoryWindow)
        ensures
            window == (MemoryWindow { start: LEGACY_WINDOW_START, end: LEGACY_WINDOW_END }),
            window.wf(),
    {
        MemoryWindow { start: LEGACY_WINDOW_START, end: LEGACY_WINDOW_END }
    }

    /// Whether `address` lies inside the window.
    pub fn contains(&self, address: u64) -> (inside: bool)
        ensures
            inside == self.holds(address as int),
    {
        self.start <= address && address <= self.end
    }
}

} // verus!
