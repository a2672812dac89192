//! The single-slot signal channel between watchers and the scheduler.

use vstd::prelude::*;
use crate::cadence::{should_refresh, Cadence};

verus! {

/// A single integer-or-empty slot. Watchers post the category of a manual
/// stat into it; the scheduler reads and clears it once per tick. A write
/// overwrites whatever was pending, so of several categories posted between
/// two consecutive reads only the most recent survives: this lossy
/// coalescing is a deliberate, documented limitation of the design.
#[derive(Clone, Copy, Debug)]
pub struct Signal {
    pub slot: Option<u16>,
}

/// The slot's contents after a category is posted: the new category,
/// whatever was pending before.
pub open spec fn posted(slot: Option<u16>, c: u16) -> Option<u16> {
    Some(c)
}

impl Signal {
    /// A channel with nothing pending.
    pub fn new() -> (r: Signal)
        ensures
            r.slot == None::<u16>,
    {
        Signal { slot: None }
    }

    /// Post category `c`, overwriting any pending category.
    pub fn write(&mut self, c: u16)
        requires
            c >= 1,
        ensures
            final(self).slot == posted(old(self).slot, c),
    {
        self.slot = Some(c);
    }

    /// Read and clear: return the pending category (or `None`) and leave the
    /// channel empty until the next write.
    pub fn take(&mut self) -> (r: Option<u16>)
        ensures
            r == old(self).slot,
            final(self).slot == None::<u16>,
    {
        let r = self.slot;
        self.slot = None;
        r
    }
}

/// Signal coalescing: when categories `c1` and then `c2` are posted strictly
/// between two consecutive reads, the second read observes `c2` alone —
/// `c1` is lost, so on that tick the manual stats of category `c2` refresh
/// and those of category `c1` do not.
pub proof fn lemma_signal_coalescing(pending: Option<u16>, c1: u16, c2: u16, tick: u16)
    requires
        c1 != c2,
    ensures
        posted(posted(pending, c1), c2) == Some(c2),
        should_refresh(Cadence::Manual(c2), tick, posted(posted(pending, c1), c2)),
        !should_refresh(Cadence::Manual(c1), tick, posted(posted(pending, c1), c2)),
{
}

} // verus!
