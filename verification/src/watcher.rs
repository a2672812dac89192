//! Supervision state for one manual category's helper process.

use vstd::prelude::*;
use crate::signal::{posted, Signal};

verus! {

/// The supervision state of the background task bound to one manual
/// category. The task launches the category's external helper process,
/// blocks until it exits, posts the category to the signal channel, and
/// relaunches immediately — forever, with no cooldown and no cap. The
/// launching and waiting are outside work the caller performs; this type
/// records each observed exit and pins down the one signal write it owes.
#[derive(Clone, Copy, PartialEq, Eq, Structural, Debug)]
pub struct Watcher {
    pub category: u16,
    pub exits: u64,
}

impl Watcher {
    /// A manual category is a positive identifier.
    pub open spec fn wf(self) -> bool {
        self.category >= 1
    }

    /// Bind a watcher to its category; no helper exit is recorded yet.
    pub fn new(category: u16) -> (r: Watcher)
        requires
            category >= 1,
        ensures
            r.wf(),
            r.category == category,
            r.exits == 0,
    {
        Watcher { category, exits: 0 }
    }

    /// One helper-process exit: post this watcher's category to the signal
    /// channel — overwriting any pending category — and count the exit, so
    /// every exit produces exactly one write of exactly this category. The
    /// caller relaunches the helper right after.
    pub fn on_exit(&mut self, chan: &mut Signal)
        requires
            old(self).wf(),
            old(self).exits < u64::MAX,
        ensures
            final(self).category == old(self).category,
            final(self).exits == old(self).exits + 1,
            final(chan).slot == posted(old(chan).slot, old(self).category),
    {
        self.exits = self.exits + 1;
        chan.write(self.category);
    }
}

} // verus!
