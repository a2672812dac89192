//! One schedulable, cached, renderable text fragment.

use vstd::prelude::*;
use crate::cadence::Cadence;

verus! {

/// One renderable fragment: its refresh cadence and the text its probe
/// produced most recently. The probe itself is an external collaborator:
/// the scheduler's caller runs it and hands the fresh text back through
/// [`Stat::f`]. Literal fragments (separators) are stats whose cadence is
/// `Static`, so they are written once and never probed again.
pub struct Stat {
    pub cadence: Cadence,
    pub text: String,
}

impl Stat {
    /// Construct a stat with an empty cache. The startup pass or the first
    /// matching tick fills it.
    pub fn new(cadence: Cadence) -> (r: Stat)
        requires
            cadence.valid(),
        ensures
            r.cadence == cadence,
            r.text@ == Seq::<char>::empty(),
    {
        Stat { cadence, text: String::new() }
    }

    /// Refresh: overwrite the cached text with a freshly probed value. The
    /// cadence never changes after construction.
    pub fn f(&mut self, text: String)
        ensures
            final(self).text == text,
            final(self).cadence == old(self).cadence,
    {
        self.text = text;
    }

    /// The cached text, unchanged and without side effects; this is what the
    /// renderer path reads.
    pub fn current_text(&self) -> (r: &String)
        ensures
            r == self.text,
    {
        &self.text
    }
}

} // verus!
