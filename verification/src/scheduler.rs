//! The render loop's state: the declared stats and the tick counter.

use vstd::prelude::*;
use vstd::string::StringExecFns;
use crate::cadence::{decide, next_tick, should_refresh, Cadence};
use crate::stat::Stat;

verus! {

/// The rendered line: the cached texts of all stats, concatenated in
/// declared order with nothing inserted between them. Any inter-field
/// spacing must already exist as its own static literal stat.
pub open spec fn concat_texts(stats: Seq<Stat>) -> Seq<char>
    decreases stats.len(),
{
    if stats.len() == 0 {
        Seq::empty()
    } else {
        concat_texts(stats.drop_last()) + stats.last().text@
    }
}

/// Where stat `i`'s text begins in the rendered line: the total length of
/// the texts declared before it.
pub open spec fn text_offset(stats: Seq<Stat>, i: int) -> int
    decreases i,
{
    if i <= 0 {
        0
    } else {
        text_offset(stats, i - 1) + stats[i - 1].text@.len()
    }
}

proof fn lemma_concat_take_succ(stats: Seq<Stat>, i: int)
    requires
        0 <= i < stats.len(),
    ensures
        concat_texts(stats.take(i + 1)) == concat_texts(stats.take(i)) + stats[i].text@,
{
    assert(stats.take(i + 1).drop_last() =~= stats.take(i));
    assert(stats.take(i + 1).last() == stats[i]);
}

proof fn lemma_text_offset_take(stats: Seq<Stat>, n: int, i: int)
    requires
        0 <= i <= n <= stats.len(),
    ensures
        text_offset(stats.take(n), i) == text_offset(stats, i),
    decreases i,
{
    if i > 0 {
        lemma_text_offset_take(stats, n, i - 1);
    }
}

proof fn lemma_text_offset_nonneg(stats: Seq<Stat>, i: int)
    ensures
        text_offset(stats, i) >= 0,
    decreases i,
{
    if i > 0 {
        lemma_text_offset_nonneg(stats, i - 1);
    }
}

/// The rendered line is exactly as long as the sum of the cached texts'
/// lengths: concatenation loses nothing.
pub proof fn lemma_concat_len(stats: Seq<Stat>)
    ensures
        concat_texts(stats).len() == text_offset(stats, stats.len() as int),
    decreases stats.len(),
{
    if stats.len() > 0 {
        lemma_concat_len(stats.drop_last());
        assert(stats.drop_last() =~= stats.take(stats.len() - 1));
        lemma_text_offset_take(stats, stats.len() - 1, stats.len() - 1);
    }
}

/// Rendering is order-preserving and lossless: stat `i`'s cached text
/// occupies exactly the slice of the rendered line that begins at the sum
/// of the lengths of the texts declared before it.
pub proof fn lemma_render_order(stats: Seq<Stat>, i: int)
    requires
        0 <= i < stats.len(),
    ensures
        0 <= text_offset(stats, i),
        text_offset(stats, i) + stats[i].text@.len() <= concat_texts(stats).len(),
        concat_texts(stats).subrange(
            text_offset(stats, i),
            text_offset(stats, i) + stats[i].text@.len(),
        ) == stats[i].text@,
    decreases stats.len(),
{
    lemma_text_offset_nonneg(stats, i);
    lemma_concat_len(stats);
    lemma_concat_len(stats.drop_last());
    assert(stats.drop_last() =~= stats.take(stats.len() - 1));
    lemma_text_offset_take(stats, stats.len() - 1, i);
    let pre = concat_texts(stats.drop_last());
    let o = text_offset(stats, i);
    let l = stats[i].text@.len() as int;
    if i == stats.len() - 1 {
        lemma_text_offset_take(stats, stats.len() - 1, stats.len() - 1);
        assert(o == pre.len());
        assert(concat_texts(stats).subrange(o, o + l) =~= stats[i].text@);
    } else {
        lemma_render_order(stats.drop_last(), i);
        assert(pre.subrange(o, o + l) == stats.drop_last()[i].text@);
        assert(concat_texts(stats).subrange(o, o + l) =~= pre.subrange(o, o + l));
    }
}

/// The render loop's state: the stats in declared (= rendering) order and
/// the wrapping tick counter. One instance owns the whole schedule; the
/// caller drives it by taking the signal channel, asking for a plan,
/// running the planned probes, and handing the fresh texts back.
pub struct Scheduler {
    pub stats: Vec<Stat>,
    pub tick: u16,
}

impl Scheduler {
    /// Every periodic interval and every manual category is positive.
    pub open spec fn wf(self) -> bool {
        forall|i: int|
            0 <= i < self.stats@.len() ==> (#[trigger] self.stats@[i]).cadence.valid()
    }

    /// Construct all stats at startup, in declared order, with empty caches
    /// and the tick counter at zero. The declared order is the rendering
    /// order and never changes afterwards.
    pub fn new(cadences: Vec<Cadence>) -> (r: Scheduler)
        requires
            forall|i: int| 0 <= i < cadences@.len() ==> (#[trigger] cadences@[i]).valid(),
        ensures
            r.wf(),
            r.tick == 0,
            r.stats@.len() == cadences@.len(),
            forall|i: int|
                0 <= i < cadences@.len() ==> (#[trigger] r.stats@[i]).cadence == cadences@[i]
                    && r.stats@[i].text@ == Seq::<char>::empty(),
    {
        let mut stats: Vec<Stat> = Vec::new();
        let mut i: usize = 0;
        while i < cadences.len()
            invariant
                i <= cadences@.len(),
                stats@.len() == i,
                forall|k: int| 0 <= k < cadences@.len() ==> (#[trigger] cadences@[k]).valid(),
                forall|k: int|
                    0 <= k < i ==> (#[trigger] stats@[k]).cadence == cadences@[k]
                        && stats@[k].text@ == Seq::<char>::empty(),
            decreases cadences@.len() - i,
        {
            stats.push(Stat::new(cadences[i]));
            i += 1;
        }
        Scheduler { stats, tick: 0 }
    }

    /// The startup pass's plan: exactly the static stats, which refresh
    /// once here and never again, so the first rendered line shows no empty
    /// static fragment.
    pub fn startup_plan(&self) -> (r: Vec<bool>)
        ensures
            r@.len() == self.stats@.len(),
            forall|i: int|
                0 <= i < r@.len() ==> #[trigger] r@[i] == (self.stats@[i].cadence is Static),
    {
        let mut r: Vec<bool> = Vec::new();
        let mut i: usize = 0;
        while i < self.stats.len()
            invariant
                i <= self.stats@.len(),
                r@.len() == i,
                forall|k: int|
                    0 <= k < i ==> #[trigger] r@[k] == (self.stats@[k].cadence is Static),
            decreases self.stats@.len() - i,
        {
            let s = match self.stats[i].cadence {
                Cadence::Static => true,
                _ => false,
            };
            r.push(s);
            i += 1;
        }
        r
    }

    /// This tick's plan: for each stat, in declared order, whether it
    /// refreshes now, given the category the signal channel delivered when
    /// this tick read and cleared it (`None` when nothing was pending).
    pub fn plan(&self, sig: Option<u16>) -> (r: Vec<bool>)
        requires
            self.wf(),
        ensures
            r@.len() == self.stats@.len(),
            forall|i: int|
                0 <= i < r@.len() ==> #[trigger] r@[i] == should_refresh(
                    self.stats@[i].cadence,
                    self.tick,
                    sig,
                ),
    {
        let mut r: Vec<bool> = Vec::new();
        let mut i: usize = 0;
        while i < self.stats.len()
            invariant
                self.wf(),
                i <= self.stats@.len(),
                r@.len() == i,
                forall|k: int|
                    0 <= k < i ==> #[trigger] r@[k] == should_refresh(
                        self.stats@[k].cadence,
                        self.tick,
                        sig,
                    ),
            decreases self.stats@.len() - i,
        {
            r.push(decide(&self.stats[i].cadence, self.tick, sig));
            i += 1;
        }
        r
    }

    /// Store freshly probed texts: entry `i` overwrites stat `i`'s cache
    /// when it holds a text and leaves the stat untouched when it holds
    /// `None`. Cadences, order and the tick counter never change here.
    pub fn store(&mut self, texts: Vec<Option<String>>)
        requires
            texts@.len() == old(self).stats@.len(),
        ensures
            final(self).tick == old(self).tick,
            final(self).stats@.len() == old(self).stats@.len(),
            forall|i: int|
                0 <= i < old(self).stats@.len() ==> (#[trigger] final(self).stats@[i]).cadence
                    == old(self).stats@[i].cadence,
            forall|i: int|
                0 <= i < old(self).stats@.len() ==> (#[trigger] final(self).stats@[i]).text
                    == (match texts@[i] {
                    Some(t) => t,
                    None => old(self).stats@[i].text,
                }),
            old(self).wf() ==> final(self).wf(),
    {
        let ghost all = texts@;
        let mut texts = texts;
        let mut j: usize = texts.len();
        while j > 0
            invariant
                j <= all.len(),
                j == texts@.len(),
                texts@ == all.take(j as int),
                all.len() == old(self).stats@.len(),
                self.tick == old(self).tick,
                self.stats@.len() == old(self).stats@.len(),
                forall|k: int| 0 <= k < j ==> self.stats@[k] == old(self).stats@[k],
                forall|k: int|
                    j <= k < all.len() ==> (#[trigger] self.stats@[k]).cadence
                        == old(self).stats@[k].cadence,
                forall|k: int|
                    j <= k < all.len() ==> (#[trigger] self.stats@[k]).text == (match all[k] {
                        Some(t) => t,
                        None => old(self).stats@[k].text,
                    }),
            decreases j,
        {
            j -= 1;
            match texts.pop() {
                Some(Some(t)) => {
                    self.stats[j].f(t);
                }
                _ => {}
            }
            proof {
                assert(texts@ =~= all.take(j as int));
            }
        }
    }

    /// Render: the cached texts of every stat, concatenated in declared
    /// order into one line, with no separators added.
    pub fn render(&self) -> (line: String)
        ensures
            line@ == concat_texts(self.stats@),
    {
        let mut line = String::new();
        let mut i: usize = 0;
        while i < self.stats.len()
            invariant
                i <= self.stats@.len(),
                line@ == concat_texts(self.stats@.take(i as int)),
            decreases self.stats@.len() - i,
        {
            line.append(self.stats[i].text.as_str());
            proof {
                lemma_concat_take_succ(self.stats@, i as int);
            }
            i += 1;
        }
        proof {
            assert(self.stats@.take(self.stats@.len() as int) =~= self.stats@);
        }
        line
    }

    /// Advance the tick counter by one, wrapping to zero at the top of its
    /// range instead of overflowing.
    pub fn advance(&mut self)
        ensures
            final(self).stats == old(self).stats,
            final(self).tick == next_tick(old(self).tick),
    {
        if self.tick == u16::MAX {
            self.tick = 0;
        } else {
            self.tick = self.tick + 1;
        }
    }

    /// The second half of one tick, after the caller ran the planned
    /// probes: store the fresh texts, render the line for the renderer
    /// sink, and advance the tick counter with wraparound.
    pub fn run_tick(&mut self, texts: Vec<Option<String>>) -> (line: String)
        requires
            texts@.len() == old(self).stats@.len(),
        ensures
            final(self).tick == next_tick(old(self).tick),
            final(self).stats@.len() == old(self).stats@.len(),
            forall|i: int|
                0 <= i < old(self).stats@.len() ==> (#[trigger] final(self).stats@[i]).cadence
                    == old(self).stats@[i].cadence,
            forall|i: int|
                0 <= i < old(self).stats@.len() ==> (#[trigger] final(self).stats@[i]).text
                    == (match texts@[i] {
                    Some(t) => t,
                    None => old(self).stats@[i].text,
                }),
            line@ == concat_texts(final(self).stats@),
            old(self).wf() ==> final(self).wf(),
    {
        self.store(texts);
        let line = self.render();
        self.advance();
        line
    }
}

} // verus!
