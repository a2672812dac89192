//! Refresh cadences and the per-tick refresh decision.

use vstd::prelude::*;

verus! {

/// The refresh policy of one stat.
///
/// `Static` fragments are probed once, during the startup pass, and never
/// again. `Periodic(n)` fragments refresh on every tick index divisible by
/// `n`. `Manual(c)` fragments refresh only when the signal channel delivered
/// category `c` on the current tick.
#[derive(Clone, Copy, PartialEq, Eq, Structural, Debug)]
pub enum Cadence {
    Static,
    Periodic(u16),
    Manual(u16),
}

impl Cadence {
    /// A periodic interval must be at least one tick; a manual category is a
    /// positive identifier.
    pub open spec fn valid(self) -> bool {
        match self {
            Cadence::Static => true,
            Cadence::Periodic(n) => n >= 1,
            Cadence::Manual(c) => c >= 1,
        }
    }

    /// Runtime counterpart of [`Cadence::valid`], for callers that receive a
    /// cadence from outside the verified engine.
    pub fn is_valid(&self) -> (r: bool)
        ensures
            r == self.valid(),
    {
        match self {
            Cadence::Static => true,
            Cadence::Periodic(n) => *n >= 1,
            Cadence::Manual(c) => *c >= 1,
        }
    }
}

/// Whether a stat with cadence `c` refreshes on tick `tick`, given that the
/// signal channel delivered `sig` when this tick read and cleared it.
pub open spec fn should_refresh(c: Cadence, tick: u16, sig: Option<u16>) -> bool
    recommends
        c.valid(),
{
    match c {
        Cadence::Static => false,
        Cadence::Periodic(n) => tick % n == 0,
        Cadence::Manual(cat) => sig == Some(cat),
    }
}

/// The per-tick refresh decision for one stat.
pub fn decide(c: &Cadence, tick: u16, sig: Option<u16>) -> (r: bool)
    requires
        c.valid(),
    ensures
        r == should_refresh(*c, tick, sig),
{
    match c {
        Cadence::Static => false,
        Cadence::Periodic(n) => tick % *n == 0,
        Cadence::Manual(cat) => match sig {
            Some(s) => s == *cat,
            None => false,
        },
    }
}

/// The tick counter after one tick: it increments and wraps to zero at the
/// top of its range instead of overflowing.
pub open spec fn next_tick(i: u16) -> u16 {
    if i == u16::MAX {
        0
    } else {
        (i + 1) as u16
    }
}

/// A periodic cadence refreshes exactly at the multiples of its interval
/// `0, n, 2n, ...` and at no other tick, whatever the signal channel held.
pub proof fn lemma_periodic_refreshes_at_multiples(n: u16, tick: u16, sig: Option<u16>)
    requires
        n >= 1,
    ensures
        should_refresh(Cadence::Periodic(n), tick, sig) <==> (exists|k: nat| tick == #[trigger] (k * n)),
{
    if tick % n == 0 {
        vstd::arithmetic::div_mod::lemma_fundamental_div_mod(tick as int, n as int);
        let k = (tick as int / n as int) as nat;
        assert(tick == k * n);
    }
    if exists|k: nat| tick == #[trigger] (k * n) {
        let k = choose|k: nat| tick == #[trigger] (k * n);
        vstd::arithmetic::div_mod::lemma_mod_multiples_basic(k as int, n as int);
    }
}

/// A static cadence never refreshes inside the tick loop: only the startup
/// pass runs its probe.
pub proof fn lemma_static_never_refreshes(tick: u16, sig: Option<u16>)
    ensures
        !should_refresh(Cadence::Static, tick, sig),
{
}

/// A manual cadence refreshes on a tick exactly when the signal read on that
/// tick delivered its category.
pub proof fn lemma_manual_follows_signal(c: u16, tick: u16, sig: Option<u16>)
    ensures
        should_refresh(Cadence::Manual(c), tick, sig) <==> sig == Some(c),
{
}

/// Incrementing the tick counter past its maximum wraps to zero, and every
/// periodic cadence refreshes on the wrapped tick, so scheduling continues
/// to follow `tick % n == 0` across the wrap boundary.
pub proof fn lemma_wrap_keeps_periodic(n: u16, sig: Option<u16>)
    requires
        n >= 1,
    ensures
        next_tick(u16::MAX) == 0,
        should_refresh(Cadence::Periodic(n), next_tick(u16::MAX), sig),
{
}

} // verus!
