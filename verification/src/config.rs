//! The split configuration: one "split here" toggle per level, plus the
//! global auto-start toggle. It replaces an enum-keyed branch chain with a
//! table indexed by the fixed level order; the decision engine borrows it
//! read-only, and the host may rewrite toggles between poll ticks.

use vstd::prelude::*;

use crate::game::lemma_level_index_injective;
use crate::game::level_index_spec;
use crate::game::Level;
use crate::game::LEVEL_COUNT;

verus! {

/// Per-level split toggles plus the global auto-start toggle.
pub struct Config {
    auto_start: bool,
    split_levels: Vec<bool>,
}

impl Config {
    /// The configuration table carries exactly one toggle per level.
    pub closed spec fn wf(self) -> bool {
        self.split_levels@.len() == LEVEL_COUNT
    }

    /// Whether the timer should start automatically.
    pub closed spec fn auto_start_spec(self) -> bool {
        self.auto_start
    }

    /// Whether finishing `l` should trigger a split.
    pub closed spec fn split_enabled_spec(self, l: Level) -> bool {
        self.split_levels@[level_index_spec(l)]
    }

    /// The default configuration: auto-start on, splitting enabled for
    /// every level.
    pub fn new() -> (c: Config)
        ensures
            c.wf(),
            c.auto_start_spec(),
            forall|l: Level| c.split_enabled_spec(l),
    {
        let mut split_levels: Vec<bool> = Vec::new();
        let mut i: usize = 0;
        while i < LEVEL_COUNT
            invariant
                i <= LEVEL_COUNT,
                split_levels@.len() == i,
                forall|j: int| 0 <= j < i ==> split_levels@[j],
            decreases LEVEL_COUNT - i,
        {
            split_levels.push(true);
            i = i + 1;
        }
        Config { auto_start: true, split_levels }
    }

    /// Whether the configuration table is well-formed. Configurations built
    /// and changed through this module always are; unverified callers can
    /// test it before relying on it.
    pub fn is_wf(&self) -> (r: bool)
        ensures
            r == self.wf(),
    {
        self.split_levels.len() == LEVEL_COUNT
    }

    /// Whether the timer should start automatically.
    pub fn auto_start(&self) -> (r: bool)
        ensures
            r == self.auto_start_spec(),
    {
        self.auto_start
    }

    /// Whether finishing `l` should trigger a split.
    pub fn split_enabled(&self, l: Level) -> (r: bool)
        requires
            self.wf(),
        ensures
            r == self.split_enabled_spec(l),
    {
        let i = l.index();
        self.split_levels[i]
    }

    /// Turns the auto-start toggle on or off, leaving every split toggle
    /// as it was.
    pub fn set_auto_start(&mut self, v: bool)
        ensures
            final(self).wf() == old(self).wf(),
            final(self).auto_start_spec() == v,
            forall|l: Level| final(self).split_enabled_spec(l) == old(self).split_enabled_spec(l),
    {
        self.auto_start = v;
    }

    /// Sets the split toggle of `l` alone, leaving every other level and
    /// the auto-start toggle as they were.
    pub fn set_split_enabled(&mut self, l: Level, v: bool)
        requires
            old(self).wf(),
        ensures
            final(self).wf(),
            final(self).split_enabled_spec(l) == v,
            forall|m: Level| m != l ==> final(self).split_enabled_spec(m) == old(self).split_enabled_spec(m),
            final(self).auto_start_spec() == old(self).auto_start_spec(),
    {
        let i = l.index();
        self.split_levels.set(i, v);
        proof {
            assert forall|m: Level| m != l implies self.split_enabled_spec(m) == old(
                self,
            ).split_enabled_spec(m) by {
                lemma_level_index_injective(m, l);
            }
        }
    }
}

} // verus!
