//! Debounced value tracking: a `Watcher` holds the previous and current
//! snapshot of one sampled value and exposes edge detection between them.
//! A watcher observes no transition on its first sample: the first push
//! fills both slots with the same value.

use vstd::prelude::*;

use crate::game::GameStatus;
use crate::game::Level;

verus! {

/// The previous (`old`) and current value of one watched memory location.
#[derive(Copy, Clone, Debug, PartialEq, Eq, Structural)]
pub struct Pair<T> {
    pub old: T,
    pub current: T,
}

impl<T> Pair<T> {
    /// Whether this pair records a transition from exactly `a` to exactly `b`.
    pub open spec fn changed_from_to_spec(self, a: T, b: T) -> bool {
        self.old == a && self.current == b
    }
}

/// A one-slot history tracker: `None` until the first sample, then always a
/// previous/current pair.
#[derive(Copy, Clone, Debug, PartialEq, Eq, Structural)]
pub struct Watcher<T> {
    pub pair: Option<Pair<T>>,
}

impl<T> Watcher<T> {
    /// The pair that results from pushing `v` into this watcher: the first
    /// push fills both slots with `v`; every later push shifts the current
    /// value into the old slot.
    pub open spec fn push_spec(self, v: T) -> Watcher<T> {
        match self.pair {
            None => Watcher { pair: Some(Pair { old: v, current: v }) },
            Some(p) => Watcher { pair: Some(Pair { old: p.current, current: v }) },
        }
    }

    /// Whether the watcher currently records a transition from `a` to `b`.
    /// A watcher that has not been sampled yet records no transition.
    pub open spec fn changed_from_to_spec(self, a: T, b: T) -> bool {
        match self.pair {
            None => false,
            Some(p) => p.changed_from_to_spec(a, b),
        }
    }

    /// An empty watcher, holding no sample yet.
    pub fn new() -> (w: Watcher<T>)
        ensures
            w.pair is None,
    {
        Watcher { pair: None }
    }
}

impl<T: Copy> Watcher<T> {
    /// Pushes a freshly sampled value. This update is infallible: the caller
    /// has already collapsed any read failure into a default value.
    pub fn update(&mut self, v: T)
        ensures
            *final(self) == old(self).push_spec(v),
    {
        self.pair = match self.pair {
            None => Some(Pair { old: v, current: v }),
            Some(p) => Some(Pair { old: p.current, current: v }),
        };
    }
}

impl Pair<GameStatus> {
    /// Whether this pair records a transition from exactly `a` to exactly `b`.
    pub fn changed_from_to(&self, a: &GameStatus, b: &GameStatus) -> (r: bool)
        ensures
            r == self.changed_from_to_spec(*a, *b),
    {
        self.old == *a && self.current == *b
    }
}

impl Pair<Level> {
    /// Whether this pair records a transition from exactly `a` to exactly `b`.
    pub fn changed_from_to(&self, a: &Level, b: &Level) -> (r: bool)
        ensures
            r == self.changed_from_to_spec(*a, *b),
    {
        self.old == *a && self.current == *b
    }
}

impl Pair<bool> {
    /// Whether this pair records a transition from exactly `a` to exactly `b`.
    pub fn changed_from_to(&self, a: &bool, b: &bool) -> (r: bool)
        ensures
            r == self.changed_from_to_spec(*a, *b),
    {
        self.old == *a && self.current == *b
    }
}

/// Edge-detection law. Pushing `x` and then `y` into any watcher leaves it
/// recording exactly the transition `x` to `y`: `changed_from_to_spec(a, b)`
/// holds afterwards if and only if `x == a` and `y == b`. And the first push
/// into an empty watcher fills both slots with the pushed value, so no
/// transition between two distinct values is ever observable from it.
pub proof fn lemma_watcher_edge_detection<T>(w: Watcher<T>, x: T, y: T, a: T, b: T)
    ensures
        w.push_spec(x).push_spec(y).changed_from_to_spec(a, b) <==> (x == a && y == b),
        w.pair is None ==> (w.push_spec(x).pair matches Some(p) && p.old == x && p.current == x),
        w.pair is None && a != b ==> !w.push_spec(x).changed_from_to_spec(a, b),
{
}

} // verus!
