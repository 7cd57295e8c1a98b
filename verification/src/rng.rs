//! Injected capability interfaces for randomness and the clock.
//!
//! The engine never draws randomness or time itself: a [`RandomSource`] and
//! a [`Clock`] are handed to [`crate::world::WorldMap`] at construction.  A
//! host wires in real entropy and a real clock; the deterministic fakes
//! below drive the engine in tests and proofs.

use vstd::prelude::*;

verus! {

/// A uniform random-integer source.  The engine only ever relies on the
/// result lying in `[0, bound)`; it never asks with `bound == 0`.
pub trait RandomSource {
    fn random_uint(&mut self, bound: usize) -> (r: usize)
        requires
            bound >= 1,
        ensures
            r < bound,
    ;
}

/// A clock-derived integer, used only to seed countdown jitter.
pub trait Clock {
    fn now(&mut self) -> usize;
}

/// A deterministic random source that replays a scripted list of draws,
/// reducing each draw modulo the requested bound, and yields 0 once the
/// script is exhausted.
pub struct ScriptedRandom {
    pub values: Vec<usize>,
    pub position: usize,
}

impl ScriptedRandom {
    /// A source that replays `values` in order.
    pub fn new(values: Vec<usize>) -> (r: ScriptedRandom)
        ensures
            r.values@ == values@,
            r.position == 0,
    {
        ScriptedRandom { values, position: 0 }
    }
}

impl RandomSource for ScriptedRandom {
    fn random_uint(&mut self, bound: usize) -> (r: usize)
        ensures
            final(self).values@ == old(self).values@,
            old(self).position < old(self).values@.len() ==> r == (old(self).values@[old(self).position as int] as int) % (bound as int) && final(self).position == old(self).position + 1,
            old(self).position >= old(self).values@.len() ==> r == 0 && final(self).position == old(self).position,
    {
        let v: usize = if self.position < self.values.len() {
            let x = self.values[self.position];
            self.position = self.position + 1;
            x
        } else {
            0
        };
        v % bound
    }
}

/// A clock frozen at one instant.
pub struct FixedClock {
    pub instant: usize,
}

impl FixedClock {
    /// A clock that always reads `instant`.
    pub fn new(instant: usize) -> (r: FixedClock)
        ensures
            r.instant == instant,
    {
        FixedClock { instant }
    }
}

impl Clock for FixedClock {
    fn now(&mut self) -> (r: usize)
        ensures
            r == old(self).instant,
            final(self).instant == old(self).instant,
    {
        self.instant
    }
}

} // verus!
