//! Collapsing bursts of events: a trigger that comes too soon after the
//! previous one is suppressed, and every trigger restarts the quiet window.

use vstd::prelude::*;

verus! {

/// The instant of the last trigger, and the quiet window that has to pass
/// after it. Instants and the window are counted in the same time unit.
#[derive(Clone, Copy, Debug, PartialEq, Eq, Structural)]
pub struct Debouncer {
    pub last: Option<u128>,
    pub window: u128,
}

/// The time that passed from `then` to `now`; none where the clock went
/// backwards.
pub open spec fn elapsed(then: u128, now: u128) -> int {
    if now >= then {
        now - then
    } else {
        0
    }
}

impl Debouncer {
    /// A trigger at `now` is suppressed: an earlier trigger exists and less
    /// than the window has passed since.
    pub open spec fn suppresses(&self, now: u128) -> bool {
        self.last matches Some(then) && elapsed(then, now) < self.window
    }

    /// The state after a trigger at `now`, suppressed or not.
    pub open spec fn triggered(&self, now: u128) -> Debouncer {
        Debouncer { last: Some(now), window: self.window }
    }

    /// A debouncer that has seen no trigger yet.
    pub fn new(window: u128) -> (fresh: Debouncer)
        ensures
            fresh == (Debouncer { last: None, window }),
    {
        Debouncer { last: None, window }
    }

    /// Records a trigger at `now` and tells whether it is suppressed.
    pub fn should_debounce(&mut self, now: u128) -> (suppressed: bool)
        ensures
            suppressed == old(self).suppresses(now),
            *final(self) == old(self).triggered(now),
    {
        let suppressed = match self.last {
            Some(then) => {
                let passed: u128 = if now >= then {
                    now - then
                } else {
                    0
                };
                passed < self.window
            },
            None => false,
        };
        self.last = Some(now);
        suppressed
    }
}

/// A burst keeps the window open: after any trigger, suppressed or not, the
/// window is counted from that trigger.
pub proof fn lemma_window_slides(debouncer: Debouncer, first: u128, second: u128)
    ensures
        debouncer.triggered(first).suppresses(second) <==> elapsed(first, second)
            < debouncer.window,
{
}

} // verus!
