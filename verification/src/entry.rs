//! A single per-key counter and the origin of its current counting window.

use vstd::prelude::*;

verus! {

/// A counter together with the clock reading, in milliseconds, at which its
/// current counting window began.
///
/// An entry is stale once more than `ttl` milliseconds have passed since its
/// origin `t0`; a stale entry counts as if it had just been created.
#[derive(Clone, Copy, PartialEq, Eq, Structural)]
pub struct Entry {
    /// Requests counted since `t0`.
    pub value: u64,
    /// Clock reading at which the current counting window began.
    pub t0: u64,
}

impl Entry {
    /// The entry's window has expired: strictly more than `ttl` milliseconds
    /// lie between its origin and `now`.
    pub open spec fn spec_is_stale(self, now: u64, ttl: u64) -> bool {
        now - self.t0 > ttl
    }

    /// The entry after one increment at `now`: a stale window restarts at
    /// `now` with a count of one; otherwise the count grows by one,
    /// saturating instead of wrapping.
    pub open spec fn spec_inc(self, now: u64, ttl: u64) -> Entry {
        if self.spec_is_stale(now, ttl) {
            Entry { value: 1, t0: now }
        } else if self.value == u64::MAX {
            self
        } else {
            Entry { value: (self.value + 1) as u64, t0: self.t0 }
        }
    }

    /// A fresh entry: nothing counted yet, window starting at `now`.
    pub fn new(now: u64) -> (e: Entry)
        ensures
            e.value == 0,
            e.t0 == now,
    {
        Entry { value: 0, t0: now }
    }

    /// Whether the window must restart before the next count is recorded.
    pub fn should_reset(&self, now: u64, ttl: u64) -> (stale: bool)
        ensures
            stale == self.spec_is_stale(now, ttl),
    {
        now > self.t0 && now - self.t0 > ttl
    }

    /// Restart the window at `now` with nothing counted.
    pub fn reset(&mut self, now: u64)
        ensures
            final(self).value == 0,
            final(self).t0 == now,
    {
        self.value = 0;
        self.t0 = now;
    }

    /// Record one request at `now`: restart first if the window is stale,
    /// then count. The resulting count is always at least one.
    pub fn inc(&mut self, now: u64, ttl: u64)
        ensures
            *final(self) == old(self).spec_inc(now, ttl),
            final(self).value >= 1,
    {
        if self.should_reset(now, ttl) {
            self.reset(now);
        }
        if self.value < u64::MAX {
            self.value = self.value + 1;
        }
    }

    /// The current count, without mutation.
    pub fn get(&self) -> (v: u64)
        ensures
            v == self.value,
    {
        self.value
    }
}

} // verus!
