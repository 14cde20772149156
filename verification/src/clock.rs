//! Millisecond tick counter used for poll deadlines and settle delays.
//!
//! On hardware the counter advances by itself; in this model every poll
//! iteration and every settle delay advances it explicitly, so a deadline
//! of `n` ticks bounds a poll loop by `n` iterations. The counter
//! saturates at its maximum instead of wrapping.

use vstd::prelude::*;

verus! {

/// A monotonically advancing, saturating tick counter.
#[derive(Clone, Copy, Debug, PartialEq, Eq, Structural)]
pub struct SystemClock {
    /// Ticks elapsed since the clock was started.
    pub now: u64,
}

impl SystemClock {
    /// A clock that has just been started.
    pub fn new() -> (c: SystemClock)
        ensures
            c.now == 0,
    {
        SystemClock { now: 0 }
    }

    /// The current tick count.
    pub fn ticks(&self) -> (t: u64)
        ensures
            t == self.now,
    {
        self.now
    }

    /// One tick passes; the counter saturates at its maximum.
    pub fn tick(&mut self)
        ensures
            final(self).now == (if old(self).now == u64::MAX {
                u64::MAX as int
            } else {
                old(self).now + 1
            }),
    {
        if self.now < u64::MAX {
            self.now = self.now + 1;
        }
    }

    /// Busy-waits for the given number of milliseconds: the counter
    /// advances by that many ticks, saturating at its maximum.
    pub fn wait(&mut self, time_ms: u32)
        ensures
            final(self).now == (if old(self).now + time_ms <= u64::MAX {
                old(self).now + time_ms
            } else {
                u64::MAX as int
            }),
    {
        if self.now <= u64::MAX - (time_ms as u64) {
            self.now = self.now + (time_ms as u64);
        } else {
            self.now = u64::MAX;
        }
    }

    /// The tick at which a poll started `d` ticks from now must give up,
    /// saturating at the counter's maximum.
    pub fn deadline_after(&self, d: u64) -> (t: u64)
        ensures
            t == (if self.now + d <= u64::MAX {
                self.now + d
            } else {
                u64::MAX as int
            }),
    {
        if self.now <= u64::MAX - d {
            self.now + d
        } else {
            u64::MAX
        }
    }
}

} // verus!
