//! Fixed-rate deadlines on a monotonic clock counted in nanoseconds. The
//! period comes from outside: the length of one tick of the configured rate.

use vstd::prelude::*;

verus! {

/// What the caller of [`Timer::wait`] has to do next.
#[derive(Clone, Copy, Debug, PartialEq, Eq, Structural)]
pub enum Wait {
    /// The deadline lies ahead: sleep this many nanoseconds, then ask again.
    Sleep(u64),
    /// The deadline was reached, and the next one is scheduled.
    Due,
}

/// A schedule of absolute deadlines, one period apart.
#[derive(Clone, Copy, Debug)]
pub struct Timer {
    next_tick: u64,
    period: u64,
}

impl Timer {
    /// The next deadline, in nanoseconds on the caller's clock.
    pub closed spec fn deadline(&self) -> int {
        self.next_tick as int
    }

    /// The distance between two deadlines, in nanoseconds.
    pub closed spec fn interval(&self) -> int {
        self.period as int
    }

    /// A schedule of deadlines `period` nanoseconds apart, the first of them
    /// one period after `now`.
    pub fn new(period: u64, now: u64) -> (timer: Timer)
        requires
            now + period <= u64::MAX,
        ensures
            timer.interval() == period,
            timer.deadline() == now + period,
    {
        Timer { next_tick: now + period, period }
    }

    /// Compares the clock with the deadline. Before the deadline nothing
    /// changes and the remaining time is returned. From the deadline on, the
    /// deadline moves forward by exactly one period, however late `now` is, so
    /// that a late tick is caught up and never skipped.
    pub fn wait(&mut self, now: u64) -> (r: Wait)
        requires
            old(self).deadline() + old(self).interval() <= u64::MAX,
        ensures
            final(self).interval() == old(self).interval(),
            now < old(self).deadline() ==> r == Wait::Sleep((old(self).deadline() - now) as u64)
                && final(self).deadline() == old(self).deadline(),
            now >= old(self).deadline() ==> r == Wait::Due && final(self).deadline() == old(
                self,
            ).deadline() + old(self).interval(),
    {
        if now < self.next_tick {
            Wait::Sleep(self.next_tick - now)
        } else {
            self.next_tick = self.next_tick + self.period;
            Wait::Due
        }
    }

    /// The next deadline, in nanoseconds.
    pub fn next_tick(&self) -> (r: u64)
        ensures
            r == self.deadline(),
    {
        self.next_tick
    }

    /// The period, in nanoseconds.
    pub fn period(&self) -> (r: u64)
        ensures
            r == self.interval(),
    {
        self.period
    }
}

} // verus!
