//! A model of the sweep's global concurrency ceiling: a counting limiter
//! acquired around each individual probe and released right after it.
//!
//! The invariant carried by every state of the limiter is the law of the
//! ceiling: the number of probes in flight never exceeds the configured
//! capacity. The asynchronous limiter used around real network probes lives
//! outside the library and follows the same discipline.

use vstd::prelude::*;

verus! {

/// A counting limiter with a fixed capacity.
pub struct Limiter {
    pub capacity: usize,
    pub in_flight: usize,
}

impl Limiter {
    /// The ceiling law: admitted probes never exceed the capacity.
    pub open spec fn wf(self) -> bool {
        self.in_flight <= self.capacity
    }

    /// A fresh limiter with the configured ceiling and nothing in flight.
    pub fn new(capacity: usize) -> (r: Limiter)
        ensures
            r.wf(),
            r.capacity == capacity,
            r.in_flight == 0,
    {
        Limiter { capacity, in_flight: 0 }
    }

    /// Admits one probe when a slot is free; admission never pushes the
    /// in-flight count past the capacity.
    pub fn try_acquire(&mut self) -> (admitted: bool)
        requires
            old(self).wf(),
        ensures
            final(self).wf(),
            final(self).capacity == old(self).capacity,
            admitted == (old(self).in_flight < old(self).capacity),
            admitted ==> final(self).in_flight == old(self).in_flight + 1,
            !admitted ==> final(self).in_flight == old(self).in_flight,
    {
        if self.in_flight < self.capacity {
            self.in_flight = self.in_flight + 1;
            true
        } else {
            false
        }
    }

    /// Releases the slot of one finished probe.
    pub fn release(&mut self)
        requires
            old(self).wf(),
            old(self).in_flight > 0,
        ensures
            final(self).wf(),
            final(self).capacity == old(self).capacity,
            final(self).in_flight == old(self).in_flight - 1,
    {
        self.in_flight = self.in_flight - 1;
    }
}

} // verus!
