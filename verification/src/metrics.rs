//! Time counters of a partition.
//!
//! The clock is the caller's: it measures, and tells the counter what it
//! measured. A counter only ever grows, and stops at the largest value it can
//! hold.

use vstd::prelude::*;

verus! {

/// The part of `elapsed` that was not spent waiting: time that a partition
/// waits for its consumer is no compute time.
pub open spec fn without_waiting(elapsed: nat, waited: nat) -> nat {
    if waited >= elapsed {
        0
    } else {
        (elapsed - waited) as nat
    }
}

/// A counter after `nanos` more nanoseconds.
pub open spec fn timed(counted: nat, nanos: nat) -> nat {
    if counted + nanos > u64::MAX {
        u64::MAX as nat
    } else {
        counted + nanos
    }
}

/// A counter of elapsed time in nanoseconds, such as the I/O time or the
/// compute time of one partition.
pub struct Time {
    nanos: u64,
}

impl Time {
    pub closed spec fn spec_value(&self) -> u64 {
        self.nanos
    }

    /// A counter at zero.
    pub fn new() -> (time: Self)
        ensures
            time.spec_value() == 0,
    {
        Time { nanos: 0 }
    }

    /// The nanoseconds counted so far.
    #[verifier::when_used_as_spec(spec_value)]
    pub fn value(&self) -> (nanos: u64)
        ensures
            nanos == self.spec_value(),
    {
        self.nanos
    }

    /// Counts `nanos` more nanoseconds.
    pub fn add_elapsed(&mut self, nanos: u64)
        ensures
            final(self).spec_value() == timed(old(self).spec_value() as nat, nanos as nat),
            final(self).spec_value() >= old(self).spec_value(),
    {
        self.nanos = self.nanos.saturating_add(nanos);
    }

    /// Counts a span of `elapsed` nanoseconds of which `waited` were spent
    /// waiting for the consumer: the waiting is left out.
    pub fn add_compute(&mut self, elapsed: u64, waited: u64)
        ensures
            final(self).spec_value() == timed(
                old(self).spec_value() as nat,
                without_waiting(elapsed as nat, waited as nat),
            ),
            final(self).spec_value() >= old(self).spec_value(),
    {
        let share = if waited >= elapsed {
            0
        } else {
            elapsed - waited
        };
        self.nanos = self.nanos.saturating_add(share);
    }
}

} // verus!
