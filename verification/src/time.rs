//! A monotonic millisecond clock model: opaque points in time and
//! non-negative durations, both backed by 32-bit tick counts.
//!
//! The underlying hardware counter wraps silently at 2^32 ms; adding a
//! duration to an instant therefore uses the wrapping sum, by design.
//! Two instants may only be subtracted when the left operand is not
//! earlier than the right one; subtraction of a later instant from an
//! earlier one is left undefined (ruled out by precondition) rather
//! than handled silently.

use vstd::prelude::*;

verus! {

use core::cmp::Ordering;

/// A point in time, measured in milliseconds since an arbitrary epoch
/// (device power-on). Totally ordered by its tick value; comparisons are
/// only meaningful while fewer than 2^31 ticks separate the operands,
/// an accepted limitation of the wrapping hardware counter.
#[derive(Clone, Copy, PartialEq, Eq, Structural, Debug)]
pub struct Instant {
    pub millis_since_epoch: u32,
}

/// A non-negative span of time in milliseconds.
#[derive(Clone, Copy, PartialEq, Eq, Structural, Debug)]
pub struct Duration {
    pub millis: u32,
}

impl Instant {
    /// Builds the instant that lies the given number of milliseconds
    /// after the epoch; this is how a raw hardware tick reading enters
    /// the library.
    pub fn from_millis(millis: u32) -> (r: Instant)
        ensures
            r.millis_since_epoch == millis,
    {
        Instant { millis_since_epoch: millis }
    }

    /// Tick value of this instant.
    pub fn as_millis(self) -> (r: u32)
        ensures
            r == self.millis_since_epoch,
    {
        self.millis_since_epoch
    }

    /// The instant a given duration after this one, on the wrapping
    /// 32-bit tick counter.
    pub open spec fn spec_add(self, d: Duration) -> Instant {
        Instant { millis_since_epoch: self.millis_since_epoch.wrapping_add(d.millis) }
    }

    /// Deadline arithmetic: `self + d` as the wrapping sum of tick
    /// counts. No overflow is signalled, because the underlying counter
    /// itself wraps.
    pub fn wrapping_add(self, d: Duration) -> (r: Instant)
        ensures
            r == self.spec_add(d),
    {
        Instant { millis_since_epoch: self.millis_since_epoch.wrapping_add(d.millis) }
    }

    /// Elapsed time between an earlier instant and this one. Defined
    /// only when `earlier` is not after `self`; calling it the other
    /// way round is a caller error, not a silent wrap.
    pub fn duration_since(self, earlier: Instant) -> (d: Duration)
        requires
            earlier.millis_since_epoch <= self.millis_since_epoch,
        ensures
            d.millis == self.millis_since_epoch - earlier.millis_since_epoch,
    {
        Duration { millis: self.millis_since_epoch - earlier.millis_since_epoch }
    }
}

impl Duration {
    /// A duration of exactly `millis` milliseconds.
    pub fn from_millis(millis: u32) -> (r: Duration)
        ensures
            r.millis == millis,
    {
        Duration { millis }
    }

    /// Length of this duration in milliseconds.
    pub fn as_millis(self) -> (r: u32)
        ensures
            r == self.millis,
    {
        self.millis
    }
}

impl Default for Duration {
    /// The zero-length duration.
    fn default() -> (d: Duration)
        ensures
            d.millis == 0,
    {
        Duration { millis: 0 }
    }
}

impl PartialOrd for Instant {
    fn partial_cmp(&self, other: &Instant) -> (r: Option<Ordering>) {
        if self.millis_since_epoch < other.millis_since_epoch {
            Some(Ordering::Less)
        } else if self.millis_since_epoch > other.millis_since_epoch {
            Some(Ordering::Greater)
        } else {
            Some(Ordering::Equal)
        }
    }
}

impl vstd::std_specs::cmp::PartialOrdSpecImpl for Instant {
    open spec fn obeys_partial_cmp_spec() -> bool {
        true
    }

    open spec fn partial_cmp_spec(&self, other: &Instant) -> Option<Ordering> {
        if self.millis_since_epoch < other.millis_since_epoch {
            Some(Ordering::Less)
        } else if self.millis_since_epoch > other.millis_since_epoch {
            Some(Ordering::Greater)
        } else {
            Some(Ordering::Equal)
        }
    }
}

impl PartialOrd for Duration {
    fn partial_cmp(&self, other: &Duration) -> (r: Option<Ordering>) {
        if self.millis < other.millis {
            Some(Ordering::Less)
        } else if self.millis > other.millis {
            Some(Ordering::Greater)
        } else {
            Some(Ordering::Equal)
        }
    }
}

impl vstd::std_specs::cmp::PartialOrdSpecImpl for Duration {
    open spec fn obeys_partial_cmp_spec() -> bool {
        true
    }

    open spec fn partial_cmp_spec(&self, other: &Duration) -> Option<Ordering> {
        if self.millis < other.millis {
            Some(Ordering::Less)
        } else if self.millis > other.millis {
            Some(Ordering::Greater)
        } else {
            Some(Ordering::Equal)
        }
    }
}

} // verus!
