//! Spans of time and points on a monotonic clock.
//!
//! A point in time is counted from an origin that whoever reads the clock chooses once and keeps.

use vstd::prelude::*;

verus! {

/// Nanoseconds in a second.
pub const NANOS_PER_SEC: u32 = 1_000_000_000;

/// A span of time: whole seconds, and nanoseconds below one second.
#[derive(Clone, Copy, Debug, PartialEq, Eq, Structural)]
pub struct Duration {
    secs: u64,
    nanos: u32,
}

impl View for Duration {
    type V = nat;

    /// The span in nanoseconds.
    closed spec fn view(&self) -> nat {
        self.secs as nat * NANOS_PER_SEC as nat + self.nanos as nat
    }
}

impl Duration {
    #[verifier::type_invariant]
    spec fn wf(self) -> bool {
        self.nanos < NANOS_PER_SEC
    }

    /// The whole seconds of the span.
    pub open spec fn whole_secs(self) -> nat {
        self@ / NANOS_PER_SEC as nat
    }

    /// A span of whole seconds.
    pub fn from_secs(secs: u64) -> (d: Self)
        ensures
            d@ == secs * NANOS_PER_SEC,
            d.whole_secs() == secs,
    {
        Duration { secs, nanos: 0 }
    }

    /// A span of `secs` seconds and `nanos` nanoseconds.
    pub fn new(secs: u64, nanos: u32) -> (d: Self)
        requires
            nanos < NANOS_PER_SEC,
        ensures
            d@ == secs * NANOS_PER_SEC + nanos,
            d.whole_secs() == secs,
    {
        Duration { secs, nanos }
    }

    /// The whole seconds of the span.
    pub fn as_secs(&self) -> (secs: u64)
        ensures
            secs == self.whole_secs(),
    {
        proof {
            use_type_invariant(*self);
        }
        self.secs
    }

    /// The nanoseconds beyond the whole seconds.
    pub fn subsec_nanos(&self) -> (nanos: u32)
        ensures
            nanos == self@ % NANOS_PER_SEC as nat,
    {
        proof {
            use_type_invariant(*self);
        }
        self.nanos
    }

    /// Whether the span is empty.
    pub fn is_zero(&self) -> (r: bool)
        ensures
            r == (self@ == 0),
    {
        self.secs == 0 && self.nanos == 0
    }
}

/// A point in time, counted from the origin of the clock.
#[derive(Clone, Copy, Debug, PartialEq, Eq, Structural)]
pub struct Instant {
    secs: u64,
    nanos: u32,
}

impl View for Instant {
    type V = nat;

    /// Nanoseconds since the origin.
    closed spec fn view(&self) -> nat {
        self.secs as nat * NANOS_PER_SEC as nat + self.nanos as nat
    }
}

impl Instant {
    #[verifier::type_invariant]
    spec fn wf(self) -> bool {
        self.nanos < NANOS_PER_SEC
    }

    /// The last point in time that an [`Instant`] can stand for.
    pub open spec fn latest() -> nat {
        (u64::MAX as nat * NANOS_PER_SEC as nat + (NANOS_PER_SEC - 1)) as nat
    }

    /// The point in time `since_origin` after the origin.
    pub fn at(since_origin: Duration) -> (t: Self)
        ensures
            t@ == since_origin@,
    {
        proof {
            use_type_invariant(since_origin);
        }
        Instant { secs: since_origin.secs, nanos: since_origin.nanos }
    }

    /// The point in time `secs` seconds later, if it can be represented.
    pub fn checked_add_secs(&self, secs: u64) -> (r: Option<Self>)
        ensures
            r is Some <==> self@ + secs * NANOS_PER_SEC <= Self::latest(),
            r matches Some(t) ==> t@ == self@ + secs * NANOS_PER_SEC,
    {
        proof {
            use_type_invariant(*self);
        }
        match self.secs.checked_add(secs) {
            Some(total) => Some(Instant { secs: total, nanos: self.nanos }),
            None => None,
        }
    }

    /// Whether this point in time lies before `now`.
    pub fn has_passed(&self, now: Instant) -> (r: bool)
        ensures
            r == (self@ < now@),
    {
        proof {
            use_type_invariant(*self);
            use_type_invariant(now);
        }
        self.secs < now.secs || (self.secs == now.secs && self.nanos < now.nanos)
    }

    /// The span from `earlier` to this point in time, empty if `earlier` is not earlier.
    pub fn saturating_duration_since(&self, earlier: Instant) -> (d: Duration)
        ensures
            d@ == (if self@ >= earlier@ {
                (self@ - earlier@) as nat
            } else {
                0
            }),
    {
        proof {
            use_type_invariant(*self);
            use_type_invariant(earlier);
        }
        if self.secs < earlier.secs || (self.secs == earlier.secs && self.nanos <= earlier.nanos) {
            Duration { secs: 0, nanos: 0 }
        } else if self.nanos >= earlier.nanos {
            Duration { secs: self.secs - earlier.secs, nanos: self.nanos - earlier.nanos }
        } else {
            Duration {
                secs: self.secs - earlier.secs - 1,
                nanos: NANOS_PER_SEC - earlier.nanos + self.nanos,
            }
        }
    }
}

/// A point in time and the one some seconds later are apart by just these seconds, and the earlier one
/// has passed at the later one if there are any.
pub proof fn law_points_in_time_are_apart_by_what_was_added(
    t: Instant,
    secs: u64,
    later: Option<Instant>,
    span: Duration,
    passed: bool,
)
    requires
        call_ensures(Instant::checked_add_secs, (&t, secs), later),
        later matches Some(l) && call_ensures(Instant::saturating_duration_since, (&l, t), span)
            && call_ensures(Instant::has_passed, (&t, l), passed),
    ensures
        span@ == secs * 1_000_000_000,
        passed == (secs > 0),
{
}

} // verus!
