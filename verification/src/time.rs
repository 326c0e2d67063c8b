//! Spans of time.

use vstd::prelude::*;

verus! {

/// The number of nanoseconds in a second.
pub const NANOS_PER_SEC: u32 = 1_000_000_000;

/// A span of time, to the nanosecond.
#[derive(Debug, Clone, Copy, PartialEq, Eq, Structural, Hash)]
pub struct Duration {
    /// Whole seconds.
    pub secs: u64,
    /// Nanoseconds beyond the whole seconds.
    pub nanos: u32,
}

impl Duration {
    /// Whether the nanoseconds make up less than a second.
    pub open spec fn well_formed(self) -> bool {
        self.nanos < NANOS_PER_SEC
    }

    /// The length of the span in nanoseconds.
    pub open spec fn as_nanos(self) -> nat {
        self.secs as nat * 1_000_000_000 + self.nanos as nat
    }

    /// A span of whole seconds.
    pub fn from_secs(secs: u64) -> (r: Duration)
        ensures
            r.well_formed(),
            r == (Duration { secs, nanos: 0 }),
    {
        Duration { secs, nanos: 0 }
    }

    /// A span of whole milliseconds.
    pub fn from_millis(millis: u64) -> (r: Duration)
        ensures
            r.well_formed(),
            r.as_nanos() == millis as nat * 1_000_000,
    {
        Duration { secs: millis / 1000, nanos: ((millis % 1000) as u32) * 1_000_000 }
    }

    /// Whether this span is shorter than another.
    pub fn is_shorter_than(self, other: Duration) -> (r: bool)
        requires
            self.well_formed(),
            other.well_formed(),
        ensures
            r == (self.as_nanos() < other.as_nanos()),
    {
        self.secs < other.secs || (self.secs == other.secs && self.nanos < other.nanos)
    }

    /// The shorter of two spans.
    pub fn shorter(self, other: Duration) -> (r: Duration)
        requires
            self.well_formed(),
            other.well_formed(),
        ensures
            r == self || r == other,
            r.as_nanos() <= self.as_nanos(),
            r.as_nanos() <= other.as_nanos(),
    {
        if other.is_shorter_than(self) {
            other
        } else {
            self
        }
    }

    /// What is left of this span when another is taken off; nothing where the other is longer.
    pub fn saturating_sub(self, other: Duration) -> (r: Duration)
        requires
            self.well_formed(),
            other.well_formed(),
        ensures
            r.well_formed(),
            r.as_nanos() == (if self.as_nanos() < other.as_nanos() {
                0
            } else {
                self.as_nanos() - other.as_nanos()
            }),
    {
        if self.is_shorter_than(other) {
            Duration { secs: 0, nanos: 0 }
        } else if self.nanos < other.nanos {
            Duration {
                secs: self.secs - other.secs - 1,
                nanos: self.nanos + NANOS_PER_SEC - other.nanos,
            }
        } else {
            Duration { secs: self.secs - other.secs, nanos: self.nanos - other.nanos }
        }
    }
}

/// A span of time lasts a thousand million nanoseconds for each of its seconds, and its
/// nanoseconds; so the longer of two is the one with more seconds, or with more nanoseconds where
/// the seconds are the same.
pub proof fn law_spans_are_as_long_as_their_parts(a: Duration, b: Duration)
    requires
        a.well_formed(),
        b.well_formed(),
    ensures
        a.as_nanos() == a.secs * 1_000_000_000 + a.nanos,
        a.nanos < 1_000_000_000,
        a.as_nanos() < b.as_nanos() <==> a.secs < b.secs || (a.secs == b.secs && a.nanos < b.nanos),
        a.as_nanos() == b.as_nanos() <==> a == b,
{
}

/// Spans are reckoned with by their length in nanoseconds: made of seconds or milliseconds, one is
/// compared with another, the shorter of two is one of them, and what is left when one is taken off
/// another is the difference, or nothing.
pub proof fn law_spans_are_reckoned_with_by_length(
    count: u64,
    a: Duration,
    b: Duration,
    seconds: Duration,
    millis: Duration,
    is_shorter: bool,
    shorter: Duration,
    left: Duration,
)
    requires
        a.nanos < 1_000_000_000,
        b.nanos < 1_000_000_000,
        call_ensures(Duration::from_secs, (count,), seconds),
        call_ensures(Duration::from_millis, (count,), millis),
        call_ensures(Duration::is_shorter_than, (a, b), is_shorter),
        call_ensures(Duration::shorter, (a, b), shorter),
        call_ensures(Duration::saturating_sub, (a, b), left),
    ensures
        ({
            let long_a = a.secs * 1_000_000_000 + a.nanos;
            let long_b = b.secs * 1_000_000_000 + b.nanos;
            &&& seconds.secs == count && seconds.nanos == 0
            &&& millis.secs * 1_000_000_000 + millis.nanos == count * 1_000_000
            &&& millis.nanos < 1_000_000_000
            &&& is_shorter <==> long_a < long_b
            &&& shorter == (if long_b < long_a {
                b
            } else {
                a
            })
            &&& left.nanos < 1_000_000_000
            &&& left.secs * 1_000_000_000 + left.nanos == (if long_a < long_b {
                0
            } else {
                long_a - long_b
            })
        }),
{
    law_spans_are_as_long_as_their_parts(a, b);
}

} // verus!
