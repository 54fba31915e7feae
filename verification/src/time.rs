//! Instants and non-negative durations with nanosecond precision.
//!
//! Both are a count of whole seconds together with a sub-second remainder.
//! Their meaning in contracts is the total number of nanoseconds, given by
//! `as_nanos`.

use vstd::prelude::*;

verus! {

/// Nanoseconds in one second.
pub const NANOS_PER_SECOND: u32 = 1_000_000_000;

/// Seconds in one minute.
pub const SECONDS_PER_MINUTE: u64 = 60;

/// A point in time: whole seconds since the epoch and the nanoseconds past
/// that second.
#[derive(Clone, Copy, Debug, PartialEq, Eq, Structural)]
pub struct Timestamp {
    pub secs: i64,
    pub nanos: u32,
}

/// A non-negative length of time.
#[derive(Clone, Copy, Debug, PartialEq, Eq, Structural)]
pub struct Span {
    pub secs: u64,
    pub nanos: u32,
}

impl Timestamp {
    /// The sub-second part is a proper remainder.
    pub open spec fn wf(self) -> bool {
        self.nanos < NANOS_PER_SECOND
    }

    /// Nanoseconds since the epoch.
    pub open spec fn as_nanos(self) -> int {
        self.secs * 1_000_000_000 + self.nanos
    }

    /// Builds a timestamp, refusing a sub-second part of a second or more.
    pub fn new(secs: i64, nanos: u32) -> (t: Option<Timestamp>)
        ensures
            t == if nanos < NANOS_PER_SECOND {
                Some(Timestamp { secs, nanos })
            } else {
                None::<Timestamp>
            },
    {
        if nanos < NANOS_PER_SECOND {
            Some(Timestamp { secs, nanos })
        } else {
            None
        }
    }

    /// Nanoseconds since the epoch, as a machine integer.
    pub fn total_nanos(&self) -> (n: i128)
        ensures
            n == self.as_nanos(),
    {
        self.secs as i128 * 1_000_000_000 + self.nanos as i128
    }

    /// Whether `self` lies strictly before `other`.
    pub fn is_before(&self, other: &Timestamp) -> (b: bool)
        ensures
            b == (self.as_nanos() < other.as_nanos()),
    {
        self.total_nanos() < other.total_nanos()
    }

    /// The time elapsed from `earlier` to `self`, or `None` when `earlier`
    /// lies after `self`.
    pub fn since(&self, earlier: &Timestamp) -> (d: Option<Span>)
        requires
            self.wf(),
            earlier.wf(),
        ensures
            match d {
                Some(span) => span.wf() && span.as_nanos() == self.as_nanos() - earlier.as_nanos(),
                None => self.as_nanos() < earlier.as_nanos(),
            },
    {
        let gap: i128 = self.total_nanos() - earlier.total_nanos();
        if gap < 0 {
            None
        } else {
            let secs: i128 = gap / 1_000_000_000;
            let nanos: i128 = gap % 1_000_000_000;
            Some(Span { secs: secs as u64, nanos: nanos as u32 })
        }
    }
}

impl Span {
    /// The sub-second part is a proper remainder.
    pub open spec fn wf(self) -> bool {
        self.nanos < NANOS_PER_SECOND
    }

    /// The length in nanoseconds.
    pub open spec fn as_nanos(self) -> int {
        self.secs * 1_000_000_000 + self.nanos
    }

    /// A span of whole seconds.
    pub fn from_seconds(secs: u64) -> (d: Span)
        ensures
            d == (Span { secs, nanos: 0 }),
    {
        Span { secs, nanos: 0 }
    }

    /// A span of whole minutes, or `None` when the seconds do not fit.
    pub fn from_minutes(minutes: u64) -> (d: Option<Span>)
        ensures
            d == if minutes * 60 <= u64::MAX {
                Some(Span { secs: (minutes * 60) as u64, nanos: 0 })
            } else {
                None::<Span>
            },
    {
        match minutes.checked_mul(SECONDS_PER_MINUTE) {
            Some(secs) => Some(Span { secs, nanos: 0 }),
            None => None,
        }
    }

    /// The length in nanoseconds, as a machine integer.
    pub fn total_nanos(&self) -> (n: i128)
        ensures
            n == self.as_nanos(),
    {
        self.secs as i128 * 1_000_000_000 + self.nanos as i128
    }

    /// The whole minutes in the span, rounded down.
    pub fn whole_minutes(&self) -> (m: u64)
        ensures
            m == self.secs / 60,
            self.wf() ==> m == self.as_nanos() / 60_000_000_000,
    {
        self.secs / SECONDS_PER_MINUTE
    }
}

} // verus!
