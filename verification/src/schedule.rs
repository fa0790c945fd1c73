//! Points in time, spans of time, and how long to wait for a deadline.

use vstd::prelude::*;

verus! {

/// Nanoseconds in a second.
pub const NANOS_PER_SECOND: u32 = 1_000_000_000;

/// A point in time: whole seconds since the Unix epoch, and the nanoseconds
/// past them.
#[derive(Clone, Copy, Debug, PartialEq, Eq)]
pub struct Instant {
    secs: i64,
    nanos: u32,
}

/// What to do about a deadline.
#[derive(Clone, Copy, Debug, PartialEq, Eq)]
pub enum Wait {
    /// The time has come: go on at once.
    Proceed,
    /// Sleep for so many nanoseconds first.
    Sleep(u128),
}

/// Seconds and nanoseconds as one count of nanoseconds.
pub open spec fn nanos_of(secs: i64, nanos: u32) -> int {
    secs * 1_000_000_000 + nanos
}

/// The nanoseconds that are left from `now` until `margin` nanoseconds
/// before `deadline`; not positive where that point is reached or past.
pub open spec fn time_left(deadline: Instant, margin: int, now: Instant) -> int {
    deadline.as_nanos() - margin - now.as_nanos()
}

impl Instant {
    #[verifier::type_invariant]
    spec fn well_formed(self) -> bool {
        self.nanos < NANOS_PER_SECOND
    }

    pub closed spec fn secs(self) -> i64 {
        self.secs
    }

    pub closed spec fn subsec_nanos(self) -> u32 {
        self.nanos
    }

    /// Nanoseconds since the Unix epoch.
    pub open spec fn as_nanos(self) -> int {
        nanos_of(self.secs(), self.subsec_nanos())
    }

    /// The instant `nanos` nanoseconds past `secs` seconds since the epoch;
    /// none where `nanos` is a second or more.
    pub fn new(secs: i64, nanos: u32) -> (r: Option<Instant>)
        ensures
            nanos < NANOS_PER_SECOND <==> r is Some,
            r matches Some(instant) ==> instant.secs() == secs && instant.subsec_nanos() == nanos,
    {
        if nanos < NANOS_PER_SECOND {
            Some(Instant { secs, nanos })
        } else {
            None
        }
    }

    /// Whole seconds since the Unix epoch.
    pub fn timestamp(&self) -> (r: i64)
        ensures
            r == self.secs(),
    {
        self.secs
    }

    /// Nanoseconds past the whole second; less than a second.
    pub fn timestamp_subsec_nanos(&self) -> (r: u32)
        ensures
            r == self.subsec_nanos(),
            r < NANOS_PER_SECOND,
    {
        proof {
            use_type_invariant(self);
        }
        self.nanos
    }

    /// Nanoseconds since the Unix epoch.
    pub fn total_nanos(&self) -> (r: i128)
        ensures
            r == self.as_nanos(),
    {
        proof {
            use_type_invariant(self);
        }
        self.secs as i128 * 1_000_000_000 + self.nanos as i128
    }

    /// The instant `seconds` whole seconds later, or earlier where `seconds`
    /// is negative; none where that cannot be written down.
    pub fn checked_add_seconds(&self, seconds: i64) -> (r: Option<Instant>)
        ensures
            i64::MIN <= self.secs() + seconds <= i64::MAX <==> r is Some,
            r matches Some(instant) ==> instant.secs() == self.secs() + seconds
                && instant.subsec_nanos() == self.subsec_nanos(),
    {
        proof {
            use_type_invariant(self);
        }
        match self.secs.checked_add(seconds) {
            Some(secs) => Some(Instant { secs, nanos: self.nanos }),
            None => None,
        }
    }

    /// From `earlier` until this instant, in nanoseconds; negative where
    /// `earlier` is the later one.
    pub fn signed_duration_since(&self, earlier: Instant) -> (r: i128)
        ensures
            r == self.as_nanos() - earlier.as_nanos(),
    {
        self.total_nanos() - earlier.total_nanos()
    }
}

/// Decides how to wait for the point `margin` nanoseconds before `deadline`:
/// to go on at once where that point is reached or past, else to sleep for
/// the time that is left. A negative margin puts the point after the
/// deadline.
pub fn wait_until(deadline: Instant, margin: i64, now: Instant) -> (r: Wait)
    ensures
        deadline.as_nanos() - margin <= now.as_nanos() <==> r is Proceed,
        r matches Wait::Sleep(nanos) ==> nanos == time_left(deadline, margin as int, now),
{
    let left: i128 = deadline.total_nanos() - margin as i128 - now.total_nanos();
    if left > 0 {
        Wait::Sleep(left as u128)
    } else {
        Wait::Proceed
    }
}

} // verus!
