//! Instants, times of day and pauses, all counted in nanoseconds on the
//! Unix timeline (days of exactly 86 400 seconds, no leap seconds).

use vstd::prelude::*;

verus! {

/// Nanoseconds in one second.
pub const NANOS_PER_SECOND: u32 = 1_000_000_000;

/// Nanoseconds in one day.
pub const NANOS_PER_DAY: u64 = 86_400_000_000_000;

/// A point on the Unix timeline: whole seconds since 1970-01-01T00:00:00Z
/// and the nanoseconds elapsed within that second.
#[derive(Clone, Copy, Debug, PartialEq, Eq, PartialOrd, Ord)]
pub struct Instant {
    secs: i64,
    nanos: u32,
}

impl View for Instant {
    type V = int;

    /// Nanoseconds since the Unix epoch.
    closed spec fn view(&self) -> int {
        self.secs * 1_000_000_000 + self.nanos
    }
}

impl Instant {
    #[verifier::type_invariant]
    spec fn inv(self) -> bool {
        self.nanos < 1_000_000_000
    }

    /// The earliest instant the type can hold, in nanoseconds since the epoch.
    pub open spec fn min_nanos() -> int {
        i64::MIN * 1_000_000_000
    }

    /// The latest instant the type can hold, in nanoseconds since the epoch.
    pub open spec fn max_nanos() -> int {
        i64::MAX * 1_000_000_000 + 999_999_999
    }

    /// Whether `nanos` nanoseconds since the epoch is within the type's range.
    pub open spec fn in_range(nanos: int) -> bool {
        Self::min_nanos() <= nanos <= Self::max_nanos()
    }

    /// The instant `secs` seconds and `nanos` nanoseconds after the epoch.
    /// A nanosecond count of a second or more carries into the seconds, so
    /// that a leap second written as `:60` lands on the second that follows.
    pub fn from_unix(secs: i64, nanos: u32) -> (r: Option<Instant>)
        ensures
            r is Some <==> Self::in_range(secs * 1_000_000_000 + nanos),
            r matches Some(t) ==> t@ == secs * 1_000_000_000 + nanos,
    {
        let carry: i64 = (nanos / NANOS_PER_SECOND) as i64;
        let rest: u32 = nanos % NANOS_PER_SECOND;
        match secs.checked_add(carry) {
            Some(s) => Some(Instant { secs: s, nanos: rest }),
            None => None,
        }
    }

    /// The instant `nanos` nanoseconds after the epoch, where the type can
    /// hold it.
    pub fn from_total_nanos(nanos: i128) -> (r: Option<Instant>)
        ensures
            r is Some <==> Self::in_range(nanos as int),
            r matches Some(t) ==> t@ == nanos,
    {
        let secs: i128 = match nanos.checked_div_euclid(1_000_000_000) {
            Some(q) => q,
            None => { return None; },
        };
        let rest: i128 = match nanos.checked_rem_euclid(1_000_000_000) {
            Some(m) => m,
            None => { return None; },
        };
        if secs < i64::MIN as i128 || secs > i64::MAX as i128 {
            return None;
        }
        Some(Instant { secs: secs as i64, nanos: rest as u32 })
    }

    /// Whole seconds since the epoch, rounded towards the past.
    pub fn unix_seconds(&self) -> (r: i64)
        ensures
            r == self@ / 1_000_000_000,
    {
        proof {
            use_type_invariant(self);
        }
        self.secs
    }

    /// Nanoseconds elapsed within the current second.
    pub fn subsec_nanos(&self) -> (r: u32)
        ensures
            r == self@ % 1_000_000_000,
    {
        proof {
            use_type_invariant(self);
        }
        self.nanos
    }

    /// Nanoseconds since the epoch, as one machine integer.
    pub fn total_nanos(&self) -> (r: i128)
        ensures
            r == self@,
            Self::in_range(r as int),
    {
        proof {
            use_type_invariant(self);
        }
        self.secs as i128 * 1_000_000_000 + self.nanos as i128
    }
}

/// A time of day: the nanoseconds elapsed since midnight, always less
/// than one day.
#[derive(Clone, Copy, Debug, PartialEq, Eq, PartialOrd, Ord)]
pub struct TimeOfDay {
    nanos: u64,
}

impl View for TimeOfDay {
    type V = int;

    /// Nanoseconds since midnight.
    closed spec fn view(&self) -> int {
        self.nanos as int
    }
}

impl TimeOfDay {
    #[verifier::type_invariant]
    spec fn inv(self) -> bool {
        self.nanos < 86_400_000_000_000
    }

    /// The time of day that `nanos` nanoseconds after some midnight fall on.
    pub closed spec fn at(nanos: int) -> TimeOfDay {
        TimeOfDay { nanos: (nanos % 86_400_000_000_000) as u64 }
    }

    /// [`TimeOfDay::at`] wraps its argument into a single day.
    pub proof fn at_wraps_into_a_day(nanos: int)
        ensures
            Self::at(nanos)@ == nanos % 86_400_000_000_000,
            0 <= Self::at(nanos)@ < 86_400_000_000_000,
    {
    }

    /// The time of day `seconds` seconds and `nanos` nanoseconds after
    /// midnight, wrapped into a single day. Wrapping turns the leap second
    /// that closes a day (`23:59:60`) into the midnight that follows it.
    pub fn from_parts(seconds: u32, nanos: u32) -> (r: TimeOfDay)
        ensures
            r == Self::at(seconds * 1_000_000_000 + nanos),
            r@ == (seconds * 1_000_000_000 + nanos) % 86_400_000_000_000,
    {
        let total: u64 = seconds as u64 * 1_000_000_000 + nanos as u64;
        TimeOfDay { nanos: total % NANOS_PER_DAY }
    }

    /// Nanoseconds since midnight.
    pub fn nanos_from_midnight(&self) -> (r: u64)
        ensures
            r == self@,
            r < 86_400_000_000_000,
    {
        proof {
            use_type_invariant(self);
        }
        self.nanos
    }
}

/// A length of time to stay suspended: whole seconds and the nanoseconds
/// beyond them.
#[derive(Clone, Copy, Debug, PartialEq, Eq, PartialOrd, Ord)]
pub struct Pause {
    pub secs: u64,
    pub nanos: u32,
}

impl View for Pause {
    type V = int;

    /// The length of the pause in nanoseconds.
    open spec fn view(&self) -> int {
        self.secs * 1_000_000_000 + self.nanos
    }
}

impl Pause {
    /// The pause of `nanos` nanoseconds, split into whole seconds and the
    /// nanoseconds beyond them.
    pub open spec fn lasting(nanos: int) -> Pause {
        Pause { secs: (nanos / 1_000_000_000) as u64, nanos: (nanos % 1_000_000_000) as u32 }
    }

    /// A pause of `secs` whole seconds.
    pub fn from_secs(secs: u64) -> (r: Pause)
        ensures
            r == (Pause { secs, nanos: 0 }),
    {
        Pause { secs, nanos: 0 }
    }

    /// A pause of `nanos` nanoseconds, split into seconds and remainder.
    pub fn from_nanos(nanos: u64) -> (r: Pause)
        ensures
            r == Self::lasting(nanos as int),
            r@ == nanos,
            r.nanos < 1_000_000_000,
    {
        Pause { secs: nanos / 1_000_000_000, nanos: (nanos % 1_000_000_000) as u32 }
    }
}

} // verus!
