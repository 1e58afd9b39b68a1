//! Instants and spans of time, held as plain integers.
//!
//! A [`Timestamp`] is an instant of UTC counted from the Unix epoch, a [`Span`]
//! is a signed length of time. Both are viewed as a whole number of
//! nanoseconds, and every contract of this crate that speaks of time speaks of
//! those numbers.

use vstd::prelude::*;

verus! {

/// The nanoseconds in a second.
pub const NANOS_PER_SEC: i64 = 1_000_000_000;

/// The nanoseconds in an hour.
pub const NANOS_PER_HOUR: i64 = 3_600_000_000_000;

/// The seconds in an hour.
pub const SECS_PER_HOUR: i64 = 3_600;

/// Seconds since the epoch of the earliest instant a [`Timestamp`] can hold:
/// midnight of 1 January of the year -262143.
pub const MIN_TIMESTAMP_SECS: i64 = -8_334_601_228_800;

/// Seconds since the epoch of the last second a [`Timestamp`] can hold:
/// 23:59:59 of 31 December of the year 262142.
pub const MAX_TIMESTAMP_SECS: i64 = 8_210_266_876_799;

/// The quotient of `n` by a positive `unit`, rounded toward zero.
pub open spec fn div_toward_zero(n: int, unit: int) -> int {
    if n >= 0 {
        n / unit
    } else {
        -((-n) / unit)
    }
}

/// The whole hours in a span of `nanos` nanoseconds, rounded toward zero.
pub open spec fn whole_hours(nanos: int) -> int {
    div_toward_zero(nanos, NANOS_PER_HOUR as int)
}

/// A signed length of time with nanosecond precision.
///
/// It is kept as whole seconds and the nanoseconds beyond them, both of the
/// sign of the span. Its view is the span in nanoseconds.
#[derive(Clone, Copy, Debug, PartialEq, Eq, Structural)]
pub struct Span {
    secs: i64,
    nanos: i32,
}

impl View for Span {
    type V = int;

    /// The span in nanoseconds.
    closed spec fn view(&self) -> int {
        self.secs * NANOS_PER_SEC + self.nanos
    }
}

impl Span {
    /// Whether `secs` whole seconds and `nanos` further nanoseconds form a span:
    /// less than a second of nanoseconds, and none that run against the seconds.
    pub open spec fn valid_parts(secs: int, nanos: int) -> bool {
        &&& -NANOS_PER_SEC < nanos < NANOS_PER_SEC
        &&& secs > 0 ==> nanos >= 0
        &&& secs < 0 ==> nanos <= 0
    }

    /// Holds of every span: its two parts are valid together.
    #[verifier::type_invariant]
    pub closed spec fn wf(self) -> bool {
        Self::valid_parts(self.secs as int, self.nanos as int)
    }

    /// The span of `secs` seconds and `nanos` nanoseconds, if the two agree in sign.
    pub fn new(secs: i64, nanos: i32) -> (r: Option<Span>)
        ensures
            r is Some <==> Self::valid_parts(secs as int, nanos as int),
            r matches Some(d) ==> d.wf() && d@ == secs * NANOS_PER_SEC + nanos,
    {
        let within_a_second: bool = -1_000_000_000 < nanos && nanos < 1_000_000_000;
        let of_one_sign: bool = (secs <= 0 || nanos >= 0) && (secs >= 0 || nanos <= 0);
        if within_a_second && of_one_sign {
            Some(Span { secs, nanos })
        } else {
            None
        }
    }

    /// The whole seconds of the span, rounded toward zero.
    pub fn num_seconds(&self) -> (r: i64)
        ensures
            r == div_toward_zero(self@, NANOS_PER_SEC as int),
    {
        proof {
            use_type_invariant(self);
        }
        self.secs
    }

    /// What is left of the span beyond its whole seconds, in nanoseconds.
    pub fn subsec_nanos(&self) -> (r: i32)
        ensures
            r == self@ - div_toward_zero(self@, NANOS_PER_SEC as int) * NANOS_PER_SEC,
    {
        proof {
            use_type_invariant(self);
        }
        self.nanos
    }

    /// The whole hours of the span, rounded toward zero.
    pub fn num_hours(&self) -> (r: i64)
        ensures
            r == whole_hours(self@),
    {
        proof {
            use_type_invariant(self);
        }
        self.secs / SECS_PER_HOUR
    }

    /// Whether this span is no longer than `other`.
    pub fn is_at_most(&self, other: &Span) -> (r: bool)
        ensures
            r == (self@ <= other@),
    {
        proof {
            use_type_invariant(self);
            use_type_invariant(other);
        }
        self.secs < other.secs || (self.secs == other.secs && self.nanos <= other.nanos)
    }
}

/// An instant of UTC between the years -262143 and 262142, without leap seconds.
///
/// It is kept as the whole seconds since 1970-01-01T00:00:00Z, rounded down,
/// and the nanoseconds into that second. Its view is the nanoseconds since the
/// epoch.
#[derive(Clone, Copy, Debug, PartialEq, Eq, Structural)]
pub struct Timestamp {
    secs: i64,
    nanos: u32,
}

impl View for Timestamp {
    type V = int;

    /// The nanoseconds from the epoch to the instant.
    closed spec fn view(&self) -> int {
        self.secs * NANOS_PER_SEC + self.nanos
    }
}

impl Timestamp {
    /// Whether `secs` seconds since the epoch and `nanos` nanoseconds into
    /// that second name an instant that a timestamp can hold.
    pub open spec fn valid_parts(secs: int, nanos: int) -> bool {
        &&& MIN_TIMESTAMP_SECS <= secs <= MAX_TIMESTAMP_SECS
        &&& 0 <= nanos < NANOS_PER_SEC
    }

    /// Holds of every timestamp: its two parts are valid together.
    #[verifier::type_invariant]
    pub closed spec fn wf(self) -> bool {
        Self::valid_parts(self.secs as int, self.nanos as int)
    }

    /// The instant `nanos` nanoseconds after the second `secs` of the epoch,
    /// if it is in range.
    pub fn new(secs: i64, nanos: u32) -> (r: Option<Timestamp>)
        ensures
            r is Some <==> Self::valid_parts(secs as int, nanos as int),
            r matches Some(t) ==> t.wf() && t@ == secs * NANOS_PER_SEC + nanos,
    {
        if MIN_TIMESTAMP_SECS <= secs && secs <= MAX_TIMESTAMP_SECS && nanos < 1_000_000_000 {
            Some(Timestamp { secs, nanos })
        } else {
            None
        }
    }

    /// The whole seconds since the epoch, rounded down.
    pub fn secs(&self) -> (r: i64)
        ensures
            r == self@ / (NANOS_PER_SEC as int),
    {
        proof {
            use_type_invariant(self);
        }
        self.secs
    }

    /// The nanoseconds since the last whole second.
    pub fn subsec_nanos(&self) -> (r: u32)
        ensures
            r == self@ % (NANOS_PER_SEC as int),
    {
        proof {
            use_type_invariant(self);
        }
        self.nanos
    }

    /// Whether this instant comes strictly before `other`.
    pub fn is_before(&self, other: &Timestamp) -> (r: bool)
        ensures
            r == (self@ < other@),
    {
        proof {
            use_type_invariant(self);
            use_type_invariant(other);
        }
        self.secs < other.secs || (self.secs == other.secs && self.nanos < other.nanos)
    }

    /// The time that passed from `earlier` to this instant; negative if this
    /// instant is the earlier one.
    pub fn signed_duration_since(&self, earlier: &Timestamp) -> (d: Span)
        ensures
            d@ == self@ - earlier@,
    {
        proof {
            use_type_invariant(self);
            use_type_invariant(earlier);
        }
        chrono_signed_duration_since(self, earlier)
    }
}

/// Trusted: `chrono::DateTime::<Utc>::signed_duration_since`, on the two
/// instants as `DateTime::from_timestamp` makes them, read back through
/// `TimeDelta::num_seconds` and `TimeDelta::subsec_nanos`.
///
/// The contract claims that chrono makes an instant of every timestamp this
/// type can hold, that the difference of two instants without leap seconds is
/// the difference of their nanoseconds since the epoch, and that the two
/// readings are of one sign and add up to it.
#[verifier::external_body]
fn chrono_signed_duration_since(later: &Timestamp, earlier: &Timestamp) -> (d: Span)
    requires
        later.wf(),
        earlier.wf(),
    ensures
        d.wf(),
        d@ == later@ - earlier@,
{
    let end = chrono::DateTime::from_timestamp(later.secs, later.nanos).unwrap();
    let start = chrono::DateTime::from_timestamp(earlier.secs, earlier.nanos).unwrap();
    let delta = end.signed_duration_since(start);
    Span { secs: delta.num_seconds(), nanos: delta.subsec_nanos() }
}

} // verus!
