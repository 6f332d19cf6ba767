//! Points in time.
use vstd::prelude::*;

verus! {

/// The first second of the calendar, counted from the start of 1970.
pub const FIRST_SECOND: i64 = -8_334_601_228_800;

/// The last second of the calendar, counted from the start of 1970.
pub const LAST_SECOND: i64 = 8_210_266_876_799;

/// Whether a second and its nanoseconds name a point in time.
///
/// A leap second is the second before it with a thousand million nanoseconds and more,
/// and can only end a minute.
pub open spec fn on_calendar(seconds: int, nanos: int) -> bool {
    &&& FIRST_SECOND <= seconds <= LAST_SECOND
    &&& 0 <= nanos < 1_000_000_000 || (nanos < 2_000_000_000 && nanos >= 0 && seconds % 60 == 59)
}

/// The quotient without its fraction.
pub open spec fn whole_part(dividend: int, divisor: int) -> int {
    if dividend >= 0 {
        dividend / divisor
    } else {
        -((-dividend) / divisor)
    }
}

/// The leap second that the distance of two times of day counts beside the ordinary
/// seconds between them, if any.
pub open spec fn leap_second_between(
    start_seconds: int,
    start_nanos: int,
    end_seconds: int,
    end_nanos: int,
) -> int {
    if end_seconds % 86_400 > start_seconds % 86_400 && start_nanos >= 1_000_000_000 {
        1
    } else if end_seconds % 86_400 < start_seconds % 86_400 && end_nanos >= 1_000_000_000 {
        -1
    } else {
        0
    }
}

/// The whole milliseconds from a start to an end.
pub open spec fn millis_between(
    start_seconds: int,
    start_nanos: int,
    end_seconds: int,
    end_nanos: int,
) -> int {
    let seconds = end_seconds - start_seconds + leap_second_between(
        start_seconds,
        start_nanos,
        end_seconds,
        end_nanos,
    );
    whole_part(seconds * 1_000_000_000 + (end_nanos - start_nanos), 1_000_000)
}

/// The whole milliseconds from a start to an end.
///
/// Calls `chrono::DateTime::signed_duration_since` and `TimeDelta::num_milliseconds` on
/// the points in time that `DateTime::from_timestamp` makes of the arguments, which it
/// does for every second of the calendar. The claim is that the distance is the exact
/// one, with a leap second counted as `leap_second_between` says, and that the fraction
/// of a millisecond is dropped.
#[verifier::external_body]
fn chrono_millis_between(
    start_seconds: i64,
    start_nanos: u32,
    end_seconds: i64,
    end_nanos: u32,
) -> (millis: i64)
    requires
        on_calendar(start_seconds as int, start_nanos as int),
        on_calendar(end_seconds as int, end_nanos as int),
    ensures
        millis == millis_between(
            start_seconds as int,
            start_nanos as int,
            end_seconds as int,
            end_nanos as int,
        ),
{
    let start = chrono::DateTime::from_timestamp(start_seconds, start_nanos).unwrap();
    let end = chrono::DateTime::from_timestamp(end_seconds, end_nanos).unwrap();
    end.signed_duration_since(start).num_milliseconds()
}

/// A point in time.
#[derive(Debug, Clone, Copy, PartialEq, Eq, Structural)]
pub struct Timestamp {
    seconds: i64,
    nanos: u32,
}

impl Timestamp {
    /// The seconds since the start of 1970.
    pub closed spec fn second(self) -> int {
        self.seconds as int
    }

    /// The nanoseconds since the start of the second.
    pub closed spec fn nano(self) -> int {
        self.nanos as int
    }

    #[verifier::type_invariant]
    spec fn well_formed(self) -> bool {
        on_calendar(self.seconds as int, self.nanos as int)
    }

    /// The point in time with these seconds since the start of 1970 and these
    /// nanoseconds, if there is one.
    pub fn at(seconds: i64, nanos: u32) -> (timestamp: Option<Self>)
        ensures
            timestamp is Some <==> on_calendar(seconds as int, nanos as int),
            timestamp matches Some(timestamp) ==> timestamp.second() == seconds
                && timestamp.nano() == nanos,
    {
        if seconds < FIRST_SECOND || seconds > LAST_SECOND {
            return None;
        }
        if nanos < 1_000_000_000 {
            return Some(Timestamp { seconds, nanos });
        }
        if nanos < 2_000_000_000 && (seconds - FIRST_SECOND) % 60 == 59 {
            proof {
                assert(FIRST_SECOND % 60 == 0);
                assert(seconds as int % 60 == 59) by {
                    let start: int = FIRST_SECOND as int;
                    assert((seconds - start) % 60 == 59);
                    assert(start % 60 == 0);
                }
            }
            return Some(Timestamp { seconds, nanos });
        }
        None
    }

    /// The seconds since the start of 1970.
    pub fn seconds(&self) -> (seconds: i64)
        ensures
            seconds == self.second(),
    {
        self.seconds
    }

    /// The nanoseconds since the start of the second.
    pub fn nanos(&self) -> (nanos: u32)
        ensures
            nanos == self.nano(),
    {
        self.nanos
    }

    /// Whether this point in time is `other` or comes before it.
    pub open spec fn not_after_spec(self, other: Self) -> bool {
        self.second() < other.second() || (self.second() == other.second() && self.nano()
            <= other.nano())
    }

    /// Whether this point in time is `other` or comes before it.
    pub fn not_after(&self, other: &Self) -> (not_after: bool)
        ensures
            not_after == self.not_after_spec(*other),
    {
        self.seconds < other.seconds || (self.seconds == other.seconds && self.nanos
            <= other.nanos)
    }

    /// The whole milliseconds from this point in time to `end`.
    pub open spec fn millis_until_spec(self, end: Self) -> int {
        millis_between(self.second(), self.nano(), end.second(), end.nano())
    }

    /// The whole milliseconds from this point in time to `end`, negative where `end`
    /// comes first.
    pub fn millis_until(&self, end: &Self) -> (millis: i64)
        ensures
            millis == self.millis_until_spec(*end),
    {
        proof {
            use_type_invariant(self);
            use_type_invariant(end);
        }
        chrono_millis_between(self.seconds, self.nanos, end.seconds, end.nanos)
    }
}

} // verus!
