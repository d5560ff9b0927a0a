//! Points in time, as the client records and compares them.

use vstd::prelude::*;

verus! {

/// Nanoseconds in one second.
pub const NANOS_PER_SECOND: u32 = 1_000_000_000;

/// Earliest second that `chrono::DateTime<Utc>` represents: the first of
/// 1 January of the year -262143.
pub const MIN_SECONDS: i64 = -8_334_601_228_800;

/// Latest second that `chrono::DateTime<Utc>` represents: the last of
/// 31 December of the year 262142.
pub const MAX_SECONDS: i64 = 8_210_266_876_799;

/// Nanoseconds since the epoch of the point `nanos` nanoseconds into the
/// second `secs`.
pub open spec fn nanos_since_epoch(secs: int, nanos: int) -> int {
    secs * 1_000_000_000 + nanos
}

/// Whole seconds from `earlier` to `later`, both in nanoseconds since the
/// epoch, rounded toward zero.
pub open spec fn whole_seconds_between(later: int, earlier: int) -> int {
    if later >= earlier {
        (later - earlier) / 1_000_000_000
    } else {
        -((earlier - later) / 1_000_000_000)
    }
}

/// The seconds and nanoseconds that a `Timestamp` can hold.
pub open spec fn representable(secs: int, nanos: int) -> bool {
    &&& MIN_SECONDS <= secs <= MAX_SECONDS
    &&& 0 <= nanos < NANOS_PER_SECOND
}

/// A point in time in UTC: whole seconds since the Unix epoch and the
/// nanoseconds into that second. Leap seconds are not represented. The
/// library reads no clock: its caller hands it the time of each operation.
#[derive(Clone, Copy, Debug, PartialEq, Eq, Structural)]
pub struct Timestamp {
    secs: i64,
    nanos: u32,
}

impl View for Timestamp {
    type V = int;

    /// Nanoseconds since the Unix epoch.
    closed spec fn view(&self) -> int {
        nanos_since_epoch(self.secs as int, self.nanos as int)
    }
}

impl Timestamp {
    #[verifier::type_invariant]
    spec fn well_formed(self) -> bool {
        representable(self.secs as int, self.nanos as int)
    }

    /// The point `nanos` nanoseconds into the second `secs`, or `None`
    /// where the two are not representable.
    pub fn new(secs: i64, nanos: u32) -> (r: Option<Timestamp>)
        ensures
            r is Some <==> representable(secs as int, nanos as int),
            r matches Some(t) ==> t@ == nanos_since_epoch(secs as int, nanos as int),
    {
        if MIN_SECONDS <= secs && secs <= MAX_SECONDS && nanos < NANOS_PER_SECOND {
            Some(Timestamp { secs, nanos })
        } else {
            None
        }
    }

    /// Whole seconds since the epoch, rounded down.
    pub fn secs(&self) -> (r: i64)
        ensures
            r == self@ / 1_000_000_000,
    {
        proof {
            use_type_invariant(self);
        }
        self.secs
    }

    /// Nanoseconds into the current second.
    pub fn nanos(&self) -> (r: u32)
        ensures
            r == self@ % 1_000_000_000,
    {
        proof {
            use_type_invariant(self);
        }
        self.nanos
    }

    /// Whole seconds from `earlier` to this point, rounded toward zero;
    /// negative where `earlier` is the later of the two.
    pub fn seconds_since(&self, earlier: &Timestamp) -> (r: i64)
        ensures
            r == whole_seconds_between(self@, earlier@),
    {
        proof {
            use_type_invariant(self);
            use_type_invariant(earlier);
        }
        seconds_between(self.secs, self.nanos, earlier.secs, earlier.nanos)
    }
}

/// Whole seconds from one point in time to another, rounded toward zero.
///
/// Builds both points with `chrono::DateTime::from_timestamp`, subtracts
/// the earlier from the later and reads `TimeDelta::num_seconds`. On
/// representable arguments `from_timestamp` succeeds; the difference of two
/// such values is exact to the nanosecond, and `num_seconds` drops its
/// fraction toward zero.
#[verifier::external_body]
fn seconds_between(later_secs: i64, later_nanos: u32, earlier_secs: i64, earlier_nanos: u32) -> (r:
    i64)
    requires
        representable(later_secs as int, later_nanos as int),
        representable(earlier_secs as int, earlier_nanos as int),
    ensures
        r == whole_seconds_between(
            nanos_since_epoch(later_secs as int, later_nanos as int),
            nanos_since_epoch(earlier_secs as int, earlier_nanos as int),
        ),
{
    let later = chrono::DateTime::from_timestamp(later_secs, later_nanos).unwrap();
    let earlier = chrono::DateTime::from_timestamp(earlier_secs, earlier_nanos).unwrap();
    (later - earlier).num_seconds()
}

} // verus!
