//! Timestamps. A `DateTime` is a count of microseconds since the Unix epoch;
//! the null timestamp is tick zero.

use vstd::prelude::*;

verus! {

/// A point in time, in microseconds since the Unix epoch. Tick zero is the
/// null timestamp.
#[derive(Clone, Copy, Debug, PartialEq, Eq, Structural)]
pub struct DateTime {
    /// Microseconds since the Unix epoch.
    pub ticks: i64,
}

/// Relies on chrono's `Utc::now` and `DateTime::timestamp_micros`: the current
/// UTC time as microseconds since the Unix epoch. The value depends on the
/// clock, so nothing is promised of it.
#[verifier::external_body]
fn now_ticks() -> i64 {
    chrono::Utc::now().timestamp_micros()
}

impl DateTime {
    /// The null timestamp.
    pub fn null() -> (r: DateTime)
        ensures
            r.ticks == 0,
    {
        DateTime { ticks: 0 }
    }

    /// A timestamp from a raw tick count.
    pub fn from_ticks(ticks: i64) -> (r: DateTime)
        ensures
            r.ticks == ticks,
    {
        DateTime { ticks }
    }

    /// The current time.
    pub fn now() -> DateTime {
        DateTime { ticks: now_ticks() }
    }

    /// The current time shifted by a client/server clock offset.
    /// A zero offset returns the current time unchanged.
    pub fn now_with_offset(offset: i64) -> DateTime {
        let now = now_ticks();
        DateTime { ticks: saturating_add_i64(now, offset) }
    }

    /// Whether this is the null timestamp.
    pub fn is_null(&self) -> (r: bool)
        ensures
            r == (self.ticks == 0),
    {
        self.ticks == 0
    }
}

/// Shift a timestamp by a signed offset, saturating at the representable
/// range. A zero offset leaves the timestamp unchanged.
pub fn apply_offset(t: DateTime, offset: i64) -> (r: DateTime)
    ensures
        r.ticks == spec_sat_add(t.ticks as int, offset as int),
        offset == 0 ==> r == t,
{
    DateTime { ticks: saturating_add_i64(t.ticks, offset) }
}

/// Saturating signed addition, at the specification level.
pub open spec fn spec_sat_add(a: int, b: int) -> int {
    if a + b > i64::MAX {
        i64::MAX as int
    } else if a + b < i64::MIN {
        i64::MIN as int
    } else {
        a + b
    }
}

/// Saturating signed subtraction, at the specification level.
pub open spec fn spec_sat_sub(a: int, b: int) -> int {
    if a - b > i64::MAX {
        i64::MAX as int
    } else if a - b < i64::MIN {
        i64::MIN as int
    } else {
        a - b
    }
}

/// Signed addition that saturates instead of overflowing.
pub fn saturating_add_i64(a: i64, b: i64) -> (r: i64)
    ensures
        r == spec_sat_add(a as int, b as int),
        b == 0 ==> r == a,
{
    if b >= 0 {
        if a <= i64::MAX - b {
            a + b
        } else {
            i64::MAX
        }
    } else {
        if a >= i64::MIN - b {
            a + b
        } else {
            i64::MIN
        }
    }
}

/// Signed subtraction that saturates instead of overflowing.
pub fn saturating_sub_i64(a: i64, b: i64) -> (r: i64)
    ensures
        r == spec_sat_sub(a as int, b as int),
{
    if b >= 0 {
        if a >= i64::MIN + b {
            a - b
        } else {
            i64::MIN
        }
    } else {
        if a <= i64::MAX + b {
            a - b
        } else {
            i64::MAX
        }
    }
}

} // verus!
