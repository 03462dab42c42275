//! Points in time as the store sees them: whole seconds since the Unix epoch
//! plus a sub-second remainder that never reaches the database.

use vstd::prelude::*;

verus! {

/// A calendar-naive point in time: `secs` whole seconds since
/// 1970-01-01T00:00:00 and `nanos` nanoseconds past that second.
///
/// No time zone is attached; callers keep their zone handling consistent.
#[derive(Clone, Copy, Debug, PartialEq, Eq, Structural)]
pub struct TimeStamp {
    pub secs: i64,
    pub nanos: u32,
}

impl TimeStamp {
    /// The integer that keys a row: the whole seconds, with the sub-second
    /// part discarded.
    pub open spec fn row_seconds(self) -> int {
        self.secs as int
    }

    /// Two time stamps that differ at most in their sub-second part.
    pub open spec fn same_second(self, other: TimeStamp) -> bool {
        self.secs == other.secs
    }

    /// The same instant cut down to second resolution.
    pub open spec fn truncated_spec(self) -> TimeStamp {
        TimeStamp { secs: self.secs, nanos: 0 }
    }

    /// A time stamp from seconds and a sub-second remainder.
    pub fn new(secs: i64, nanos: u32) -> (t: TimeStamp)
        ensures
            t.secs == secs,
            t.nanos == nanos,
    {
        TimeStamp { secs, nanos }
    }

    /// The time stamp at the start of second `secs`.
    pub fn from_seconds(secs: i64) -> (t: TimeStamp)
        ensures
            t.secs == secs,
            t.nanos == 0,
        opens_invariants none
        no_unwind
    {
        TimeStamp { secs, nanos: 0 }
    }

    /// Whole seconds since the epoch; this is the value stored with a row.
    pub fn seconds(&self) -> (s: i64)
        ensures
            s as int == self.row_seconds(),
        opens_invariants none
        no_unwind
    {
        self.secs
    }

    /// The same instant cut down to second resolution.
    pub fn truncated(&self) -> (t: TimeStamp)
        ensures
            t == self.truncated_spec(),
            t.same_second(*self),
    {
        TimeStamp { secs: self.secs, nanos: 0 }
    }
}

/// Time stamps that differ only below the second key the same row.
pub proof fn same_second_same_row(a: TimeStamp, b: TimeStamp)
    requires
        a.same_second(b),
    ensures
        a.row_seconds() == b.row_seconds(),
        a.truncated_spec() == b.truncated_spec(),
{
}

} // verus!
