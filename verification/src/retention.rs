//! The retention policy: rows older than a fixed horizon are purged when a
//! store handle is released.

use vstd::prelude::*;
use crate::timestamp::TimeStamp;

verus! {

/// Length of the retention horizon in days. It is fixed, not configurable.
pub const RETENTION_DAYS: i64 = 365;

/// Seconds in one day.
pub const SECONDS_PER_DAY: i64 = 86_400;

/// The retention horizon in seconds.
pub open spec fn horizon_seconds() -> int {
    RETENTION_DAYS * SECONDS_PER_DAY
}

/// The first second that a sweep at second `now` keeps.
pub open spec fn cutoff_at(now: int) -> int {
    now - horizon_seconds()
}

/// A row stamped `secs` is older than the horizon at second `now`.
pub open spec fn is_expired(secs: int, now: int) -> bool {
    secs < cutoff_at(now)
}

/// `cutoff` separates the expired seconds from the others at `now`: a row is
/// stamped below it exactly if the row is older than the horizon.
pub open spec fn bounds_expired(cutoff: i64, now: TimeStamp) -> bool {
    forall|secs: i64| secs < cutoff <==> is_expired(secs as int, now.row_seconds())
}

/// The bound handed to the engine for a sweep at `now`: every row stamped
/// strictly below it is purged.
///
/// Where `now` lies so close to the lower end of the `i64` range that the
/// horizon reaches past it, the bound is that lower end, below which no row
/// can be stamped.
pub fn retention_cutoff(now: TimeStamp) -> (cutoff: i64)
    ensures
        cutoff as int == if cutoff_at(now.row_seconds()) >= i64::MIN {
            cutoff_at(now.row_seconds())
        } else {
            i64::MIN as int
        },
        bounds_expired(cutoff, now),
    opens_invariants none
    no_unwind
{
    let horizon: i64 = RETENTION_DAYS * SECONDS_PER_DAY;
    let now_secs: i64 = now.seconds();
    if now_secs < i64::MIN + horizon {
        i64::MIN
    } else {
        now_secs - horizon
    }
}

} // verus!
