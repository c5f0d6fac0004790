//! Schedule policy: when the next run of a repeating definition is due.
use vstd::prelude::*;

verus! {

/// Unit of a repeat specification.
#[derive(Clone, Copy, Debug, PartialEq, Eq, Structural)]
pub enum ExecuteType {
    Seconds,
    Minutes,
    Hours,
    Days,
}

/// Exact number of seconds in one unit.
pub open spec fn unit_seconds(unit: ExecuteType) -> int {
    match unit {
        ExecuteType::Seconds => 1,
        ExecuteType::Minutes => 60,
        ExecuteType::Hours => 3600,
        ExecuteType::Days => 86400,
    }
}

/// The instant `magnitude` units after `now`, in seconds.
pub open spec fn next_run_at(now: int, unit: ExecuteType, magnitude: int) -> int {
    now + magnitude * unit_seconds(unit)
}

/// A repeat step can be taken: the magnitude is positive and the result is an `i64`.
pub open spec fn next_run_defined(now: int, unit: ExecuteType, magnitude: int) -> bool {
    &&& magnitude >= 1
    &&& i64::MIN <= next_run_at(now, unit, magnitude) <= i64::MAX
}

impl ExecuteType {
    /// Number of seconds in one unit of `self`.
    pub fn seconds(&self) -> (r: i64)
        ensures
            r == unit_seconds(*self),
    {
        match self {
            ExecuteType::Seconds => 1,
            ExecuteType::Minutes => 60,
            ExecuteType::Hours => 3600,
            ExecuteType::Days => 86400,
        }
    }
}

/// Next run timestamp (seconds) for a repeat of `magnitude` units after `now`.
/// `None` when the magnitude is below one or the result does not fit an `i64`.
pub fn next_run(now: i64, unit: ExecuteType, magnitude: i64) -> (r: Option<i64>)
    ensures
        r == (if next_run_defined(now as int, unit, magnitude as int) {
            Some(next_run_at(now as int, unit, magnitude as int) as i64)
        } else {
            None
        }),
{
    if magnitude < 1 {
        return None;
    }
    let secs = unit.seconds();
    assert(0 < magnitude * secs <= i64::MAX * 86400) by (nonlinear_arith)
        requires
            1 <= magnitude <= i64::MAX,
            1 <= secs <= 86400,
    ;
    let step: i128 = magnitude as i128 * secs as i128;
    let total: i128 = now as i128 + step;
    if total < i64::MIN as i128 || total > i64::MAX as i128 {
        None
    } else {
        Some(total as i64)
    }
}

/// For every unit and magnitude for which a next run exists, it lies exactly
/// `magnitude` times the unit's second count after `now`.
pub proof fn lemma_next_run_offset(now: i64, unit: ExecuteType, magnitude: i64)
    requires
        next_run_defined(now as int, unit, magnitude as int),
    ensures
        next_run_at(now as int, unit, magnitude as int) - now == magnitude * unit_seconds(unit),
        unit_seconds(unit) == 1 || unit_seconds(unit) == 60 || unit_seconds(unit) == 3600
            || unit_seconds(unit) == 86400,
{
}

} // verus!
