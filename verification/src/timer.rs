//! Times that come round: what is left of a period.

use vstd::prelude::*;

verus! {

/// What is left of a period that began at `since`; nothing once it is over.
pub open spec fn left(since: u64, period: u64, now: u64) -> u64 {
    if now - since >= period {
        0
    } else if now <= since {
        period
    } else {
        (period - (now - since)) as u64
    }
}

/// What is left of a period that began at `since`; nothing once it is over.
pub fn time_left(since: u64, period: u64, now: u64) -> (r: u64)
    ensures
        r == left(since, period, now),
{
    period.saturating_sub(now.saturating_sub(since))
}

/// A period is over exactly once its time has passed, and not before; whoever waits for what is
/// left of it finds it over.
pub proof fn a_period_ends_in_time(since: u64, period: u64, now: u64)
    requires
        since <= now,
        now + left(since, period, now) <= u64::MAX,
    ensures
        left(since, period, now) == 0 <==> now >= since + period,
        left(since, period, (now + left(since, period, now)) as u64) == 0,
{
}

} // verus!
