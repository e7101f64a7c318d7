use vstd::prelude::*;
use crate::clock::{date_stamp_in_range, today_stamp, DateStamp};
use crate::stats::{Stat, Stats};

verus! {

/// The rollover rule, run once at process start, before any timer activity.
///
/// If the stored date and the current date differ in year or in day of the
/// year, the `today` bucket is reset to zero; otherwise, if they differ in
/// year or in ISO week number, the `week` bucket is reset. The first match
/// wins: the two resets never happen together, and a day change leaves the
/// `week` bucket as it was. The second component says whether a reset
/// happened, so the caller knows to persist the result.
pub open spec fn spec_check_stat_reset(
    last_opened: DateStamp,
    today: DateStamp,
    stats: Stats,
) -> (Stats, bool) {
    if today.year != last_opened.year || today.ordinal != last_opened.ordinal {
        (
            Stats {
                today: Stat { minutes: 0, sessions: 0 },
                week: stats.week,
                total: stats.total,
            },
            true,
        )
    } else if today.year != last_opened.year || today.week != last_opened.week {
        (
            Stats {
                today: stats.today,
                week: Stat { minutes: 0, sessions: 0 },
                total: stats.total,
            },
            true,
        )
    } else {
        (stats, false)
    }
}

/// Applies [`spec_check_stat_reset`] to the given stored date and current
/// date: resets the `today` bucket on a day change, else the `week` bucket
/// on a week change, and reports whether anything changed.
pub fn check_stat_reset(last_opened: DateStamp, today: DateStamp, stats: &Stats) -> (r: (
    Stats,
    bool,
))
    ensures
        r == spec_check_stat_reset(last_opened, today, *stats),
{
    if today.year != last_opened.year || today.ordinal != last_opened.ordinal {
        (
            Stats {
                today: Stat { minutes: 0, sessions: 0 },
                week: stats.week,
                total: stats.total,
            },
            true,
        )
    } else if today.year != last_opened.year || today.week != last_opened.week {
        (
            Stats {
                today: stats.today,
                week: Stat { minutes: 0, sessions: 0 },
                total: stats.total,
            },
            true,
        )
    } else {
        (*stats, false)
    }
}

/// [`check_stat_reset`] against the calendar's current date: whatever date
/// the clock reports, the result is the rollover rule applied to it and the
/// reported date lies in the calendar's documented field ranges.
pub fn check_stat_reset_today(last_opened: DateStamp, stats: &Stats) -> (r: (Stats, bool))
    ensures
        exists|today: DateStamp|
            date_stamp_in_range(today) && r == spec_check_stat_reset(last_opened, today, *stats),
{
    let today: DateStamp = today_stamp();
    let r: (Stats, bool) = check_stat_reset(last_opened, today, stats);
    proof {
        assert(date_stamp_in_range(today) && r == spec_check_stat_reset(
            last_opened,
            today,
            *stats,
        ));
    }
    r
}

} // verus!
