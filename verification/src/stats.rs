use vstd::prelude::*;

verus! {

/// One bucket of usage counters: accumulated minutes and completed sessions.
/// The minutes are signed because the engine measures elapsed time from the
/// newer instant back to the older one, which yields non-positive counts.
#[derive(Clone, Copy, Debug, PartialEq, Eq, Structural)]
pub struct Stat {
    pub minutes: i64,
    pub sessions: i32,
}

/// The three statistics buckets. They share one shape but reset at different
/// moments: `today` at a day boundary, `week` at an ISO-week boundary,
/// `total` never.
#[derive(Clone, Copy, Debug, PartialEq, Eq, Structural)]
pub struct Stats {
    pub today: Stat,
    pub week: Stat,
    pub total: Stat,
}

impl Default for Stat {
    /// The zero bucket: no minutes, no sessions.
    fn default() -> (r: Self)
        ensures
            r == (Stat { minutes: 0, sessions: 0 }),
    {
        Stat { minutes: 0, sessions: 0 }
    }
}

impl Default for Stats {
    /// Three zero buckets.
    fn default() -> (r: Self)
        ensures
            r.today == (Stat { minutes: 0, sessions: 0 }),
            r.week == (Stat { minutes: 0, sessions: 0 }),
            r.total == (Stat { minutes: 0, sessions: 0 }),
    {
        Stats { today: Stat::default(), week: Stat::default(), total: Stat::default() }
    }
}

/// How many sessions one transition adds to every bucket: one for a
/// completed run, none otherwise.
pub open spec fn session_increment(session_completed: bool) -> int {
    if session_completed {
        1
    } else {
        0
    }
}

/// The new bucket counts the elapsed minutes on top of the old ones, and one
/// more session exactly when the transition completed a session.
pub open spec fn stat_updated(
    old_stat: Stat,
    new_stat: Stat,
    elapsed_minutes: int,
    session_completed: bool,
) -> bool {
    &&& new_stat.minutes == old_stat.minutes + elapsed_minutes
    &&& new_stat.sessions == old_stat.sessions + session_increment(session_completed)
}

/// [`stat_updated`] for all three buckets at once: every transition updates
/// today, this week and the all-time bucket alike.
pub open spec fn stats_updated(
    old_stats: Stats,
    new_stats: Stats,
    elapsed_minutes: int,
    session_completed: bool,
) -> bool {
    &&& stat_updated(old_stats.today, new_stats.today, elapsed_minutes, session_completed)
    &&& stat_updated(old_stats.week, new_stats.week, elapsed_minutes, session_completed)
    &&& stat_updated(old_stats.total, new_stats.total, elapsed_minutes, session_completed)
}

/// The machine-width bounds under which [`update_stats`] can add without
/// overflow.
pub open spec fn stats_update_fits(
    stats: Stats,
    elapsed_minutes: int,
    session_completed: bool,
) -> bool {
    &&& i64::MIN <= stats.today.minutes + elapsed_minutes <= i64::MAX
    &&& i64::MIN <= stats.week.minutes + elapsed_minutes <= i64::MAX
    &&& i64::MIN <= stats.total.minutes + elapsed_minutes <= i64::MAX
    &&& session_completed ==> stats.today.sessions < i32::MAX
    &&& session_completed ==> stats.week.sessions < i32::MAX
    &&& session_completed ==> stats.total.sessions < i32::MAX
}

/// Adds the elapsed minutes to all three buckets, and one session to each
/// exactly when the transition completed a session.
pub fn update_stats(stats: &Stats, elapsed_minutes: i64, session_completed: bool) -> (r: Stats)
    requires
        stats_update_fits(*stats, elapsed_minutes as int, session_completed),
    ensures
        stats_updated(*stats, r, elapsed_minutes as int, session_completed),
{
    let inc: i32 = if session_completed {
        1
    } else {
        0
    };
    Stats {
        today: Stat {
            minutes: stats.today.minutes + elapsed_minutes,
            sessions: stats.today.sessions + inc,
        },
        week: Stat {
            minutes: stats.week.minutes + elapsed_minutes,
            sessions: stats.week.sessions + inc,
        },
        total: Stat {
            minutes: stats.total.minutes + elapsed_minutes,
            sessions: stats.total.sessions + inc,
        },
    }
}

/// A completed automatic forward transition adds exactly one session to each
/// of the three buckets; a user-made or backward transition adds none; and
/// either way the elapsed minutes land in all three buckets.
pub proof fn lemma_session_accounting(
    old_stats: Stats,
    new_stats: Stats,
    elapsed_minutes: int,
    is_user: bool,
    is_previous: bool,
)
    requires
        stats_updated(old_stats, new_stats, elapsed_minutes, !(is_user || is_previous)),
    ensures
        (!is_user && !is_previous) ==> {
            &&& new_stats.today.sessions == old_stats.today.sessions + 1
            &&& new_stats.week.sessions == old_stats.week.sessions + 1
            &&& new_stats.total.sessions == old_stats.total.sessions + 1
        },
        (is_user || is_previous) ==> {
            &&& new_stats.today.sessions == old_stats.today.sessions
            &&& new_stats.week.sessions == old_stats.week.sessions
            &&& new_stats.total.sessions == old_stats.total.sessions
        },
        new_stats.today.minutes == old_stats.today.minutes + elapsed_minutes,
        new_stats.week.minutes == old_stats.week.minutes + elapsed_minutes,
        new_stats.total.minutes == old_stats.total.minutes + elapsed_minutes,
{
}

} // verus!
