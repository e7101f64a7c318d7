use pomodoro_core::phase::Phase;
use pomodoro_core::settings::Settings;
use pomodoro_core::stats::{update_stats, Stat, Stats};

#[test]
fn default_stat_is_zero() {
    let s = Stat::default();
    assert_eq!(s.minutes, 0);
    assert_eq!(s.sessions, 0);
}

#[test]
fn default_stats_is_three_zero_buckets() {
    let s = Stats::default();
    assert_eq!(s.today, Stat { minutes: 0, sessions: 0 });
    assert_eq!(s.week, Stat { minutes: 0, sessions: 0 });
    assert_eq!(s.total, Stat { minutes: 0, sessions: 0 });
}

#[test]
fn update_with_completed_session_adds_everywhere() {
    let stats = Stats {
        today: Stat { minutes: 10, sessions: 1 },
        week: Stat { minutes: 20, sessions: 2 },
        total: Stat { minutes: 30, sessions: 3 },
    };
    let r = update_stats(&stats, -7, true);
    assert_eq!(r.today, Stat { minutes: 3, sessions: 2 });
    assert_eq!(r.week, Stat { minutes: 13, sessions: 3 });
    assert_eq!(r.total, Stat { minutes: 23, sessions: 4 });
}

#[test]
fn update_without_completed_session_adds_minutes_only() {
    let stats = Stats {
        today: Stat { minutes: 10, sessions: 1 },
        week: Stat { minutes: 20, sessions: 2 },
        total: Stat { minutes: 30, sessions: 3 },
    };
    let r = update_stats(&stats, 5, false);
    assert_eq!(r.today, Stat { minutes: 15, sessions: 1 });
    assert_eq!(r.week, Stat { minutes: 25, sessions: 2 });
    assert_eq!(r.total, Stat { minutes: 35, sessions: 3 });
}

#[test]
fn settings_validity_needs_positive_interval() {
    let mut s =
        Settings { work_time: 25, short_break_time: 5, long_break_time: 15, long_break_interval: 0 };
    assert!(!s.is_valid());
    s.long_break_interval = 1;
    assert!(s.is_valid());
    s.long_break_interval = -3;
    assert!(!s.is_valid());
}

#[test]
fn duration_minutes_follows_the_phase() {
    let s =
        Settings { work_time: 25, short_break_time: 5, long_break_time: 15, long_break_interval: 4 };
    assert_eq!(s.duration_minutes(Phase::Work), 25);
    assert_eq!(s.duration_minutes(Phase::ShortBreak), 5);
    assert_eq!(s.duration_minutes(Phase::LongBreak), 15);
}
