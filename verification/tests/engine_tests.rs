use pomodoro_core::engine::{Rearm, Timer, WaitEffect};
use pomodoro_core::phase::Phase;
use pomodoro_core::settings::Settings;
use pomodoro_core::stats::{Stat, Stats};

fn example_settings() -> Settings {
    Settings { work_time: 25, short_break_time: 5, long_break_time: 15, long_break_interval: 4 }
}

fn example_stats() -> Stats {
    Stats {
        today: Stat { minutes: 42, sessions: 2 },
        week: Stat { minutes: 100, sessions: 5 },
        total: Stat { minutes: 1000, sessions: 50 },
    }
}

#[test]
fn new_engine_starts_paused_in_work() {
    let t = Timer::new(1_000_000);
    assert!(t.paused);
    assert_eq!(t.remaining, 0);
    assert_eq!(t.phase, Phase::Work);
    assert_eq!(t.last_update, 1_000_000);
    assert_eq!(t.session_number, 0);
}

#[test]
fn new_now_starts_paused_in_work() {
    let t = Timer::new_now();
    assert!(t.paused);
    assert_eq!(t.remaining, 0);
    assert_eq!(t.phase, Phase::Work);
    assert_eq!(t.session_number, 0);
}

// The forward trigger compares a remainder with the interval itself, which a
// remainder can never reach: even at session number 4 with interval 4 the
// forward rule yields the short break. (The backward rule's `== 0` test is
// the one that fires; asserting LongBreak here is the regression to watch.)
#[test]
fn forward_from_work_at_interval_is_short_break() {
    let settings = example_settings();
    let mut t = Timer::new(0);
    t.session_number = 4;
    assert_eq!(t.get_next_phase(&settings), Phase::ShortBreak);
}

#[test]
fn forward_trigger_never_fires() {
    for interval in 1..=5i32 {
        let settings = Settings {
            work_time: 25,
            short_break_time: 5,
            long_break_time: 15,
            long_break_interval: interval,
        };
        for session in -10..=10i32 {
            let mut t = Timer::new(0);
            t.session_number = session;
            assert_eq!(t.get_next_phase(&settings), Phase::ShortBreak);
        }
    }
}

#[test]
fn forward_from_breaks_returns_to_work() {
    let settings = example_settings();
    let mut t = Timer::new(0);
    t.phase = Phase::ShortBreak;
    assert_eq!(t.get_next_phase(&settings), Phase::Work);
    t.phase = Phase::LongBreak;
    assert_eq!(t.get_next_phase(&settings), Phase::Work);
}

#[test]
fn backward_from_work_fires_on_multiples() {
    let settings = example_settings();
    let mut t = Timer::new(0);
    for (session, expected) in [
        (0, Phase::LongBreak),
        (3, Phase::ShortBreak),
        (4, Phase::LongBreak),
        (5, Phase::ShortBreak),
        (-4, Phase::LongBreak),
        (-3, Phase::ShortBreak),
        (8, Phase::LongBreak),
    ] {
        t.session_number = session;
        assert_eq!(t.get_previous_phase(&settings), expected);
    }
}

#[test]
fn backward_trigger_fires_once_per_interval_window() {
    let settings = example_settings();
    let mut t = Timer::new(0);
    for window_start in [0i32, 4, 8, -8] {
        let mut long_breaks = 0;
        for offset in 0..4i32 {
            t.session_number = window_start + offset;
            if t.get_previous_phase(&settings) == Phase::LongBreak {
                long_breaks += 1;
            }
        }
        assert_eq!(long_breaks, 1);
    }
}

#[test]
fn backward_from_breaks_returns_to_work() {
    let settings = example_settings();
    let mut t = Timer::new(0);
    t.phase = Phase::ShortBreak;
    assert_eq!(t.get_previous_phase(&settings), Phase::Work);
    t.phase = Phase::LongBreak;
    assert_eq!(t.get_previous_phase(&settings), Phase::Work);
}

#[test]
fn switch_target_follows_the_direction() {
    let settings = example_settings();
    let mut t = Timer::new(0);
    t.session_number = 4;
    assert_eq!(t.switch_target(false, &settings), Phase::ShortBreak);
    assert_eq!(t.switch_target(true, &settings), Phase::LongBreak);
    t.phase = Phase::LongBreak;
    assert_eq!(t.switch_target(false, &settings), Phase::Work);
    assert_eq!(t.switch_target(true, &settings), Phase::Work);
}

#[test]
fn forward_cycles_alternate_work_and_break() {
    let settings = example_settings();
    let mut t = Timer::new(0);
    let mut stats = Stats::default();
    let mut now = 0i64;
    for _cycle in 0..8 {
        assert_eq!(t.phase, Phase::Work);
        now += 60;
        let next = t.get_next_phase(&settings);
        assert_ne!(next, Phase::Work);
        let (_, s) = t.switch_phase(next, false, false, &settings, now, &stats);
        stats = s;
        assert_eq!(t.phase, Phase::ShortBreak);
        now += 60;
        let back = t.get_next_phase(&settings);
        assert_eq!(back, Phase::Work);
        let (_, s) = t.switch_phase(back, false, false, &settings, now, &stats);
        stats = s;
    }
    assert_eq!(t.session_number, 16);
    assert_eq!(stats.today.sessions, 16);
}

#[test]
fn pause_cancels_and_resume_rearms_full_duration() {
    let settings = example_settings();
    let mut t = Timer::new(500);
    t.phase = Phase::ShortBreak;
    t.session_number = 3;
    t.remaining = 5;
    t.paused = false;

    let e1 = t.pause(true, &settings);
    assert_eq!(e1, WaitEffect::Cancelled);
    assert!(t.paused);
    assert_eq!(t.phase, Phase::ShortBreak);
    assert_eq!(t.session_number, 3);
    assert_eq!(t.last_update, 500);
    assert_eq!(t.remaining, 5);

    let e2 = t.pause(false, &settings);
    assert_eq!(e2, WaitEffect::Armed(Rearm { phase: Phase::ShortBreak, remaining: 5 }));
    assert!(!t.paused);
    assert_eq!(t.phase, Phase::ShortBreak);
    assert_eq!(t.session_number, 3);
    assert_eq!(t.last_update, 500);
    assert_eq!(t.remaining, 5);
}

#[test]
fn resume_when_running_does_nothing() {
    let settings = example_settings();
    let mut t = Timer::new(500);
    t.paused = false;
    t.remaining = 25;
    let e = t.pause(false, &settings);
    assert_eq!(e, WaitEffect::Untouched);
    assert!(!t.paused);
    assert_eq!(t.remaining, 25);
}

#[test]
fn pause_when_paused_still_cancels() {
    let settings = example_settings();
    let mut t = Timer::new(500);
    assert!(t.paused);
    let e = t.pause(true, &settings);
    assert_eq!(e, WaitEffect::Cancelled);
    assert!(t.paused);
}

#[test]
fn switch_next_then_previous_restores_phase_and_session() {
    let settings = example_settings();
    let stats = example_stats();
    let mut t = Timer::new(0);
    t.session_number = 2;
    assert_eq!(t.phase, Phase::Work);

    let next = t.get_next_phase(&settings);
    let (_, stats) = t.switch_phase(next, false, true, &settings, 60, &stats);
    assert_eq!(t.phase, Phase::ShortBreak);
    assert_eq!(t.session_number, 3);

    let prev = t.get_previous_phase(&settings);
    let (_, _) = t.switch_phase(prev, true, true, &settings, 120, &stats);
    assert_eq!(t.phase, Phase::Work);
    assert_eq!(t.session_number, 2);
}

#[test]
fn automatic_forward_switch_increments_sessions_everywhere() {
    let settings = example_settings();
    let stats = example_stats();
    let mut t = Timer::new(1_000_000);
    let (rearm, new_stats) =
        t.switch_phase(Phase::ShortBreak, false, false, &settings, 1_000_300, &stats);
    // elapsed = (1_000_000 - 1_000_300) / 60 = -5 minutes
    assert_eq!(new_stats.today, Stat { minutes: 37, sessions: 3 });
    assert_eq!(new_stats.week, Stat { minutes: 95, sessions: 6 });
    assert_eq!(new_stats.total, Stat { minutes: 995, sessions: 51 });
    assert_eq!(t.phase, Phase::ShortBreak);
    assert_eq!(t.session_number, 1);
    assert_eq!(t.last_update, 1_000_300);
    assert!(!t.paused);
    assert_eq!(t.remaining, 5);
    assert_eq!(rearm, Rearm { phase: Phase::ShortBreak, remaining: 5 });
}

#[test]
fn user_switch_never_increments_sessions() {
    let settings = example_settings();
    let stats = example_stats();
    let mut t = Timer::new(1_000_000);
    let (_, new_stats) =
        t.switch_phase(Phase::ShortBreak, false, true, &settings, 1_000_300, &stats);
    assert_eq!(new_stats.today, Stat { minutes: 37, sessions: 2 });
    assert_eq!(new_stats.week, Stat { minutes: 95, sessions: 5 });
    assert_eq!(new_stats.total, Stat { minutes: 995, sessions: 50 });
    assert_eq!(t.session_number, 1);
}

#[test]
fn previous_switch_never_increments_sessions() {
    let settings = example_settings();
    let stats = example_stats();
    let mut t = Timer::new(1_000_000);
    t.phase = Phase::ShortBreak;
    t.session_number = 3;
    let (_, new_stats) = t.switch_phase(Phase::Work, true, false, &settings, 1_000_300, &stats);
    assert_eq!(new_stats.today, Stat { minutes: 37, sessions: 2 });
    assert_eq!(new_stats.week, Stat { minutes: 95, sessions: 5 });
    assert_eq!(new_stats.total, Stat { minutes: 995, sessions: 50 });
    assert_eq!(t.session_number, 2);
    assert_eq!(t.phase, Phase::Work);
}

#[test]
fn elapsed_is_truncated_toward_zero_and_signed() {
    let mut t = Timer::new(1000);
    assert_eq!(t.get_elapsed(1090), -1); // 90 seconds after: -1 whole minute
    assert_eq!(t.get_elapsed(1300), -5);
    assert_eq!(t.get_elapsed(1059), 0); // under a minute: nothing yet
    t.last_update = 1090;
    assert_eq!(t.get_elapsed(1000), 1); // clock read before the transition
    assert_eq!(t.get_elapsed(1090), 0);
}

#[test]
fn reset_scheduler_rearms_current_phase_duration() {
    let settings = example_settings();
    let mut t = Timer::new(0);
    t.phase = Phase::LongBreak;
    t.session_number = 7;
    let rearm = t.reset_scheduler(&settings);
    assert_eq!(rearm, Rearm { phase: Phase::LongBreak, remaining: 15 });
    assert_eq!(t.remaining, 15);
    assert!(!t.paused);
    assert_eq!(t.session_number, 7);
    assert_eq!(t.last_update, 0);
}

#[test]
fn switch_phase_now_runs_against_the_clock() {
    let settings = example_settings();
    let stats = Stats::default();
    let mut t = Timer::new_now();
    let (rearm, new_stats) = t.switch_phase_now(Phase::ShortBreak, false, false, &settings, &stats);
    assert_eq!(t.phase, Phase::ShortBreak);
    assert_eq!(t.session_number, 1);
    assert!(!t.paused);
    assert_eq!(t.remaining, 5);
    assert_eq!(rearm, Rearm { phase: Phase::ShortBreak, remaining: 5 });
    assert_eq!(new_stats.today.sessions, 1);
    assert_eq!(new_stats.week.sessions, 1);
    assert_eq!(new_stats.total.sessions, 1);
    // both clock readings fell within the same minute
    assert_eq!(new_stats.today.minutes, 0);
}

#[test]
fn live_settings_edit_takes_effect_at_next_boundary() {
    let mut settings = example_settings();
    let stats = Stats::default();
    let mut t = Timer::new(0);
    let (rearm, stats) = t.switch_phase(Phase::ShortBreak, false, false, &settings, 60, &stats);
    assert_eq!(rearm.remaining, 5);
    settings.short_break_time = 9;
    let (rearm, stats) = t.switch_phase(Phase::Work, false, false, &settings, 120, &stats);
    assert_eq!(rearm.remaining, 25);
    let (rearm, _) = t.switch_phase(Phase::ShortBreak, false, false, &settings, 180, &stats);
    assert_eq!(rearm.remaining, 9);
}
