use vstd::prelude::*;
use vstd::arithmetic::div_mod::{lemma_div_is_ordered, lemma_div_pos_is_pos};
use crate::clock::{clock_in_range, now_seconds};
use crate::phase::{next_phase_of, previous_phase_of, rem_equals_interval, rem_is_zero, Phase};
use crate::settings::Settings;
use crate::stats::{stats_update_fits, stats_updated, update_stats, Stats};

verus! {

/// What the shell must do after a step that (re)armed the wait: emit the new
/// phase and the remaining minutes across the notification boundary, discard
/// any pending one-shot wait, and arm a fresh one for `remaining` minutes.
#[derive(Clone, Copy, Debug, PartialEq, Eq, Structural)]
pub struct Rearm {
    pub phase: Phase,
    pub remaining: i32,
}

/// What [`Timer::pause`] asks of the shell's one-shot wait.
#[derive(Clone, Copy, Debug, PartialEq, Eq, Structural)]
pub enum WaitEffect {
    /// Discard any pending wait; arm nothing.
    Cancelled,
    /// Discard any pending wait, then arm a fresh one as told.
    Armed(Rearm),
    /// Leave the wait as it is.
    Untouched,
}

/// The timer engine's state. One instance lives for the whole process,
/// behind an exclusive handle; it is created paused, in the Work phase,
/// with nothing remaining.
///
/// `remaining` holds the full configured duration of the current phase,
/// written afresh on every (re)arm; it is not counted down between arms.
/// `last_update` is the instant, in seconds since the Unix epoch, of the
/// last phase transition or creation. `session_number` rises by one on
/// every forward switch and falls by one on every backward switch.
#[derive(Clone, Copy, Debug, PartialEq, Eq, Structural)]
pub struct Timer {
    pub paused: bool,
    pub remaining: i32,
    pub phase: Phase,
    pub last_update: i64,
    pub session_number: i32,
}

/// Minutes from `now` back to `last_update`, truncated toward zero. The
/// engine measures elapsed time in this order, so a phase that ran past its
/// start yields a non-positive count; that signed count is what lands in the
/// statistics buckets.
pub open spec fn elapsed_minutes_between(last_update: int, now: int) -> int {
    if last_update - now >= 0 {
        (last_update - now) / 60
    } else {
        -((now - last_update) / 60)
    }
}

/// Whatever two instants the clock can report, the elapsed count between
/// them stays far inside the 64-bit range.
pub proof fn lemma_elapsed_bounded(last_update: int, now: int)
    requires
        clock_in_range(last_update),
        clock_in_range(now),
    ensures
        -400_000_000_000_000 <= elapsed_minutes_between(last_update, now) <= 400_000_000_000_000,
{
    let diff = last_update - now;
    if diff >= 0 {
        lemma_div_pos_is_pos(diff, 60);
        lemma_div_is_ordered(diff, 24_000_000_000_000_000, 60);
    } else {
        lemma_div_pos_is_pos(now - last_update, 60);
        lemma_div_is_ordered(now - last_update, 24_000_000_000_000_000, 60);
    }
}

/// The engine state after a rearm: the current phase's full configured
/// duration becomes the remaining count and the engine runs; nothing else
/// moves.
pub open spec fn spec_rearmed(t: Timer, settings: Settings) -> Timer {
    Timer {
        paused: false,
        remaining: settings.spec_duration_minutes(t.phase),
        phase: t.phase,
        last_update: t.last_update,
        session_number: t.session_number,
    }
}

/// The engine state after `pause(paused)`: pausing only raises the flag
/// (the shell discards the pending wait); resuming a paused engine rearms
/// the current phase's full duration; resuming a running engine changes
/// nothing.
pub open spec fn spec_pause(t: Timer, paused: bool, settings: Settings) -> Timer {
    if paused {
        Timer {
            paused: true,
            remaining: t.remaining,
            phase: t.phase,
            last_update: t.last_update,
            session_number: t.session_number,
        }
    } else if t.paused {
        spec_rearmed(t, settings)
    } else {
        t
    }
}

impl Timer {
    /// The engine's well-formedness: its last-update instant came from the
    /// clock, so it lies in the clock's range.
    pub open spec fn wf(self) -> bool {
        clock_in_range(self.last_update as int)
    }

    /// A fresh engine at the given instant: paused, in Work, with no
    /// remaining count and session number zero.
    pub fn new(now: i64) -> (r: Timer)
        requires
            clock_in_range(now as int),
        ensures
            r == (Timer {
                paused: true,
                remaining: 0,
                phase: Phase::Work,
                last_update: now,
                session_number: 0,
            }),
            r.wf(),
    {
        Timer { paused: true, remaining: 0, phase: Phase::Work, last_update: now, session_number: 0 }
    }

    /// A fresh engine at the instant the clock reports now.
    pub fn new_now() -> (r: Timer)
        ensures
            r.paused == true,
            r.remaining == 0,
            r.phase == Phase::Work,
            r.session_number == 0,
            r.wf(),
    {
        let now: i64 = now_seconds();
        Timer::new(now)
    }

    /// The phase one forward switch from here moves to, under the given
    /// settings.
    pub open spec fn spec_next_phase(self, settings: Settings) -> Phase {
        next_phase_of(self.phase, self.session_number as int, settings.long_break_interval as int)
    }

    /// The phase one backward switch from here moves to, under the given
    /// settings.
    pub open spec fn spec_previous_phase(self, settings: Settings) -> Phase {
        previous_phase_of(
            self.phase,
            self.session_number as int,
            settings.long_break_interval as int,
        )
    }

    /// Computes the forward rule on the engine's current phase and session
    /// number; the settings are taken as they stand, never cached.
    pub fn get_next_phase(&self, settings: &Settings) -> (r: Phase)
        requires
            settings.valid(),
        ensures
            r == self.spec_next_phase(*settings),
    {
        match self.phase {
            Phase::Work => {
                if rem_equals_interval(self.session_number, settings.long_break_interval) {
                    Phase::LongBreak
                } else {
                    Phase::ShortBreak
                }
            },
            _ => Phase::Work,
        }
    }

    /// Computes the backward rule on the engine's current phase and session
    /// number; the settings are taken as they stand, never cached.
    pub fn get_previous_phase(&self, settings: &Settings) -> (r: Phase)
        requires
            settings.valid(),
        ensures
            r == self.spec_previous_phase(*settings),
    {
        match self.phase {
            Phase::Work => {
                if rem_is_zero(self.session_number, settings.long_break_interval) {
                    Phase::LongBreak
                } else {
                    Phase::ShortBreak
                }
            },
            _ => Phase::Work,
        }
    }

    /// The phase one switch in the given direction moves to: the backward
    /// rule's choice when `is_previous`, else the forward rule's. This is
    /// the whole phase decision a switch command makes; the shell only
    /// relays the direction.
    pub fn switch_target(&self, is_previous: bool, settings: &Settings) -> (r: Phase)
        requires
            settings.valid(),
        ensures
            r == if is_previous {
                self.spec_previous_phase(*settings)
            } else {
                self.spec_next_phase(*settings)
            },
    {
        if !is_previous {
            self.get_next_phase(settings)
        } else {
            self.get_previous_phase(settings)
        }
    }

    /// Minutes from `now` back to the last transition, truncated toward
    /// zero; non-positive whenever `now` is not before it.
    pub fn get_elapsed(&self, now: i64) -> (r: i64)
        requires
            self.wf(),
            clock_in_range(now as int),
        ensures
            r == elapsed_minutes_between(self.last_update as int, now as int),
    {
        let diff: i64 = self.last_update - now;
        diff / 60
    }

    /// Writes the current phase's full configured duration into `remaining`
    /// and marks the engine running; the returned [`Rearm`] tells the shell
    /// to emit the phase and the remaining minutes and to cancel and re-arm
    /// its one-shot wait. Everything else stays put.
    pub fn reset_scheduler(&mut self, settings: &Settings) -> (r: Rearm)
        ensures
            *final(self) == spec_rearmed(*old(self), *settings),
            r == (Rearm {
                phase: old(self).phase,
                remaining: settings.spec_duration_minutes(old(self).phase),
            }),
    {
        self.remaining = settings.duration_minutes(self.phase);
        self.paused = false;
        Rearm { phase: self.phase, remaining: self.remaining }
    }

    /// Pausing cancels the pending wait and raises the flag; resuming a
    /// paused engine rearms the current phase's full configured duration,
    /// not a remainder; resuming a running engine does nothing. The phase,
    /// the session number and the last transition instant never move, and
    /// no statistics are read or written.
    pub fn pause(&mut self, paused: bool, settings: &Settings) -> (r: WaitEffect)
        ensures
            *final(self) == spec_pause(*old(self), paused, *settings),
            paused ==> r == WaitEffect::Cancelled,
            (!paused && old(self).paused) ==> r == (WaitEffect::Armed(
                Rearm {
                    phase: old(self).phase,
                    remaining: settings.spec_duration_minutes(old(self).phase),
                },
            )),
            (!paused && !old(self).paused) ==> r == WaitEffect::Untouched,
    {
        let effect: WaitEffect;
        if paused {
            effect = WaitEffect::Cancelled;
        } else if self.paused {
            let rearm: Rearm = self.reset_scheduler(settings);
            effect = WaitEffect::Armed(rearm);
        } else {
            effect = WaitEffect::Untouched;
        }
        self.paused = paused;
        effect
    }

    /// One phase transition at instant `now`: the elapsed minutes are read
    /// against the old transition instant, `now` becomes the new one, the
    /// engine takes `new_phase`, rearms its full duration and runs; the
    /// session number rises by one on a forward switch and falls by one on
    /// a backward one. The second result is the statistics with the elapsed
    /// minutes added to all three buckets and one session more in each
    /// exactly when the switch was automatic and forward — the shell must
    /// persist it. The first result is the rearm order for the shell's wait
    /// and notification boundary.
    pub fn switch_phase(
        &mut self,
        new_phase: Phase,
        is_previous: bool,
        is_user: bool,
        settings: &Settings,
        now: i64,
        stats: &Stats,
    ) -> (r: (Rearm, Stats))
        requires
            old(self).wf(),
            clock_in_range(now as int),
            is_previous ==> old(self).session_number > i32::MIN,
            !is_previous ==> old(self).session_number < i32::MAX,
            stats_update_fits(
                *stats,
                elapsed_minutes_between(old(self).last_update as int, now as int),
                !(is_user || is_previous),
            ),
        ensures
            final(self).phase == new_phase,
            final(self).last_update == now,
            final(self).wf(),
            final(self).paused == false,
            final(self).remaining == settings.spec_duration_minutes(new_phase),
            final(self).session_number == old(self).session_number + (
            if is_previous {
                -1int
            } else {
                1int
            }),
            r.0 == (Rearm { phase: new_phase, remaining: settings.spec_duration_minutes(new_phase) }),
            stats_updated(
                *stats,
                r.1,
                elapsed_minutes_between(old(self).last_update as int, now as int),
                !(is_user || is_previous),
            ),
            (!is_user && !is_previous) ==> {
                &&& r.1.today.sessions == stats.today.sessions + 1
                &&& r.1.week.sessions == stats.week.sessions + 1
                &&& r.1.total.sessions == stats.total.sessions + 1
            },
            (is_user || is_previous) ==> {
                &&& r.1.today.sessions == stats.today.sessions
                &&& r.1.week.sessions == stats.week.sessions
                &&& r.1.total.sessions == stats.total.sessions
            },
            r.1.today.minutes == stats.today.minutes + elapsed_minutes_between(
                old(self).last_update as int,
                now as int,
            ),
            r.1.week.minutes == stats.week.minutes + elapsed_minutes_between(
                old(self).last_update as int,
                now as int,
            ),
            r.1.total.minutes == stats.total.minutes + elapsed_minutes_between(
                old(self).last_update as int,
                now as int,
            ),
    {
        let elapsed: i64 = self.get_elapsed(now);
        self.last_update = now;
        self.phase = new_phase;
        let rearm: Rearm = self.reset_scheduler(settings);
        self.session_number = if !is_previous {
            self.session_number + 1
        } else {
            self.session_number - 1
        };
        let new_stats: Stats = update_stats(stats, elapsed, !(is_user || is_previous));
        (rearm, new_stats)
    }

    /// [`Timer::switch_phase`] at the instant the clock reports now. The new
    /// transition instant is whatever the clock returned, observable in the
    /// final state; everything else is fixed by it as in `switch_phase`.
    /// Every bucket needs enough headroom for any elapsed count two clock
    /// readings can span.
    pub fn switch_phase_now(
        &mut self,
        new_phase: Phase,
        is_previous: bool,
        is_user: bool,
        settings: &Settings,
        stats: &Stats,
    ) -> (r: (Rearm, Stats))
        requires
            old(self).wf(),
            is_previous ==> old(self).session_number > i32::MIN,
            !is_previous ==> old(self).session_number < i32::MAX,
            stats_headroom(*stats, !(is_user || is_previous)),
        ensures
            final(self).phase == new_phase,
            final(self).wf(),
            final(self).paused == false,
            final(self).remaining == settings.spec_duration_minutes(new_phase),
            final(self).session_number == old(self).session_number + (
            if is_previous {
                -1int
            } else {
                1int
            }),
            r.0 == (Rearm { phase: new_phase, remaining: settings.spec_duration_minutes(new_phase) }),
            stats_updated(
                *stats,
                r.1,
                elapsed_minutes_between(
                    old(self).last_update as int,
                    final(self).last_update as int,
                ),
                !(is_user || is_previous),
            ),
    {
        let now: i64 = now_seconds();
        proof {
            lemma_elapsed_bounded(self.last_update as int, now as int);
        }
        self.switch_phase(new_phase, is_previous, is_user, settings, now, stats)
    }
}

/// Headroom in every bucket for any elapsed count two clock readings can
/// span (see [`lemma_elapsed_bounded`]), so that the update cannot overflow
/// whatever instant the clock reports.
pub open spec fn stats_headroom(stats: Stats, session_completed: bool) -> bool {
    &&& i64::MIN + 400_000_000_000_000 <= stats.today.minutes <= i64::MAX - 400_000_000_000_000
    &&& i64::MIN + 400_000_000_000_000 <= stats.week.minutes <= i64::MAX - 400_000_000_000_000
    &&& i64::MIN + 400_000_000_000_000 <= stats.total.minutes <= i64::MAX - 400_000_000_000_000
    &&& session_completed ==> stats.today.sessions < i32::MAX
    &&& session_completed ==> stats.week.sessions < i32::MAX
    &&& session_completed ==> stats.total.sessions < i32::MAX
}

/// Pausing and then resuming, with no switch in between, restores the
/// engine to a running state with its phase, session number and last
/// transition instant exactly as they were; the resume rearms the full
/// configured duration of the current phase. Pausing takes no statistics,
/// so none can change.
pub proof fn lemma_pause_resume_preserves_state(t: Timer, settings: Settings)
    ensures
        ({
            let r = spec_pause(spec_pause(t, true, settings), false, settings);
            &&& r.phase == t.phase
            &&& r.session_number == t.session_number
            &&& r.last_update == t.last_update
            &&& r.remaining == settings.spec_duration_minutes(t.phase)
            &&& r.paused == false
        }),
{
}

} // verus!
