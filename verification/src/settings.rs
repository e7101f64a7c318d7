use vstd::prelude::*;
use crate::phase::Phase;

verus! {

/// The configured durations, in minutes, of the three phases, and how many
/// work sessions lie between two long breaks. The engine never caches these:
/// every phase decision takes the settings as they stand, so a live edit
/// takes effect at the next phase boundary.
#[derive(Clone, Copy, Debug, PartialEq, Eq, Structural)]
pub struct Settings {
    pub work_time: i32,
    pub short_break_time: i32,
    pub long_break_time: i32,
    pub long_break_interval: i32,
}

impl Settings {
    /// A phase decision divides by the long-break interval, so it must be at
    /// least one.
    pub open spec fn valid(self) -> bool {
        self.long_break_interval >= 1
    }

    /// Checks [`Settings::valid`] at run time, for callers that obtained the
    /// settings from outside.
    pub fn is_valid(&self) -> (r: bool)
        ensures
            r == self.valid(),
    {
        self.long_break_interval >= 1
    }

    /// The configured duration, in minutes, of the given phase.
    pub open spec fn spec_duration_minutes(self, phase: Phase) -> i32 {
        match phase {
            Phase::Work => self.work_time,
            Phase::ShortBreak => self.short_break_time,
            Phase::LongBreak => self.long_break_time,
        }
    }

    /// The configured duration, in minutes, of the given phase.
    pub fn duration_minutes(&self, phase: Phase) -> (r: i32)
        ensures
            r == self.spec_duration_minutes(phase),
    {
        match phase {
            Phase::Work => self.work_time,
            Phase::ShortBreak => self.short_break_time,
            Phase::LongBreak => self.long_break_time,
        }
    }
}

} // verus!
