use vstd::prelude::*;
use chrono::Datelike;

verus! {

/// Lowest second count [`now_seconds`] can report. The calendar library
/// behind [`today_stamp`] spans the years -262144 to 262143, and even 262145
/// years of at most 366 days come to under 10^16 seconds away from the
/// epoch, so clamping a raw clock reading to this range loses nothing a
/// calendar could express.
pub const MIN_CLOCK_SECONDS: i64 = -10_000_000_000_000_000;

/// Highest second count [`now_seconds`] can report; see
/// [`MIN_CLOCK_SECONDS`].
pub const MAX_CLOCK_SECONDS: i64 = 10_000_000_000_000_000;

/// The second counts that a reading of the clock can yield.
pub open spec fn clock_in_range(seconds: int) -> bool {
    MIN_CLOCK_SECONDS <= seconds <= MAX_CLOCK_SECONDS
}

/// A calendar date reduced to the three fields the rollover rule reads.
#[derive(Clone, Copy, Debug, PartialEq, Eq, Structural)]
pub struct DateStamp {
    /// Calendar year.
    pub year: i32,
    /// Day of the year, counted from 1; at most 366.
    pub ordinal: u32,
    /// ISO 8601 week number, counted from 1; at most 53.
    pub week: u32,
}

/// The field ranges that any date read from the calendar satisfies.
pub open spec fn date_stamp_in_range(stamp: DateStamp) -> bool {
    &&& 1 <= stamp.ordinal <= 366
    &&& 1 <= stamp.week <= 53
}

/// Relies on `std::time::SystemTime::now` and
/// `SystemTime::duration_since(UNIX_EPOCH)`: which side of the Unix epoch
/// the platform clock stands on, and the whole seconds in between. A clock
/// set before the epoch is a legal platform state and lands in the `Err`
/// branch, so this read is total; nothing is promised of the value, which
/// is whatever the platform clock holds.
#[verifier::external_body]
fn epoch_offset_seconds() -> (r: (bool, u64))
{
    match std::time::SystemTime::now().duration_since(std::time::UNIX_EPOCH) {
        Ok(since) => (false, since.as_secs()),
        Err(before) => (true, before.duration().as_secs()),
    }
}

/// Relies on `chrono::DateTime::from_timestamp` (`None` for a second count
/// its calendar cannot hold, never a panic; the epoch itself as the
/// fallback), `chrono::Datelike::year`, `chrono::Datelike::ordinal` (day of
/// year, documented 1 to 366) and `chrono::Datelike::iso_week` with
/// `chrono::IsoWeek::week` (ISO 8601 week number, documented 1 to 53) to
/// turn a second count into the fields the rollover rule reads. The epoch
/// fallback's fields lie in the same documented ranges.
#[verifier::external_body]
fn date_stamp_of_seconds(seconds: i64) -> (r: DateStamp)
    ensures
        date_stamp_in_range(r),
{
    let instant = chrono::DateTime::from_timestamp(seconds, 0)
        .unwrap_or(chrono::DateTime::UNIX_EPOCH);
    DateStamp { year: instant.year(), ordinal: instant.ordinal(), week: instant.iso_week().week() }
}

/// The platform clock as signed seconds since the Unix epoch, clamped into
/// the calendar's range: a reading further out than any calendar date can
/// express is pinned to the nearer bound.
pub(crate) fn now_seconds() -> (r: i64)
    ensures
        clock_in_range(r as int),
{
    let (before_epoch, magnitude): (bool, u64) = epoch_offset_seconds();
    if before_epoch {
        if magnitude >= 10_000_000_000_000_000u64 {
            MIN_CLOCK_SECONDS
        } else {
            -(magnitude as i64)
        }
    } else {
        if magnitude >= 10_000_000_000_000_000u64 {
            MAX_CLOCK_SECONDS
        } else {
            magnitude as i64
        }
    }
}

/// The current date, reduced to the fields the rollover rule reads, from
/// the clamped clock reading.
pub(crate) fn today_stamp() -> (r: DateStamp)
    ensures
        date_stamp_in_range(r),
{
    let seconds: i64 = now_seconds();
    date_stamp_of_seconds(seconds)
}

} // verus!
