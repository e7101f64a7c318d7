use vstd::prelude::*;
use vstd::arithmetic::div_mod::{
    lemma_add_mod_noop, lemma_fundamental_div_mod, lemma_mod_bound, lemma_mod_multiples_basic,
    lemma_mod_multiples_vanish, lemma_mod_twice, lemma_small_mod,
};

verus! {

/// The three activity intervals the timer cycles through.
#[derive(Clone, Copy, Debug, PartialEq, Eq, Structural)]
pub enum Phase {
    Work,
    ShortBreak,
    LongBreak,
}

/// The forward rule: out of Work, the long break is chosen when the session
/// number's remainder by the long-break interval equals the interval itself,
/// otherwise the short break; out of either break the engine returns to Work.
///
/// `%` here is the mathematical (Euclidean) remainder. A remainder by a
/// positive interval lies below the interval, so the forward trigger can in
/// fact never fire (see [`lemma_forward_trigger_never_fires`]); the backward
/// rule's `== 0` test is the one that fires. On both tests the Euclidean
/// remainder agrees with the machine remainder, so this function describes
/// the executable rule exactly.
pub open spec fn next_phase_of(phase: Phase, session_number: int, interval: int) -> Phase {
    match phase {
        Phase::Work => if session_number % interval == interval {
            Phase::LongBreak
        } else {
            Phase::ShortBreak
        },
        _ => Phase::Work,
    }
}

/// The backward rule: into Work's place comes the long break when the session
/// number is a multiple of the long-break interval, otherwise the short
/// break; out of either break the engine returns to Work. It mirrors the
/// forward rule's shape but tests the remainder against zero, so the two
/// rules are not inverse to each other on the break phases.
pub open spec fn previous_phase_of(phase: Phase, session_number: int, interval: int) -> Phase {
    match phase {
        Phase::Work => if session_number % interval == 0 {
            Phase::LongBreak
        } else {
            Phase::ShortBreak
        },
        _ => Phase::Work,
    }
}

/// True exactly when the session number's Euclidean remainder by the interval
/// equals the interval, which a remainder can never do; the machine remainder
/// (truncated, so possibly negative) cannot reach the interval either.
pub(crate) fn rem_equals_interval(session_number: i32, interval: i32) -> (r: bool)
    requires
        interval >= 1,
    ensures
        r == (session_number as int % interval as int == interval as int),
{
    proof {
        lemma_mod_bound(session_number as int, interval as int);
    }
    let m: i64 = (session_number as i64) % (interval as i64);
    m == (interval as i64)
}

/// True exactly when the interval divides the session number. Divisibility is
/// the same question for a number and its negation, so the machine remainder
/// and the Euclidean remainder agree on it.
pub(crate) fn rem_is_zero(session_number: i32, interval: i32) -> (r: bool)
    requires
        interval >= 1,
    ensures
        r == (session_number as int % interval as int == 0),
{
    proof {
        lemma_divisible_iff_neg_divisible(session_number as int, interval as int);
    }
    let m: i64 = (session_number as i64) % (interval as i64);
    m == 0
}

/// An integer and its negation are divisible by the same positive moduli.
proof fn lemma_divisible_iff_neg_divisible(k: int, n: int)
    requires
        n >= 1,
    ensures
        (k % n == 0) <==> ((-k) % n == 0),
{
    if k % n == 0 {
        lemma_fundamental_div_mod(k, n);
        assert(-k == (-(k / n)) * n) by (nonlinear_arith)
            requires
                k == n * (k / n) + (k % n),
                k % n == 0,
        ;
        lemma_mod_multiples_basic(-(k / n), n);
    }
    if (-k) % n == 0 {
        lemma_fundamental_div_mod(-k, n);
        assert(k == (-((-k) / n)) * n) by (nonlinear_arith)
            requires
                -k == n * ((-k) / n) + ((-k) % n),
                (-k) % n == 0,
        ;
        lemma_mod_multiples_basic(-((-k) / n), n);
    }
}

/// One forward step always alternates between Work and rest: out of Work the
/// engine moves to one of the two break phases, and out of either break it
/// moves back to Work.
pub proof fn lemma_forward_alternation(phase: Phase, session_number: int, interval: int)
    requires
        interval >= 1,
    ensures
        phase == Phase::Work ==> next_phase_of(phase, session_number, interval) != Phase::Work,
        phase != Phase::Work ==> next_phase_of(phase, session_number, interval) == Phase::Work,
{
}

/// The forward trigger compares a remainder with its own modulus, which a
/// remainder by a positive modulus can never reach, so a forward step out of
/// Work always chooses the short break, whatever the session number: under
/// the forward rule as written, the long break is reached only by a backward
/// switch. Were the forward trigger the backward rule's `== 0` test instead,
/// it would fire once per interval (see [`lemma_backward_trigger_period`]).
pub proof fn lemma_forward_trigger_never_fires(session_number: int, interval: int)
    requires
        interval >= 1,
    ensures
        next_phase_of(Phase::Work, session_number, interval) == Phase::ShortBreak,
{
    lemma_mod_bound(session_number, interval);
}

/// The backward trigger fires exactly on the session numbers that are
/// multiples of the interval, and is periodic in the session number with the
/// interval as its period: once per interval of consecutive session numbers.
pub proof fn lemma_backward_trigger_period(session_number: int, interval: int)
    requires
        interval >= 1,
    ensures
        (previous_phase_of(Phase::Work, session_number, interval) == Phase::LongBreak) <==> (
        session_number % interval == 0),
        previous_phase_of(Phase::Work, session_number + interval, interval) == previous_phase_of(
            Phase::Work,
            session_number,
            interval,
        ),
{
    lemma_add_mod_noop(session_number, interval, interval);
    assert(interval % interval == 0) by {
        lemma_mod_multiples_basic(1, interval);
    }
    assert((session_number % interval) % interval == session_number % interval) by {
        lemma_mod_twice(session_number, interval);
    }
}

/// Writing a session number as `quotient * interval + offset` with the offset
/// inside the interval, the backward trigger picks the long break exactly at
/// offset zero: once per interval of consecutive session numbers, however the
/// interval is configured.
pub proof fn lemma_long_break_once_per_interval(quotient: int, offset: int, interval: int)
    requires
        interval >= 1,
        0 <= offset < interval,
    ensures
        (previous_phase_of(Phase::Work, quotient * interval + offset, interval)
            == Phase::LongBreak) <==> (offset == 0),
{
    lemma_mod_multiples_vanish(quotient, offset, interval);
    assert(interval * quotient == quotient * interval) by (nonlinear_arith);
    lemma_small_mod(offset as nat, interval as nat);
}

/// A backward switch made right after a forward switch restores the phase the
/// pair started from, and the session number, raised by one by the forward
/// switch, is lowered back by exactly one. Out of Work this holds always; out
/// of a break phase it holds exactly when the backward trigger, read at the
/// raised session number, picks that same break phase again, as the
/// `requires` states.
pub proof fn lemma_switch_next_then_previous(phase: Phase, session_number: int, interval: int)
    requires
        interval >= 1,
        phase == Phase::ShortBreak ==> (session_number + 1) % interval != 0,
        phase == Phase::LongBreak ==> (session_number + 1) % interval == 0,
    ensures
        previous_phase_of(
            next_phase_of(phase, session_number, interval),
            session_number + 1,
            interval,
        ) == phase,
        (session_number + 1) - 1 == session_number,
{
}

} // verus!
