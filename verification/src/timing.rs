//! The engine's countdown timer, used by the game's state machines, together
//! with what it holds: its duration, the time elapsed on it, and whether and
//! how often it finished in its last tick.

use bevy::time::Timer;
use bevy::time::TimerMode;
use std::time::Duration;
use vstd::prelude::*;

verus! {

/// The engine's timer.
#[verifier::external_type_specification]
#[verifier::external_body]
pub struct ExTimer(Timer);

/// The longest time an engine duration holds, in nanoseconds.
pub open spec fn duration_max_nanos() -> nat {
    18_446_744_073_709_551_615nat * 1_000_000_000nat + 999_999_999nat
}

/// What an engine timer holds, in nanoseconds. The timers of this library are
/// never paused.
pub struct TimerModel {
    /// The time after which the timer finishes.
    pub duration: nat,
    /// The time elapsed since the timer started or last wrapped round.
    pub elapsed: nat,
    /// A repeating timer wraps round at its duration; a one-shot timer stops
    /// there.
    pub repeating: bool,
    /// The timer has reached its duration (for a repeating timer: in its last
    /// tick).
    pub finished: bool,
    /// How many times the last tick ran the timer to its duration.
    pub times_finished: nat,
}

/// A timer just made: nothing elapsed, not finished.
pub open spec fn fresh_timer(duration: nat, repeating: bool) -> TimerModel {
    TimerModel { duration, elapsed: 0, repeating, finished: false, times_finished: 0 }
}

/// A timer run on by `delta`: a finished one-shot timer stays as it is;
/// otherwise the time is added, a one-shot timer that reaches its duration
/// stops there, and a repeating one wraps round, counting the periods it
/// completed.
pub open spec fn tick_timer(m: TimerModel, delta: nat) -> TimerModel {
    let total = m.elapsed + delta;
    if !m.repeating && m.finished {
        TimerModel { times_finished: 0, ..m }
    } else if total < m.duration {
        TimerModel { elapsed: total, finished: false, times_finished: 0, ..m }
    } else if m.repeating {
        TimerModel {
            elapsed: total % m.duration,
            finished: true,
            times_finished: total / m.duration,
            ..m
        }
    } else {
        TimerModel { elapsed: m.duration, finished: true, times_finished: 1, ..m }
    }
}

/// A timer restarted from zero, with its duration and mode kept.
pub open spec fn reset_timer(m: TimerModel) -> TimerModel {
    TimerModel { elapsed: 0, finished: false, times_finished: 0, ..m }
}

/// What every timer of this library keeps: a positive duration that a `u64`
/// of nanoseconds holds, and an elapsed time within it (below it for a
/// repeating timer).
pub open spec fn timer_wf(m: TimerModel) -> bool {
    &&& 0 < m.duration <= u64::MAX
    &&& m.elapsed <= m.duration
    &&& m.repeating ==> m.elapsed < m.duration
}

/// A tick that the engine's finish counter (a `u32`) can count: any tick of a
/// one-shot timer, and at most `u32::MAX` periods of a repeating one.
pub open spec fn tick_fits(m: TimerModel, delta: nat) -> bool {
    m.repeating ==> delta <= m.duration * 4_294_967_295nat
}

/// An engine timer, with what it holds.
pub struct Clock {
    timer: Timer,
    state: Ghost<TimerModel>,
}

impl Clock {
    /// What the timer holds.
    pub closed spec fn model(self) -> TimerModel {
        self.state@
    }

    /// Makes an engine timer (`Timer::new`) that runs for `nanos`
    /// nanoseconds, repeating or one-shot: nothing has elapsed on it and it
    /// has not finished.
    #[verifier::external_body]
    pub(crate) fn new(nanos: u64, repeating: bool) -> (c: Clock)
        requires
            nanos > 0,
        ensures
            c.model() == fresh_timer(nanos as nat, repeating),
    {
        let mode = if repeating { TimerMode::Repeating } else { TimerMode::Once };
        Clock { timer: Timer::new(Duration::from_nanos(nanos), mode), state: Ghost(fresh_timer(nanos as nat, repeating)) }
    }

    /// Runs the timer on by `delta_nanos` nanoseconds (`Timer::tick`), as
    /// `tick_timer` says. The engine adds the time to a duration, which
    /// panics past the longest duration; divides by the duration when a
    /// repeating timer finishes; and counts the periods in a `u32`: the
    /// requirements leave those cases out.
    #[verifier::external_body]
    pub(crate) fn tick(&mut self, delta_nanos: u64)
        requires
            old(self).model().duration > 0,
            old(self).model().elapsed + delta_nanos <= duration_max_nanos(),
            old(self).model().repeating ==> (old(self).model().elapsed + delta_nanos) as nat
                / old(self).model().duration <= u32::MAX,
        ensures
            final(self).model() == tick_timer(old(self).model(), delta_nanos as nat),
    {
        self.timer.tick(Duration::from_nanos(delta_nanos));
    }

    /// Whether the timer has reached its duration (`Timer::finished`).
    #[verifier::external_body]
    pub(crate) fn finished(&self) -> (b: bool)
        ensures
            b == self.model().finished,
    {
        self.timer.finished()
    }

    /// Whether the last tick ran the timer to its duration at least once
    /// (`Timer::just_finished`).
    #[verifier::external_body]
    pub(crate) fn just_finished(&self) -> (b: bool)
        ensures
            b == (self.model().times_finished > 0),
    {
        self.timer.just_finished()
    }

    /// Restarts the timer from zero (`Timer::reset`).
    #[verifier::external_body]
    pub(crate) fn reset(&mut self)
        ensures
            final(self).model() == reset_timer(old(self).model()),
    {
        self.timer.reset();
    }
}

/// A tick that fits keeps a timer well formed, and meets what the engine's
/// tick needs.
pub proof fn lemma_tick_keeps_wf(m: TimerModel, delta: nat)
    requires
        timer_wf(m),
        tick_fits(m, delta),
        delta <= u64::MAX,
    ensures
        timer_wf(tick_timer(m, delta)),
        m.elapsed + delta <= duration_max_nanos(),
        m.repeating ==> (m.elapsed + delta) / m.duration <= u32::MAX as nat,
{
    let total = m.elapsed + delta;
    if m.repeating {
        assert(total < m.duration * 4_294_967_296nat) by (nonlinear_arith)
            requires
                m.elapsed < m.duration,
                delta <= m.duration * 4_294_967_295nat,
                total == m.elapsed + delta,
        ;
        assert(total / m.duration < 4_294_967_296nat) by (nonlinear_arith)
            requires
                total < m.duration * 4_294_967_296nat,
                m.duration > 0,
        ;
        assert(total % m.duration < m.duration) by (nonlinear_arith)
            requires
                m.duration > 0,
        ;
    }
}

/// Restarting keeps a timer well formed.
pub proof fn lemma_reset_keeps_wf(m: TimerModel)
    requires
        timer_wf(m),
    ensures
        timer_wf(reset_timer(m)),
{
}

/// Restarting a timer makes it as good as new.
pub proof fn lemma_reset_is_fresh(m: TimerModel)
    ensures
        reset_timer(m) == fresh_timer(m.duration, m.repeating),
{
}

/// The total of a run of frame times.
pub open spec fn total_time(deltas: Seq<nat>) -> nat
    decreases deltas.len(),
{
    if deltas.len() == 0 {
        0
    } else {
        total_time(deltas.drop_last()) + deltas.last()
    }
}

/// A timer after a run of ticks `deltas` apart.
pub open spec fn run_ticks(m: TimerModel, deltas: Seq<nat>) -> TimerModel
    decreases deltas.len(),
{
    if deltas.len() == 0 {
        m
    } else {
        tick_timer(run_ticks(m, deltas.drop_last()), deltas.last())
    }
}

/// The periods that a run of ticks completed, counted tick by tick.
pub open spec fn periods_completed(m: TimerModel, deltas: Seq<nat>) -> nat
    decreases deltas.len(),
{
    if deltas.len() == 0 {
        0
    } else {
        periods_completed(m, deltas.drop_last()) + run_ticks(m, deltas).times_finished
    }
}

/// A one-shot timer finishes once the time run on it reaches its duration,
/// and stops there; before, it holds the time run on it.
pub proof fn lemma_one_shot_run(duration: nat, deltas: Seq<nat>)
    requires
        duration > 0,
    ensures
        ({
            let r = run_ticks(fresh_timer(duration, false), deltas);
            let total = total_time(deltas);
            &&& r.duration == duration
            &&& !r.repeating
            &&& r.finished == (total >= duration)
            &&& r.elapsed == (if total >= duration {
                duration
            } else {
                total
            })
        }),
    decreases deltas.len(),
{
    if deltas.len() > 0 {
        lemma_one_shot_run(duration, deltas.drop_last());
    }
}

/// A one-shot timer reports that it just finished in exactly one tick: the
/// one in which the time run on it first reaches its duration.
pub proof fn lemma_one_shot_finishes_once(duration: nat, deltas: Seq<nat>)
    requires
        duration > 0,
        deltas.len() > 0,
    ensures
        (run_ticks(fresh_timer(duration, false), deltas).times_finished > 0) == (total_time(
            deltas.drop_last(),
        ) < duration <= total_time(deltas)),
{
    lemma_one_shot_run(duration, deltas.drop_last());
}

/// A repeating timer holds the time run on it modulo its duration, and the
/// ticks together report every period completed: as many as the duration
/// goes into the time run on it.
pub proof fn lemma_repeating_run(duration: nat, deltas: Seq<nat>)
    requires
        duration > 0,
    ensures
        ({
            let r = run_ticks(fresh_timer(duration, true), deltas);
            let total = total_time(deltas);
            &&& r.duration == duration
            &&& r.repeating
            &&& r.elapsed == total % duration
            &&& periods_completed(fresh_timer(duration, true), deltas) == total / duration
        }),
    decreases deltas.len(),
{
    if deltas.len() > 0 {
        let prev = deltas.drop_last();
        let d = deltas.last();
        lemma_repeating_run(duration, prev);
        let t = total_time(prev);
        let q = t / duration;
        let e = t % duration;
        assert(t == duration * q + e) by {
            vstd::arithmetic::div_mod::lemma_fundamental_div_mod(t as int, duration as int);
        }
        let x = e + d;
        assert(t + d == x + q * duration) by (nonlinear_arith)
            requires
                t == duration * q + e,
                x == e + d,
        ;
        let xi = x as int;
        let di = duration as int;
        let qi = q as int;
        assert(xi / di + qi == (xi + qi * di) / di) by {
            vstd::arithmetic::div_mod::lemma_hoist_over_denominator(xi, qi, duration);
        }
        assert((di * qi + xi) % di == xi % di) by {
            vstd::arithmetic::div_mod::lemma_mod_multiples_vanish(qi, xi, di);
        }
        assert(duration * q + x == t + d) by (nonlinear_arith)
            requires
                t == duration * q + e,
                x == e + d,
        ;
        if x < duration {
            vstd::arithmetic::div_mod::lemma_basic_div(x as int, duration as int);
            vstd::arithmetic::div_mod::lemma_small_mod(x, duration);
        }
        assert(xi + qi * di == (t + d) as int);
    } else {
        vstd::arithmetic::div_mod::lemma_basic_div(0, duration as int);
        vstd::arithmetic::div_mod::lemma_small_mod(0, duration);
    }
}

} // verus!
