//! Serving a new ball: it waits, is put back on the centre spot, and is set
//! moving a moment later.

use crate::timing::{
    Clock, TimerModel, fresh_timer, lemma_one_shot_finishes_once, lemma_one_shot_run,
    lemma_reset_keeps_wf, lemma_tick_keeps_wf, reset_timer, run_ticks, tick_timer, timer_wf,
    total_time,
};
use vstd::prelude::*;

verus! {

/// The wait before a new ball is put on the centre spot, in nanoseconds.
pub const BALL_SET_NANOS: u64 = 1_000_000_000;

/// The wait before a new ball starts moving, in nanoseconds.
pub const BALL_ACTIVE_NANOS: u64 = 2_000_000_000;

/// What a waiting ball does in a frame.
#[derive(Clone, Copy, Debug, PartialEq, Eq, Structural)]
pub struct Serve {
    /// Put the ball on the centre spot.
    pub recenter: bool,
    /// Set the ball moving.
    pub activate: bool,
}

/// A frame of a waiting ball, `delta` after the last, with the clocks of the
/// two waits: both run on; the ball is recentred when the first wait ends in
/// this frame, and set moving when the second does, which also restarts both
/// clocks for the next serve. Returns the clocks after the frame and what the
/// ball does.
pub open spec fn serve_frame(set: TimerModel, active: TimerModel, delta: nat) -> (
    TimerModel,
    TimerModel,
    Serve,
) {
    let set1 = tick_timer(set, delta);
    let active1 = tick_timer(active, delta);
    let serve = Serve { recenter: set1.times_finished > 0, activate: active1.times_finished > 0 };
    if serve.activate {
        (reset_timer(set1), reset_timer(active1), serve)
    } else {
        (set1, active1, serve)
    }
}

/// The clocks of a waiting ball after a run of frames `deltas` apart.
pub open spec fn serve_run(set: TimerModel, active: TimerModel, deltas: Seq<nat>) -> (
    TimerModel,
    TimerModel,
)
    decreases deltas.len(),
{
    if deltas.len() == 0 {
        (set, active)
    } else {
        let prev = serve_run(set, active, deltas.drop_last());
        let next = serve_frame(prev.0, prev.1, deltas.last());
        (next.0, next.1)
    }
}

/// The clocks of a ball waiting to be served.
pub struct ServeTimers {
    set_timer: Clock,
    active_timer: Clock,
}

impl Default for ServeTimers {
    /// Fresh clocks.
    fn default() -> (t: Self)
        ensures
            t.wf(),
            t.set_clock() == fresh_timer(BALL_SET_NANOS as nat, false),
            t.active_clock() == fresh_timer(BALL_ACTIVE_NANOS as nat, false),
    {
        ServeTimers {
            set_timer: Clock::new(BALL_SET_NANOS, false),
            active_timer: Clock::new(BALL_ACTIVE_NANOS, false),
        }
    }
}

impl ServeTimers {
    /// The clock of the wait before the ball is recentred.
    pub closed spec fn set_clock(self) -> TimerModel {
        self.set_timer.model()
    }

    /// The clock of the wait before the ball starts moving.
    pub closed spec fn active_clock(self) -> TimerModel {
        self.active_timer.model()
    }

    /// Both clocks are well-formed one-shot timers.
    pub open spec fn wf(self) -> bool {
        &&& timer_wf(self.set_clock())
        &&& !self.set_clock().repeating
        &&& timer_wf(self.active_clock())
        &&& !self.active_clock().repeating
    }

    /// Fresh clocks.
    pub fn new() -> (t: Self)
        ensures
            t.wf(),
            t.set_clock() == fresh_timer(BALL_SET_NANOS as nat, false),
            t.active_clock() == fresh_timer(BALL_ACTIVE_NANOS as nat, false),
    {
        ServeTimers::default()
    }

    /// A frame of a waiting ball, `delta_nanos` after the last: both clocks
    /// run on; the ball is recentred when the first wait ends in this frame,
    /// and set moving when the second does, which also restarts both clocks
    /// for the next serve.
    pub fn activate_ball(&mut self, delta_nanos: u64) -> (serve: Serve)
        requires
            old(self).wf(),
        ensures
            final(self).wf(),
            (final(self).set_clock(), final(self).active_clock(), serve) == serve_frame(
                old(self).set_clock(),
                old(self).active_clock(),
                delta_nanos as nat,
            ),
    {
        proof {
            lemma_tick_keeps_wf(self.set_timer.model(), delta_nanos as nat);
            lemma_tick_keeps_wf(self.active_timer.model(), delta_nanos as nat);
            lemma_reset_keeps_wf(tick_timer(self.set_timer.model(), delta_nanos as nat));
            lemma_reset_keeps_wf(tick_timer(self.active_timer.model(), delta_nanos as nat));
        }
        self.set_timer.tick(delta_nanos);
        let recenter = self.set_timer.just_finished();
        self.active_timer.tick(delta_nanos);
        let activate = self.active_timer.just_finished();
        if activate {
            self.set_timer.reset();
            self.active_timer.reset();
        }
        Serve { recenter, activate }
    }
}

/// A serve goes by its two waits: from fresh clocks, the ball is recentred in
/// the frame in which `BALL_SET_NANOS` of game time have first passed, and
/// set moving in the frame in which `BALL_ACTIVE_NANOS` have.
pub proof fn lemma_serve_timing(deltas: Seq<nat>)
    requires
        deltas.len() > 0,
        total_time(deltas.drop_last()) < BALL_ACTIVE_NANOS,
    ensures
        ({
            let before = serve_run(
                fresh_timer(BALL_SET_NANOS as nat, false),
                fresh_timer(BALL_ACTIVE_NANOS as nat, false),
                deltas.drop_last(),
            );
            let serve = serve_frame(before.0, before.1, deltas.last()).2;
            &&& serve.recenter == (total_time(deltas.drop_last()) < BALL_SET_NANOS <= total_time(
                deltas,
            ))
            &&& serve.activate == (BALL_ACTIVE_NANOS <= total_time(deltas))
        }),
{
    lemma_serve_waiting(deltas.drop_last());
    lemma_one_shot_finishes_once(BALL_SET_NANOS as nat, deltas);
    lemma_one_shot_finishes_once(BALL_ACTIVE_NANOS as nat, deltas);
}

/// Until the ball is set moving, the clocks of a serve just run.
proof fn lemma_serve_waiting(deltas: Seq<nat>)
    requires
        total_time(deltas) < BALL_ACTIVE_NANOS,
    ensures
        serve_run(
            fresh_timer(BALL_SET_NANOS as nat, false),
            fresh_timer(BALL_ACTIVE_NANOS as nat, false),
            deltas,
        ) == (
            run_ticks(fresh_timer(BALL_SET_NANOS as nat, false), deltas),
            run_ticks(fresh_timer(BALL_ACTIVE_NANOS as nat, false), deltas),
        ),
    decreases deltas.len(),
{
    if deltas.len() > 0 {
        lemma_serve_waiting(deltas.drop_last());
        lemma_one_shot_run(BALL_ACTIVE_NANOS as nat, deltas);
    }
}

} // verus!
