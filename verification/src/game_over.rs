//! The end of a match: a win or a loss is held for a slow-motion moment,
//! then the game moves on.

use crate::timing::{
    Clock, TimerModel, fresh_timer, lemma_tick_keeps_wf, tick_timer, timer_wf, total_time,
};
use vstd::prelude::*;

verus! {

/// How long the slow motion lasts after a match ends, in nanoseconds.
pub const SLOW_MOTION_NANOS: u64 = 800_000_000;

/// How long after a match ends the game moves on, in nanoseconds.
pub const STATE_CHANGE_NANOS: u64 = 2_000_000_000;

/// How a match ended.
#[derive(Clone, Copy, Debug, PartialEq, Eq, Structural)]
pub enum GameOverEvent {
    Win,
    Lose,
}

/// The sound of a match's end.
#[derive(Clone, Copy, Debug, PartialEq, Eq, Structural)]
pub enum ScoreSound {
    Explosion,
    Lose,
}

/// The sound a match's end makes: an explosion for a win, the losing tune
/// for a loss.
pub fn score_audio(event: GameOverEvent) -> (sound: ScoreSound)
    ensures
        sound == (match event {
            GameOverEvent::Win => ScoreSound::Explosion,
            GameOverEvent::Lose => ScoreSound::Lose,
        }),
{
    match event {
        GameOverEvent::Win => ScoreSound::Explosion,
        GameOverEvent::Lose => ScoreSound::Lose,
    }
}

/// What to do with the game's time scale in a frame.
#[derive(Clone, Copy, Debug, PartialEq, Eq, Structural)]
pub enum TimeScaleAction {
    /// Leave it as it is.
    Keep,
    /// Drop it to slow motion at once.
    SlowDown,
    /// Ease it towards slow motion, or back towards normal speed once
    /// `recovering`.
    Ease { recovering: bool },
    /// Put it back to normal speed.
    Reset,
}

/// What a match's ending holds: the ending that is pending, if any, and the
/// clocks of the slow motion and of the wait before the game moves on.
pub struct Ending {
    pub pending: Option<GameOverEvent>,
    pub slow_motion: TimerModel,
    pub state_change: TimerModel,
}

/// A match's ending in progress: the ending that happened, if any, with the
/// timers that run while it plays out.
pub struct GameOver {
    slow_motion_timer: Clock,
    state_change_timer: Clock,
    event: Option<GameOverEvent>,
}

/// One frame of a match's ending, given whether the slow motion is over and
/// whether the wait before moving on is over in this frame. Returns the new
/// pending ending, the time-scale action, and the ending that completes in
/// this frame.
///
/// With an ending pending, new endings are ignored: the pending one stays
/// until the wait is over, and then completes, clearing it. With none
/// pending, the last of the new endings (if any) becomes pending, which drops
/// the game into slow motion.
pub open spec fn advance_spec(
    event: Option<GameOverEvent>,
    events: Seq<GameOverEvent>,
    slow_motion_over: bool,
    state_change_done: bool,
) -> (Option<GameOverEvent>, TimeScaleAction, Option<GameOverEvent>) {
    match event {
        Some(e) => if state_change_done {
            (None, TimeScaleAction::Reset, Some(e))
        } else {
            (Some(e), TimeScaleAction::Ease { recovering: slow_motion_over }, None)
        },
        None => if events.len() == 0 {
            (None, TimeScaleAction::Keep, None)
        } else {
            (Some(events.last()), TimeScaleAction::SlowDown, None)
        },
    }
}

/// No ending pending, with fresh clocks.
pub open spec fn fresh_ending() -> Ending {
    Ending {
        pending: None,
        slow_motion: fresh_timer(SLOW_MOTION_NANOS as nat, false),
        state_change: fresh_timer(STATE_CHANGE_NANOS as nat, false),
    }
}

/// One frame of a match's ending, `delta` after the last, with the frame's new
/// endings `events`; the slow-motion clock runs only `with_slow_motion`.
/// While an ending is pending its clocks run, and `advance_spec` decides on
/// what they report (the slow motion is over once its clock has finished, the
/// wait once its clock finishes in this frame). An ending that completes
/// leaves fresh clocks behind. Returns the new state, the time-scale action
/// and the ending that completes in this frame.
pub open spec fn frame_spec(
    e: Ending,
    events: Seq<GameOverEvent>,
    delta: nat,
    with_slow_motion: bool,
) -> (Ending, TimeScaleAction, Option<GameOverEvent>) {
    let running = e.pending is Some;
    let slow = if running && with_slow_motion {
        tick_timer(e.slow_motion, delta)
    } else {
        e.slow_motion
    };
    let wait = if running {
        tick_timer(e.state_change, delta)
    } else {
        e.state_change
    };
    let step = advance_spec(
        e.pending,
        events,
        running && with_slow_motion && slow.finished,
        running && wait.times_finished > 0,
    );
    let next = if step.2 is Some {
        fresh_ending()
    } else {
        Ending { pending: step.0, slow_motion: slow, state_change: wait }
    };
    (next, step.1, step.2)
}

impl View for GameOver {
    type V = Ending;

    closed spec fn view(&self) -> Ending {
        Ending {
            pending: self.event,
            slow_motion: self.slow_motion_timer.model(),
            state_change: self.state_change_timer.model(),
        }
    }
}

impl Default for GameOver {
    /// No ending pending, with fresh timers.
    fn default() -> (g: Self)
        ensures
            g@ == fresh_ending(),
            g.wf(),
    {
        GameOver {
            slow_motion_timer: Clock::new(SLOW_MOTION_NANOS, false),
            state_change_timer: Clock::new(STATE_CHANGE_NANOS, false),
            event: None,
        }
    }
}

impl GameOver {
    /// The ending that is pending, if any.
    pub open spec fn pending(self) -> Option<GameOverEvent> {
        self@.pending
    }

    /// Both clocks are well-formed one-shot timers.
    pub open spec fn wf(self) -> bool {
        &&& timer_wf(self@.slow_motion)
        &&& !self@.slow_motion.repeating
        &&& timer_wf(self@.state_change)
        &&& !self@.state_change.repeating
    }

    /// The ending that is pending, if any.
    pub fn event(&self) -> (e: Option<GameOverEvent>)
        ensures
            e == self.pending(),
    {
        self.event
    }

    /// No ending pending, with fresh timers.
    pub fn new() -> (g: Self)
        ensures
            g@ == fresh_ending(),
            g.wf(),
    {
        GameOver::default()
    }

    /// One frame of the ending, given the timers' verdicts for the frame:
    /// see `advance_spec`. Completing an ending starts over with fresh timers;
    /// otherwise the timers are left as they are.
    pub fn advance(
        &mut self,
        slow_motion_over: bool,
        state_change_done: bool,
        events: &Vec<GameOverEvent>,
    ) -> (r: (TimeScaleAction, Option<GameOverEvent>))
        requires
            old(self).wf(),
        ensures
            final(self).wf(),
            (final(self).pending(), r.0, r.1) == advance_spec(
                old(self).pending(),
                events@,
                slow_motion_over,
                state_change_done,
            ),
            r.1 is Some ==> final(self)@ == fresh_ending(),
            r.1 is None ==> final(self)@.slow_motion == old(self)@.slow_motion
                && final(self)@.state_change == old(self)@.state_change,
    {
        match self.event {
            Some(e) => {
                if state_change_done {
                    *self = GameOver::default();
                    (TimeScaleAction::Reset, Some(e))
                } else {
                    (TimeScaleAction::Ease { recovering: slow_motion_over }, None)
                }
            },
            None => {
                let n = events.len();
                if n == 0 {
                    (TimeScaleAction::Keep, None)
                } else {
                    self.event = Some(events[n - 1]);
                    (TimeScaleAction::SlowDown, None)
                }
            },
        }
    }

    /// One frame of the ending with slow motion, `delta_nanos` after the last:
    /// see `frame_spec`.
    pub fn update(&mut self, delta_nanos: u64, events: &Vec<GameOverEvent>) -> (r: (
        TimeScaleAction,
        Option<GameOverEvent>,
    ))
        requires
            old(self).wf(),
        ensures
            final(self).wf(),
            (final(self)@, r.0, r.1) == frame_spec(old(self)@, events@, delta_nanos as nat, true),
    {
        let mut slow_motion_over = false;
        let mut state_change_done = false;
        if self.event.is_some() {
            proof {
                lemma_tick_keeps_wf(self.slow_motion_timer.model(), delta_nanos as nat);
                lemma_tick_keeps_wf(self.state_change_timer.model(), delta_nanos as nat);
            }
            self.slow_motion_timer.tick(delta_nanos);
            slow_motion_over = self.slow_motion_timer.finished();
            self.state_change_timer.tick(delta_nanos);
            state_change_done = self.state_change_timer.just_finished();
        }
        self.advance(slow_motion_over, state_change_done, events)
    }

    /// One frame of the ending without slow motion, `delta_nanos` after the
    /// last: while an ending is pending only the wait runs (see `frame_spec`).
    /// Returns the ending that completes in this frame.
    pub fn settle(&mut self, delta_nanos: u64, events: &Vec<GameOverEvent>) -> (done: Option<
        GameOverEvent,
    >)
        requires
            old(self).wf(),
        ensures
            final(self).wf(),
            final(self)@ == frame_spec(old(self)@, events@, delta_nanos as nat, false).0,
            done == frame_spec(old(self)@, events@, delta_nanos as nat, false).2,
    {
        let mut state_change_done = false;
        if self.event.is_some() {
            proof {
                lemma_tick_keeps_wf(self.state_change_timer.model(), delta_nanos as nat);
            }
            self.state_change_timer.tick(delta_nanos);
            state_change_done = self.state_change_timer.just_finished();
        }
        let (_, done) = self.advance(false, state_change_done, events);
        done
    }
}

/// A pending ending ignores every new ending until it completes.
pub proof fn lemma_pending_ending_holds(
    e: GameOverEvent,
    events: Seq<GameOverEvent>,
    slow_motion_over: bool,
)
    ensures
        advance_spec(Some(e), events, slow_motion_over, false).0 == Some(e),
        advance_spec(Some(e), events, slow_motion_over, false).2.is_none(),
{
}

/// An ending completes exactly once: the frame that completes it reports it
/// and leaves nothing pending, with the time scale back to normal.
pub proof fn lemma_completion_clears(
    e: GameOverEvent,
    events: Seq<GameOverEvent>,
    slow_motion_over: bool,
)
    ensures
        advance_spec(Some(e), events, slow_motion_over, true) == (
            None::<GameOverEvent>,
            TimeScaleAction::Reset,
            Some(e),
        ),
{
}

/// Only a pending ending completes: with nothing pending, no frame reports a
/// completed ending, whatever the timers say.
pub proof fn lemma_nothing_completes_unstarted(
    events: Seq<GameOverEvent>,
    slow_motion_over: bool,
    state_change_done: bool,
)
    ensures
        advance_spec(None, events, slow_motion_over, state_change_done).2.is_none(),
        events.len() == 0 ==> advance_spec(None, events, slow_motion_over, state_change_done)
            == (None::<GameOverEvent>, TimeScaleAction::Keep, None::<GameOverEvent>),
{
}

/// An ending after a run of frames `deltas` apart in which no new ending
/// happens.
pub open spec fn run_frames(e: Ending, deltas: Seq<nat>, with_slow_motion: bool) -> Ending
    decreases deltas.len(),
{
    if deltas.len() == 0 {
        e
    } else {
        frame_spec(
            run_frames(e, deltas.drop_last(), with_slow_motion),
            Seq::empty(),
            deltas.last(),
            with_slow_motion,
        ).0
    }
}

/// The state in the frame a match ends with `event`: the ending pending,
/// with fresh clocks.
pub open spec fn just_ended(event: GameOverEvent) -> Ending {
    Ending { pending: Some(event), ..fresh_ending() }
}

/// While no ending is pending, the clocks are fresh.
pub open spec fn idle_is_fresh(e: Ending) -> bool {
    e.pending is None ==> e.slow_motion == fresh_ending().slow_motion && e.state_change
        == fresh_ending().state_change
}

/// A pending ending pays no attention to the frame's new endings.
pub proof fn lemma_pending_ignores_new_endings(
    e: Ending,
    events: Seq<GameOverEvent>,
    delta: nat,
    with_slow_motion: bool,
)
    requires
        e.pending is Some,
    ensures
        frame_spec(e, events, delta, with_slow_motion) == frame_spec(
            e,
            Seq::empty(),
            delta,
            with_slow_motion,
        ),
{
}

/// The clocks only run while an ending is pending, and start afresh when it
/// completes: whenever nothing is pending, they are fresh.
pub proof fn lemma_idle_clocks_stay_fresh(
    e: Ending,
    events: Seq<GameOverEvent>,
    delta: nat,
    with_slow_motion: bool,
)
    requires
        idle_is_fresh(e),
    ensures
        idle_is_fresh(frame_spec(e, events, delta, with_slow_motion).0),
{
}

/// A match ends in the first frame that reports an ending (the last one
/// reported, if several), with fresh clocks, and the game drops into slow
/// motion; a frame without endings changes nothing.
pub proof fn lemma_ending_starts_fresh(
    events: Seq<GameOverEvent>,
    delta: nat,
    with_slow_motion: bool,
)
    ensures
        events.len() > 0 ==> frame_spec(fresh_ending(), events, delta, with_slow_motion) == (
            just_ended(events.last()),
            TimeScaleAction::SlowDown,
            None::<GameOverEvent>,
        ),
        events.len() == 0 ==> frame_spec(fresh_ending(), events, delta, with_slow_motion) == (
            fresh_ending(),
            TimeScaleAction::Keep,
            None::<GameOverEvent>,
        ),
{
}

/// The state of an ending before its wait is over: still pending, with the
/// wait's clock holding the game time since the ending, and the slow motion
/// over once its time has passed (when it runs at all).
proof fn lemma_waiting(event: GameOverEvent, deltas: Seq<nat>, with_slow_motion: bool)
    requires
        total_time(deltas) < STATE_CHANGE_NANOS,
    ensures
        ({
            let r = run_frames(just_ended(event), deltas, with_slow_motion);
            let total = total_time(deltas);
            &&& r.pending == Some(event)
            &&& r.state_change == TimerModel {
                duration: STATE_CHANGE_NANOS as nat,
                elapsed: total,
                repeating: false,
                finished: false,
                times_finished: 0,
            }
            &&& r.slow_motion.duration == SLOW_MOTION_NANOS
            &&& !r.slow_motion.repeating
            &&& r.slow_motion.finished == (with_slow_motion && total >= SLOW_MOTION_NANOS)
            &&& !r.slow_motion.finished ==> r.slow_motion.elapsed == (if with_slow_motion {
                total
            } else {
                0
            })
        }),
    decreases deltas.len(),
{
    if deltas.len() > 0 {
        lemma_waiting(event, deltas.drop_last(), with_slow_motion);
    }
}

/// The game moves on `STATE_CHANGE_NANOS` of game time after a match ends:
/// in the first frame in which the time since the ending reaches it, the
/// ending completes and the time scale goes back to normal; in every frame
/// before, the time scale eases towards slow motion, and back towards normal
/// speed once `SLOW_MOTION_NANOS` have passed (when the slow motion runs).
pub proof fn lemma_ending_moves_on_after_wait(
    event: GameOverEvent,
    deltas: Seq<nat>,
    with_slow_motion: bool,
)
    requires
        deltas.len() > 0,
        total_time(deltas.drop_last()) < STATE_CHANGE_NANOS,
    ensures
        ({
            let before = run_frames(just_ended(event), deltas.drop_last(), with_slow_motion);
            let step = frame_spec(before, Seq::empty(), deltas.last(), with_slow_motion);
            let total = total_time(deltas);
            &&& step.2 == (if total >= STATE_CHANGE_NANOS {
                Some(event)
            } else {
                None::<GameOverEvent>
            })
            &&& step.2 is Some ==> step.1 == TimeScaleAction::Reset && step.0 == fresh_ending()
            &&& step.2 is None ==> step.1 == TimeScaleAction::Ease {
                recovering: with_slow_motion && total >= SLOW_MOTION_NANOS,
            } && step.0.pending == Some(event)
        }),
{
    lemma_waiting(event, deltas.drop_last(), with_slow_motion);
}

} // verus!
