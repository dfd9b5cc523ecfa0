//! The game modes: a match against the computer (battle), the story, and a
//! practice against a slit wall. Each mode's plugin holds the rules that its
//! systems apply every frame.

use crate::base::PlayerBase;
use crate::game_over::{Ending, GameOver, GameOverEvent, TimeScaleAction, frame_spec};
use crate::timing::tick_timer;
use crate::slits::Slits;
use crate::state::AppState;
use vstd::prelude::*;

verus! {

/// The stage of a practice: first plain play, then against the slit wall.
#[derive(Clone, Copy, Debug, PartialEq, Eq, Structural, Hash)]
pub enum PracticeState {
    Plain,
    Slits,
}

/// The screen a finished match leads to: the score after a win, the menu
/// after a loss.
pub open spec fn match_end_state(event: GameOverEvent) -> AppState {
    match event {
        GameOverEvent::Win => AppState::Score,
        GameOverEvent::Lose => AppState::Menu,
    }
}

/// A frame of a match's ending, as `frame_spec` gives it with slow motion,
/// with the completed ending turned into the screen it leads to.
pub open spec fn match_end_step(
    e: Ending,
    events: Seq<GameOverEvent>,
    delta: nat,
) -> (Ending, TimeScaleAction, Option<AppState>) {
    let s = frame_spec(e, events, delta, true);
    (
        s.0,
        s.1,
        match s.2 {
            Some(done) => Some(match_end_state(done)),
            None => None,
        },
    )
}

/// The end of a match, shared by the battle and the story: the ending plays
/// out in slow motion, then leads to the score or the menu.
fn match_game_over(game_over: &mut GameOver, delta_nanos: u64, events: &Vec<GameOverEvent>) -> (r: (
    TimeScaleAction,
    Option<AppState>,
))
    requires
        old(game_over).wf(),
    ensures
        final(game_over).wf(),
        (final(game_over)@, r.0, r.1) == match_end_step(old(game_over)@, events@, delta_nanos as nat),
{
    let (action, done) = game_over.update(delta_nanos, events);
    let next = match done {
        Some(e) => Some(BattlePlugin::next_state(e)),
        None => None,
    };
    (action, next)
}

/// A match against the computer.
pub struct BattlePlugin;

impl BattlePlugin {
    /// The screen a finished match leads to: the score after a win, the menu
    /// after a loss.
    pub fn next_state(event: GameOverEvent) -> (s: AppState)
        ensures
            s == match_end_state(event),
    {
        match event {
            GameOverEvent::Win => AppState::Score,
            GameOverEvent::Lose => AppState::Menu,
        }
    }

    /// A frame of the match's ending, `delta_nanos` after the last: returns
    /// what to do with the time scale and the screen to move to, if any.
    pub fn game_over_system(
        game_over: &mut GameOver,
        delta_nanos: u64,
        events: &Vec<GameOverEvent>,
    ) -> (r: (TimeScaleAction, Option<AppState>))
        requires
            old(game_over).wf(),
        ensures
            final(game_over).wf(),
            (final(game_over)@, r.0, r.1) == match_end_step(old(game_over)@, events@, delta_nanos as nat),
    {
        match_game_over(game_over, delta_nanos, events)
    }
}

/// The story mode.
pub struct StoryPlugin;

impl StoryPlugin {
    /// A frame of the match's ending, `delta_nanos` after the last: the same
    /// as in a battle.
    pub fn game_over_system(
        game_over: &mut GameOver,
        delta_nanos: u64,
        events: &Vec<GameOverEvent>,
    ) -> (r: (TimeScaleAction, Option<AppState>))
        requires
            old(game_over).wf(),
        ensures
            final(game_over).wf(),
            (final(game_over)@, r.0, r.1) == match_end_step(old(game_over)@, events@, delta_nanos as nat),
    {
        match_game_over(game_over, delta_nanos, events)
    }
}

/// A practice: the ball count never runs out, the enemy base heals after it
/// is beaten, and any ending moves the practice on to the slit wall.
pub struct PracticePlugin;

impl PracticePlugin {
    /// The stage a practice starts at.
    pub fn enter_practice() -> (s: PracticeState)
        ensures
            s == PracticeState::Plain,
    {
        PracticeState::Plain
    }

    /// A frame of the practice's progress, `delta_nanos` after the last: once
    /// the wait after an ending is over, the practice moves on to the slit
    /// wall.
    pub fn progress_system(
        game_over: &mut GameOver,
        delta_nanos: u64,
        events: &Vec<GameOverEvent>,
    ) -> (next: Option<PracticeState>)
        requires
            old(game_over).wf(),
        ensures
            final(game_over).wf(),
            final(game_over)@ == frame_spec(old(game_over)@, events@, delta_nanos as nat, false).0,
            next == (if frame_spec(old(game_over)@, events@, delta_nanos as nat, false).2 is Some {
                Some(PracticeState::Slits)
            } else {
                None::<PracticeState>
            }),
    {
        let done = game_over.settle(delta_nanos, events);
        match done {
            Some(_) => Some(PracticeState::Slits),
            None => None,
        }
    }

    /// A frame of the enemy base's recovery, `delta_nanos` after the last:
    /// once the wait after a win is over, the enemy base heals fully. Returns
    /// whether to heal.
    pub fn recover_enemy_health(
        game_over: &mut GameOver,
        delta_nanos: u64,
        events: &Vec<GameOverEvent>,
    ) -> (heal: bool)
        requires
            old(game_over).wf(),
        ensures
            final(game_over).wf(),
            final(game_over)@ == frame_spec(old(game_over)@, events@, delta_nanos as nat, false).0,
            heal == (frame_spec(old(game_over)@, events@, delta_nanos as nat, false).2 == Some(
                GameOverEvent::Win,
            )),
    {
        let done = game_over.settle(delta_nanos, events);
        match done {
            Some(GameOverEvent::Win) => true,
            _ => false,
        }
    }

    /// Keeps the player's reserve full in a practice.
    pub fn player_ball_infinite(base: &mut PlayerBase)
        ensures
            final(base).ball_count == crate::base::PRACTICE_BALL_COUNT,
    {
        base.player_ball_infinite();
    }

    /// Moves the slit wall's gap when the player hits the ball: see
    /// `Slits::change_slits`.
    pub fn change_slits(slits: &mut Slits, hits: usize)
        requires
            old(slits).wf(),
        ensures
            final(slits).wf(),
            final(slits).count == old(slits).count,
            (hits == 0 || old(slits).state is Move) ==> final(slits).state == old(slits).state,
            (hits > 0 && old(slits).state is Stand) ==> exists|roll: int|
                0 <= roll <= old(slits).count && (final(slits).state matches crate::slits::SlitState::Move {
                    previous,
                    next,
                    timer,
                } && previous == old(slits).state->Stand_0 && next == #[trigger] crate::cycle::reroll(
                    old(slits).state->Stand_0 as int,
                    roll,
                    old(slits).count + 1,
                ) && timer.model() == crate::timing::fresh_timer(
                    crate::slits::SLIT_MOVE_NANOS as nat,
                    false,
                )),
            (hits == 0 || old(slits).state is Move) ==> final(slits).last_draw() == old(slits).last_draw(),
            (hits > 0 && old(slits).state is Stand) ==> {
                &&& final(slits).last_draw() matches Some((low, high, roll))
                &&& low == 0
                &&& high == old(slits).count
                &&& low <= roll <= high
                &&& final(slits).state matches crate::slits::SlitState::Move { next, .. }
                &&& next == crate::cycle::reroll(old(slits).state->Stand_0 as int, roll, old(slits).count + 1)
            },
    {
        slits.change_slits(hits);
    }
}

/// A battle and a story end alike: a loss always returns to the menu and a
/// win always shows the score, in the frame in which the wait after the
/// ending is over; before that, no screen change happens.
pub proof fn lemma_match_end_destination(e: Ending, events: Seq<GameOverEvent>, delta: nat)
    requires
        e.pending is Some,
    ensures
        match_end_step(e, events, delta).2 == (if tick_timer(e.state_change, delta).times_finished
            > 0 {
            Some(match_end_state(e.pending->0))
        } else {
            None::<AppState>
        }),
        match_end_state(GameOverEvent::Lose) == AppState::Menu,
        match_end_state(GameOverEvent::Win) == AppState::Score,
{
}

} // verus!
