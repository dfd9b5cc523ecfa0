//! The slit wall of a practice: a row of blocks across the arena with one
//! gap, which moves every time the player hits the ball.

use crate::cycle::{lemma_reroll_changes, reroll, reroll_index};
use crate::random::draw;
use crate::timing::{Clock, fresh_timer, lemma_tick_keeps_wf, tick_timer, timer_wf};
use vstd::prelude::*;

verus! {

/// How long the gap takes to move, in nanoseconds.
pub const SLIT_MOVE_NANOS: u64 = 100_000_000;

/// Where the gap of the slit wall is.
pub enum SlitState {
    /// The gap stands at this position.
    Stand(usize),
    /// The gap moves from `previous` to `next` while the timer runs.
    Move { previous: usize, next: usize, timer: Clock },
}

/// The slit wall: `count` blocks over `count + 1` positions, one of which is
/// the gap.
pub struct Slits {
    pub count: usize,
    pub state: SlitState,
    /// The last draw of a gap's destination, if any: the lowest and highest
    /// roll it could give, and the roll it gave.
    pub last_draw: Ghost<Option<(int, int, int)>>,
}

/// The positions that the state names all lie on the wall, and a moving
/// gap's timer is a well-formed one-shot timer.
pub open spec fn state_within(state: SlitState, count: int) -> bool {
    match state {
        SlitState::Stand(gap) => gap <= count,
        SlitState::Move { previous, next, timer } => {
            &&& previous <= count
            &&& next <= count
            &&& timer_wf(timer.model())
            &&& !timer.model().repeating
        },
    }
}

/// The position that block `block` takes when the gap is at `gap`: the blocks
/// fill the positions in order, stepping over the gap.
pub open spec fn slot(block: int, gap: int) -> int {
    if block >= gap {
        block + 1
    } else {
        block
    }
}

/// The block at position `position` when the gap is at `gap` (for a position
/// off the gap).
pub open spec fn block_at(position: int, gap: int) -> int {
    if position < gap {
        position
    } else {
        position - 1
    }
}

/// The position that block `block` takes when the gap is at `gap`.
pub fn slit_slot(block: usize, gap: usize) -> (position: usize)
    requires
        block < usize::MAX,
    ensures
        position == slot(block as int, gap as int),
{
    let offset: usize = if block >= gap {
        1
    } else {
        0
    };
    block + offset
}

impl Slits {
    /// Whether every position the wall's state names lies on the wall.
    pub open spec fn wf(self) -> bool {
        &&& self.count < usize::MAX
        &&& state_within(self.state, self.count as int)
    }

    /// The last draw of a gap's destination, if any: the lowest and highest
    /// roll it could give, and the roll it gave.
    pub open spec fn last_draw(self) -> Option<(int, int, int)> {
        self.last_draw@
    }

    /// A wall of `count` blocks, with the gap standing at the first position.
    pub fn new(count: usize) -> (s: Self)
        ensures
            s.count == count,
            s.state matches SlitState::Stand(g) && g == 0,
            s.last_draw() is None,
    {
        Slits { count, state: SlitState::Stand(0), last_draw: Ghost(None) }
    }

    /// Sets the wall up for a practice: the gap stands in the middle. Returns
    /// the number of blocks to place, numbered from zero.
    pub fn make_slit_blocks(&mut self) -> (blocks: usize)
        ensures
            blocks == old(self).count,
            final(self).count == old(self).count,
            final(self).state matches SlitState::Stand(g) && g == old(self).count / 2,
            final(self).last_draw() == old(self).last_draw(),
    {
        self.state = SlitState::Stand(self.count / 2);
        self.count
    }

    /// Starts moving a standing gap to the position drawn as `roll`, or to the
    /// next one round if that is where it stands: the gap always moves when
    /// the wall has more than one position.
    pub fn begin_move(&mut self, roll: usize)
        requires
            old(self).wf(),
            old(self).state is Stand,
            roll <= old(self).count,
        ensures
            final(self).count == old(self).count,
            final(self).wf(),
            final(self).last_draw() == old(self).last_draw(),
            final(self).state matches SlitState::Move { previous, next, timer } && previous
                == old(self).state->Stand_0 && next == reroll(
                previous as int,
                roll as int,
                old(self).count + 1,
            ) && timer.model() == fresh_timer(SLIT_MOVE_NANOS as nat, false),
    {
        let previous = match &self.state {
            SlitState::Stand(g) => *g,
            SlitState::Move { .. } => 0,
        };
        let next = reroll_index(previous, roll, self.count + 1);
        self.state = SlitState::Move { previous, next, timer: Clock::new(SLIT_MOVE_NANOS, false) };
    }

    /// The player hit the ball `hits` times in a frame: a standing gap starts
    /// moving to another position drawn at random; a moving gap carries on.
    pub fn change_slits(&mut self, hits: usize)
        requires
            old(self).wf(),
        ensures
            final(self).wf(),
            final(self).count == old(self).count,
            (hits == 0 || old(self).state is Move) ==> final(self).state == old(self).state,
            (hits > 0 && old(self).state is Stand) ==> exists|roll: int|
                0 <= roll <= old(self).count && (final(self).state matches SlitState::Move {
                    previous,
                    next,
                    timer,
                } && previous == old(self).state->Stand_0 && next == #[trigger] reroll(
                    old(self).state->Stand_0 as int,
                    roll,
                    old(self).count + 1,
                ) && timer.model() == fresh_timer(SLIT_MOVE_NANOS as nat, false)),
            (hits == 0 || old(self).state is Move) ==> final(self).last_draw() == old(self).last_draw(),
            (hits > 0 && old(self).state is Stand) ==> {
                &&& final(self).last_draw() matches Some((low, high, roll))
                &&& low == 0
                &&& high == old(self).count
                &&& low <= roll <= high
                &&& final(self).state matches SlitState::Move { next, .. }
                &&& next == crate::cycle::reroll(old(self).state->Stand_0 as int, roll, old(self).count + 1)
            },
    {
        if hits > 0 {
            if let SlitState::Stand(_) = &self.state {
                let d = draw(0, self.count);
                self.begin_move(d.value);
                self.last_draw = Ghost(Some((d.range@.0, d.range@.1, d.value as int)));
            }
        }
    }

    /// A frame `delta_nanos` (in game time) after the last: a moving gap's
    /// timer runs on, and once it finishes the gap comes to stand at its
    /// destination; a standing gap stays.
    pub fn slits_system(&mut self, delta_nanos: u64)
        requires
            old(self).wf(),
        ensures
            final(self).wf(),
            final(self).count == old(self).count,
            final(self).last_draw() == old(self).last_draw(),
            old(self).state is Stand ==> final(self).state == old(self).state,
            old(self).state matches SlitState::Move { previous, next, timer } ==> {
                let ticked = tick_timer(timer.model(), delta_nanos as nat);
                if ticked.times_finished > 0 {
                    final(self).state matches SlitState::Stand(g) && g == next
                } else {
                    final(self).state matches SlitState::Move { previous: p, next: n, timer: t }
                        && p == previous && n == next && t.model() == ticked
                }
            },
    {
        let mut arrived: Option<usize> = None;
        match &mut self.state {
            SlitState::Move { next, timer, .. } => {
                proof {
                    lemma_tick_keeps_wf(timer.model(), delta_nanos as nat);
                }
                timer.tick(delta_nanos);
                if timer.just_finished() {
                    arrived = Some(*next);
                }
            },
            SlitState::Stand(_) => {},
        }
        if let Some(g) = arrived {
            self.state = SlitState::Stand(g);
        }
    }
}

/// The blocks leave exactly the gap free: with the gap at `gap` on a wall of
/// `count` blocks, the blocks take distinct positions, in order, on the wall
/// and off the gap, and every other position of the wall is taken.
pub proof fn lemma_slots_leave_gap(count: int, gap: int)
    requires
        0 <= gap <= count,
    ensures
        forall|b: int| 0 <= b < count ==> 0 <= #[trigger] slot(b, gap) <= count && slot(b, gap) != gap,
        forall|b1: int, b2: int|
            0 <= b1 < b2 < count ==> #[trigger] slot(b1, gap) < #[trigger] slot(b2, gap),
        forall|p: int|
            0 <= p <= count && p != gap ==> 0 <= #[trigger] block_at(p, gap) < count && slot(
                block_at(p, gap),
                gap,
            ) == p,
{
}

/// Every hit on a wall of two positions or more moves the gap to another
/// position of the wall.
pub proof fn lemma_gap_moves(count: int, previous: int, roll: int)
    requires
        count >= 1,
        0 <= previous <= count,
        0 <= roll <= count,
    ensures
        0 <= reroll(previous, roll, count + 1) <= count,
        reroll(previous, roll, count + 1) != previous,
{
    lemma_reroll_changes(previous, roll, count + 1);
}

/// Any position can receive the gap: for a standing gap and every other
/// position of the wall, some roll of the draw that `Slits::change_slits`
/// makes (over every position, `0..=count`) moves the gap there.
pub proof fn lemma_every_position_can_receive_gap(count: int, gap: int, target: int)
    requires
        0 <= gap <= count,
        0 <= target <= count,
        target != gap,
    ensures
        exists|roll: int| 0 <= roll <= count && #[trigger] reroll(gap, roll, count + 1) == target,
{
    assert(reroll(gap, target, count + 1) == target);
}

} // verus!
