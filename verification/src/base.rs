//! The player's base: the balls held in reserve, and what a miss costs.

use vstd::prelude::*;

verus! {

/// The balls a player's base starts a match with.
pub const PLAYER_BASE_BALL_COUNT: i32 = 3;

/// The reserve a practice keeps topping up to.
pub const PRACTICE_BALL_COUNT: i32 = 99;

/// The bottom wall, which the player defends.
#[derive(Clone, Copy, Debug, PartialEq, Eq, Structural)]
pub struct PlayerBase {
    /// The balls left in reserve.
    pub ball_count: i32,
}

/// What a miss (the ball hitting the player's base) leads to.
#[derive(Clone, Copy, Debug, PartialEq, Eq, Structural)]
pub struct MissOutcome {
    /// The reserve at the moment of the miss.
    pub lives: i32,
    /// The match is lost; otherwise a new ball is served.
    pub game_over: bool,
}

/// The reserve after one miss: a ball is taken from a nonzero reserve, an
/// empty one stays empty.
pub open spec fn after_miss(count: int) -> int {
    if count == 0 {
        0
    } else {
        count - 1
    }
}

/// The reserve after `n` misses, starting from `count`.
pub open spec fn after_misses(count: int, n: nat) -> int
    decreases n,
{
    if n == 0 {
        count
    } else {
        after_miss(after_misses(count, (n - 1) as nat))
    }
}

/// The outcome of a miss on a reserve of `count`.
pub open spec fn miss_outcome(count: int) -> MissOutcome {
    MissOutcome { lives: count as i32, game_over: count == 0 }
}

impl MissOutcome {
    /// Whether this miss spent the last of the reserve (or came after it),
    /// which calls for the long explosion.
    pub fn final_blow(&self) -> (b: bool)
        ensures
            b == (self.lives <= 0),
    {
        self.lives <= 0
    }
}

impl Default for PlayerBase {
    /// A full reserve.
    fn default() -> (b: Self)
        ensures
            b.ball_count == PLAYER_BASE_BALL_COUNT,
    {
        PlayerBase { ball_count: PLAYER_BASE_BALL_COUNT }
    }
}

impl PlayerBase {
    /// The ball hit this base: with an empty reserve the match is lost,
    /// otherwise one ball is taken from the reserve to serve the next.
    pub fn miss(&mut self) -> (out: MissOutcome)
        requires
            old(self).ball_count > i32::MIN,
        ensures
            out == miss_outcome(old(self).ball_count as int),
            final(self).ball_count == after_miss(old(self).ball_count as int),
    {
        let lives = self.ball_count;
        if self.ball_count == 0 {
            MissOutcome { lives, game_over: true }
        } else {
            self.ball_count = self.ball_count - 1;
            MissOutcome { lives, game_over: false }
        }
    }

    /// Each of `n` misses in turn: one outcome per miss, in order.
    pub fn misses(&mut self, n: usize) -> (outs: Vec<MissOutcome>)
        requires
            old(self).ball_count >= 0 || old(self).ball_count - n > i32::MIN,
        ensures
            outs@.len() == n,
            forall|i: int|
                0 <= i < n ==> #[trigger] outs@[i] == miss_outcome(
                    after_misses(old(self).ball_count as int, i as nat),
                ),
            final(self).ball_count == after_misses(old(self).ball_count as int, n as nat),
    {
        let ghost c0 = self.ball_count as int;
        let mut outs: Vec<MissOutcome> = Vec::new();
        let mut i: usize = 0;
        while i < n
            invariant
                i <= n,
                c0 >= 0 || c0 - n > i32::MIN,
                outs@.len() == i,
                self.ball_count == after_misses(c0, i as nat),
                forall|j: int|
                    0 <= j < i ==> #[trigger] outs@[j] == miss_outcome(after_misses(c0, j as nat)),
            decreases n - i,
        {
            proof {
                lemma_after_misses_value(c0, i as nat);
            }
            let out = self.miss();
            outs.push(out);
            i = i + 1;
        }
        outs
    }

    /// A practice's endless reserve: the base is topped up every frame.
    pub fn player_ball_infinite(&mut self)
        ensures
            final(self).ball_count == PRACTICE_BALL_COUNT,
    {
        self.ball_count = PRACTICE_BALL_COUNT;
    }
}

/// A reserve of `count >= 0` balls shrinks by one per miss down to zero and
/// stays there; a negative reserve goes on shrinking by one per miss.
pub proof fn lemma_after_misses_value(count: int, n: nat)
    ensures
        count >= 0 ==> after_misses(count, n) == (if count - n >= 0 { count - n } else { 0 }),
        count < 0 ==> after_misses(count, n) == count - n,
    decreases n,
{
    if n > 0 {
        lemma_after_misses_value(count, (n - 1) as nat);
    }
}

/// With `count >= 0` balls in reserve, a miss ends the match exactly when it
/// comes after `count` earlier misses: the first `count` misses each serve a
/// new ball, every later one is a loss.
pub proof fn lemma_loss_after_reserve_spent(count: int, i: nat)
    requires
        count >= 0,
    ensures
        miss_outcome(after_misses(count, i)).game_over == (i >= count),
{
    lemma_after_misses_value(count, i);
}

/// The misses report the reserve counting down: with `count` balls in
/// reserve, the miss after `i` earlier ones reports `count - i` balls, as
/// long as any are left.
pub proof fn lemma_misses_count_down(count: int, i: nat)
    requires
        0 <= count <= i32::MAX,
        i <= count,
    ensures
        miss_outcome(after_misses(count, i)).lives == count - i,
        after_misses(count, i + 1) == after_misses(count, i) - (if i < count {
            1int
        } else {
            0
        }),
{
    lemma_after_misses_value(count, i);
    lemma_after_misses_value(count, i + 1);
}

/// The score after counting a frame's hits and misses.
pub open spec fn tally(hits: int, miss: int, hit_events: int, miss_events: int) -> (int, int) {
    (hits + hit_events, miss + miss_events)
}

/// Counts a frame's hits on the enemy base and misses into the score: one
/// point of hits per hit, one point of misses per miss.
pub fn score_system(hits: i32, miss: i32, hit_events: usize, miss_events: usize) -> (r: (i32, i32))
    requires
        hits + hit_events <= i32::MAX,
        miss + miss_events <= i32::MAX,
    ensures
        (r.0 as int, r.1 as int) == tally(
            hits as int,
            miss as int,
            hit_events as int,
            miss_events as int,
        ),
        r.0 == hits + hit_events,
        r.1 == miss + miss_events,
{
    let mut h = hits;
    let mut k: usize = 0;
    while k < hit_events
        invariant
            k <= hit_events,
            h == hits + k,
            hits + hit_events <= i32::MAX,
        decreases hit_events - k,
    {
        h = h + 1;
        k = k + 1;
    }
    let mut m = miss;
    let mut j: usize = 0;
    while j < miss_events
        invariant
            j <= miss_events,
            m == miss + j,
            miss + miss_events <= i32::MAX,
        decreases miss_events - j,
    {
        m = m + 1;
        j = j + 1;
    }
    (h, m)
}

/// The score counts every event on its own: each miss adds one to the misses
/// and each hit one to the hits, whatever else the frame holds; a frame
/// without events leaves the score as it was, and counting two frames one
/// after the other is counting their events together.
pub proof fn lemma_score_counts_each_event(
    hits: int,
    miss: int,
    hit_events: int,
    miss_events: int,
    more_hits: int,
    more_misses: int,
)
    requires
        hit_events >= 0,
        miss_events >= 0,
        more_hits >= 0,
        more_misses >= 0,
    ensures
        tally(hits, miss, hit_events, miss_events + 1).1 == tally(
            hits,
            miss,
            hit_events,
            miss_events,
        ).1 + 1,
        tally(hits, miss, hit_events + 1, miss_events).0 == tally(
            hits,
            miss,
            hit_events,
            miss_events,
        ).0 + 1,
        tally(hits, miss, hit_events, miss_events).1 == tally(hits, miss, 0, miss_events).1,
        tally(hits, miss, hit_events, miss_events).0 == tally(hits, miss, hit_events, 0).0,
        tally(hits, miss, 0, 0) == (hits, miss),
        ({
            let first = tally(hits, miss, hit_events, miss_events);
            tally(first.0, first.1, more_hits, more_misses) == tally(
                hits,
                miss,
                hit_events + more_hits,
                miss_events + more_misses,
            )
        }),
{
}

} // verus!
