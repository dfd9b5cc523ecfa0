//! Texts of the menu that change over time: a title flashing through its
//! colors, and a line of hints that changes at random.

use crate::cycle::{reroll, reroll_index};
use crate::random::draw;
use crate::timing::{
    Clock, TimerModel, fresh_timer, lemma_repeating_run, lemma_tick_keeps_wf, run_ticks, tick_timer,
    timer_wf, total_time,
};
use vstd::prelude::*;

verus! {

/// The number of hints.
pub const HINT_COUNT: usize = 3;

/// The hint of number `index`.
pub open spec fn hint_text_spec(index: int) -> Seq<char> {
    if index == 0 {
        "Control your ball speed!"@
    } else if index == 1 {
        "Can your paddle catch the ball on its own?"@
    } else {
        "Try to bounce; not to push!"@
    }
}

/// The hint of number `index`.
pub fn hint_text(index: usize) -> (text: &'static str)
    requires
        index < HINT_COUNT,
    ensures
        text@ == hint_text_spec(index as int),
{
    if index == 0 {
        "Control your ball speed!"
    } else if index == 1 {
        "Can your paddle catch the ball on its own?"
    } else {
        "Try to bounce; not to push!"
    }
}

/// A text that cycles through `color_count` colors, one step per period.
pub struct ColorText {
    timer: Clock,
    color_count: usize,
    index: usize,
}

impl ColorText {
    /// The color currently shown.
    pub closed spec fn shown(self) -> nat {
        self.index as nat
    }

    /// The number of colors cycled through.
    pub closed spec fn colors(self) -> nat {
        self.color_count as nat
    }

    /// The clock of the color changes.
    pub closed spec fn clock(self) -> TimerModel {
        self.timer.model()
    }

    /// The time between two color changes, in nanoseconds.
    pub open spec fn period(self) -> nat {
        self.clock().duration
    }

    /// The color shown is one of the colors cycled through, and the clock is
    /// a well-formed repeating timer.
    pub open spec fn wf(self) -> bool {
        &&& self.shown() < self.colors()
        &&& timer_wf(self.clock())
        &&& self.clock().repeating
    }

    /// Starts on the first of `color_count` colors, changing every
    /// `period_nanos` nanoseconds.
    pub fn new(color_count: usize, period_nanos: u64) -> (t: Self)
        requires
            period_nanos > 0,
        ensures
            t.shown() == 0,
            t.colors() == color_count,
            t.clock() == fresh_timer(period_nanos as nat, true),
            t.wf() == (color_count > 0),
    {
        ColorText { timer: Clock::new(period_nanos, true), color_count, index: 0 }
    }

    /// The color currently shown.
    pub fn index(&self) -> (i: usize)
        ensures
            i == self.shown(),
    {
        self.index
    }

    /// Moves to the next color, round to the first after the last.
    pub fn advance(&mut self)
        requires
            old(self).wf(),
        ensures
            final(self).wf(),
            final(self).colors() == old(self).colors(),
            final(self).clock() == old(self).clock(),
            final(self).shown() == (old(self).shown() + 1) % old(self).colors(),
    {
        self.index = (self.index + 1) % self.color_count;
    }

    /// A frame `delta_nanos` after the last: returns the color to show in it;
    /// the clock runs on, and the text moves to the next color once for a
    /// frame in which the period comes round.
    pub fn update(&mut self, delta_nanos: u64) -> (shown: usize)
        requires
            old(self).wf(),
            delta_nanos <= old(self).period() * 4_294_967_295,
        ensures
            shown == old(self).shown(),
            final(self).wf(),
            final(self).colors() == old(self).colors(),
            final(self).clock() == tick_timer(old(self).clock(), delta_nanos as nat),
            final(self).shown() == (if final(self).clock().times_finished > 0 {
                (old(self).shown() + 1) % old(self).colors()
            } else {
                old(self).shown()
            }),
    {
        let shown = self.index;
        proof {
            lemma_tick_keeps_wf(self.timer.model(), delta_nanos as nat);
        }
        self.timer.tick(delta_nanos);
        if self.timer.just_finished() {
            self.advance();
        }
        shown
    }
}

/// The color shown after a run of frames `deltas` apart, starting on color
/// `shown` of `colors` with the clock at `clock`: one color on, round to the
/// first after the last, for each frame in which the period comes round.
pub open spec fn color_run(shown: nat, colors: nat, clock: TimerModel, deltas: Seq<nat>) -> nat
    decreases deltas.len(),
{
    if deltas.len() == 0 {
        shown
    } else {
        let prev = color_run(shown, colors, clock, deltas.drop_last());
        if run_ticks(clock, deltas).times_finished > 0 {
            (prev + 1) % colors
        } else {
            prev
        }
    }
}

/// With frames shorter than its period, a flashing title started afresh
/// shows color number (game time / period) modulo the number of colors: it
/// steps on once per period.
pub proof fn lemma_color_follows_time(colors: nat, period: nat, deltas: Seq<nat>)
    requires
        colors > 0,
        period > 0,
        forall|i: int| 0 <= i < deltas.len() ==> deltas[i] < period,
    ensures
        color_run(0, colors, fresh_timer(period, true), deltas) == (total_time(deltas) / period)
            % colors,
    decreases deltas.len(),
{
    let clock = fresh_timer(period, true);
    if deltas.len() == 0 {
        vstd::arithmetic::div_mod::lemma_basic_div(0, period as int);
        vstd::arithmetic::div_mod::lemma_small_mod(0, colors);
    } else {
        let prev = deltas.drop_last();
        let d = deltas.last();
        assert forall|i: int| 0 <= i < prev.len() implies prev[i] < period by {
            assert(prev[i] == deltas[i]);
        }
        lemma_color_follows_time(colors, period, prev);
        lemma_repeating_run(period, prev);
        lemma_repeating_run(period, deltas);
        let t = total_time(prev);
        let e = t % period;
        assert(e < period) by {
            vstd::arithmetic::div_mod::lemma_mod_bound(t as int, period as int);
        }
        assert(d < period);
        let times = run_ticks(clock, deltas).times_finished;
        assert(times <= 1) by {
            if e + d >= period {
                assert((e + d) / period < 2) by (nonlinear_arith)
                    requires
                        e + d < 2 * period,
                        period > 0,
                ;
            }
        }
        let q = t / period;
        assert(total_time(deltas) / period == q + times);
        if times == 1 {
            vstd::arithmetic::div_mod::lemma_add_mod_noop_right(1, q as int, colors as int);
        }
    }
}

/// A line of hints that changes to another hint, drawn at random, every
/// period.
pub struct HintText {
    index: usize,
    timer: Clock,
    last_draw: Ghost<Option<(int, int, int)>>,
}

impl HintText {
    /// The hint currently shown.
    pub closed spec fn shown(self) -> nat {
        self.index as nat
    }

    /// The clock of the hint changes.
    pub closed spec fn clock(self) -> TimerModel {
        self.timer.model()
    }

    /// The last draw of a next hint, if any: the lowest and highest roll it
    /// could give, and the roll it gave.
    pub closed spec fn last_draw(self) -> Option<(int, int, int)> {
        self.last_draw@
    }

    /// The time between two hint changes, in nanoseconds.
    pub open spec fn period(self) -> nat {
        self.clock().duration
    }

    /// The hint shown is one of the hints, and the clock is a well-formed
    /// repeating timer.
    pub open spec fn wf(self) -> bool {
        &&& self.shown() < HINT_COUNT
        &&& timer_wf(self.clock())
        &&& self.clock().repeating
    }

    /// Starts on the first hint, changing every `period_nanos` nanoseconds.
    pub fn new(period_nanos: u64) -> (t: Self)
        requires
            period_nanos > 0,
        ensures
            t.shown() == 0,
            t.clock() == fresh_timer(period_nanos as nat, true),
            t.last_draw() is None,
            t.wf(),
    {
        HintText { index: 0, timer: Clock::new(period_nanos, true), last_draw: Ghost(None) }
    }

    /// The hint currently shown.
    pub fn index(&self) -> (i: usize)
        ensures
            i == self.shown(),
    {
        self.index
    }

    /// Moves to the hint drawn as `roll`, or to the next one round if that is
    /// the current one: the hint always changes.
    pub fn advance(&mut self, roll: usize)
        requires
            old(self).wf(),
            roll < HINT_COUNT,
        ensures
            final(self).shown() == reroll(old(self).shown() as int, roll as int, HINT_COUNT as int),
            final(self).wf(),
            final(self).clock() == old(self).clock(),
            final(self).last_draw() == old(self).last_draw(),
            final(self).shown() != old(self).shown(),
    {
        proof {
            crate::cycle::lemma_reroll_changes(self.index as int, roll as int, HINT_COUNT as int);
        }
        self.index = reroll_index(self.index, roll, HINT_COUNT);
    }

    /// A frame `delta_nanos` after the last: returns the hint to show in it;
    /// the clock runs on, and for a frame in which the period comes round the
    /// line moves to another hint drawn at random.
    pub fn update(&mut self, delta_nanos: u64) -> (text: &'static str)
        requires
            old(self).wf(),
            delta_nanos <= old(self).period() * 4_294_967_295,
        ensures
            text@ == hint_text_spec(old(self).shown() as int),
            final(self).wf(),
            final(self).clock() == tick_timer(old(self).clock(), delta_nanos as nat),
            final(self).clock().times_finished == 0 ==> final(self).shown() == old(self).shown()
                && final(self).last_draw() == old(self).last_draw(),
            final(self).clock().times_finished > 0 ==> (final(self).last_draw() matches Some(
                (low, high, roll),
            ) && low == 0 && high == HINT_COUNT - 1 && low <= roll <= high && final(self).shown()
                == reroll(old(self).shown() as int, roll, HINT_COUNT as int)),
            final(self).clock().times_finished > 0 ==> exists|roll: int|
                0 <= roll < HINT_COUNT && #[trigger] reroll(
                    old(self).shown() as int,
                    roll,
                    HINT_COUNT as int,
                ) == final(self).shown(),
    {
        let text = hint_text(self.index);
        proof {
            lemma_tick_keeps_wf(self.timer.model(), delta_nanos as nat);
        }
        self.timer.tick(delta_nanos);
        if self.timer.just_finished() {
            let d = draw(0, HINT_COUNT - 1);
            self.advance(d.value);
            self.last_draw = Ghost(Some((d.range@.0, d.range@.1, d.value as int)));
        }
        text
    }
}

/// Any hint can follow any other: for a shown hint and every other hint,
/// some roll of the draw that `HintText::update` makes (over every hint,
/// `0..=HINT_COUNT - 1`) leads to it, and every roll leads away from the
/// shown hint.
pub proof fn lemma_every_other_hint_can_follow(shown: int, target: int)
    requires
        0 <= shown < HINT_COUNT,
        0 <= target < HINT_COUNT,
    ensures
        target != shown ==> exists|roll: int|
            0 <= roll <= HINT_COUNT - 1 && #[trigger] reroll(shown, roll, HINT_COUNT as int)
                == target,
        forall|roll: int|
            0 <= roll <= HINT_COUNT - 1 ==> #[trigger] reroll(shown, roll, HINT_COUNT as int)
                != shown,
{
    if target != shown {
        assert(reroll(shown, target, HINT_COUNT as int) == target);
    }
    assert forall|roll: int| 0 <= roll <= HINT_COUNT - 1 implies #[trigger] reroll(
        shown,
        roll,
        HINT_COUNT as int,
    ) != shown by {
        crate::cycle::lemma_reroll_changes(shown, roll, HINT_COUNT as int);
    }
}

} // verus!
