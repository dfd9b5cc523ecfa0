//! The feedback of collisions: cooldowns, screen shakes, impact sounds and
//! hit sparks.

use crate::base::{MissOutcome, PlayerBase, after_misses, miss_outcome};
use crate::random::draw;
use crate::timing::{
    Clock, TimerModel, fresh_timer, lemma_one_shot_run, lemma_reset_is_fresh, lemma_reset_keeps_wf,
    lemma_tick_keeps_wf, reset_timer, run_ticks, tick_timer, timer_wf, total_time,
};
use vstd::prelude::*;

verus! {

/// The number of audio channels that impact sounds rotate through.
pub const AUDIO_CHANNEL_COUNT: usize = 16;

/// The number of impact sounds to pick from.
pub const IMPACT_AUDIO_COUNT: usize = 2;

/// The cooldown of impact sounds in general, in nanoseconds.
pub const BOUNCE_AUDIO_LONG_NANOS: u64 = 500_000_000;

/// The cooldown of impact sounds between different pairs of bodies, in
/// nanoseconds.
pub const BOUNCE_AUDIO_SHORT_NANOS: u64 = 100_000_000;

/// The cooldown of bounce events, screen shakes and hits, in nanoseconds.
pub const SHORT_COOLDOWN_NANOS: u64 = 100_000_000;

/// The cooldown of misses, in nanoseconds.
pub const MISS_COOLDOWN_NANOS: u64 = 500_000_000;

/// The time a hit spark shows each of its frames, in nanoseconds (a sixtieth
/// of a second).
pub const HIT_EFFECT_FRAME_NANOS: u64 = 16_666_667;

/// Two colliding bodies, by their entity ids, in the order of the collision.
#[derive(Clone, Copy, Debug, PartialEq, Eq, Structural)]
pub struct EntityPair {
    pub first: u64,
    pub second: u64,
}

/// A collision as the screen shake sees it.
#[derive(Clone, Copy, Debug, PartialEq, Eq, Structural)]
pub struct EffectContact {
    pub pair: EntityPair,
    /// One of the bodies is a ball.
    pub with_ball: bool,
}

/// A collision between two sounding bodies, as the impact sound sees it.
#[derive(Clone, Copy, Debug, PartialEq, Eq, Structural)]
pub struct AudioContact {
    pub pair: EntityPair,
    /// One of the bodies sounds like a hit on the enemy base.
    pub has_hit: bool,
    /// The bodies met fast enough to be heard.
    pub loud: bool,
}

/// The sound of an impact.
#[derive(Clone, Copy, Debug, PartialEq, Eq, Structural)]
pub enum BounceSound {
    /// The sound of a hit on the enemy base.
    Hit,
    /// One of the plain impact sounds, by index.
    Impact(usize),
}

/// An impact sound to play, on a channel.
#[derive(Clone, Copy, Debug, PartialEq, Eq, Structural)]
pub struct BouncePlay {
    pub channel: usize,
    pub sound: BounceSound,
}

/// What the impact sounds remember between frames: the last channel used and
/// the last pair of bodies heard.
#[derive(Clone, Copy, Debug, PartialEq, Eq, Structural)]
pub struct BounceAudioState {
    pub index: usize,
    pub last_pair: Option<EntityPair>,
}

/// The impact sounds' state while going through a frame's collisions: what
/// they remember, whether sounds may play for the current pair, and whether
/// the cooldown between pairs is over.
#[derive(Clone, Copy, Debug, PartialEq, Eq, Structural)]
pub struct AudioFold {
    pub index: usize,
    pub last_pair: Option<EntityPair>,
    pub can_play: bool,
    pub short_open: bool,
}

/// One collision through the impact sounds, with `roll` the impact sound drawn
/// for it. A new pair may play only if the cooldown between pairs is over; the
/// channel moves on for every collision; a loud collision that may play plays,
/// and restarts the cooldowns (so that another pair must wait).
pub open spec fn audio_step(s: AudioFold, c: AudioContact, roll: usize) -> (AudioFold, Option<BouncePlay>) {
    let new_pair = s.last_pair != Some(c.pair);
    let can_play = if new_pair { s.short_open } else { s.can_play };
    let index = ((s.index + 1) % (AUDIO_CHANNEL_COUNT as int)) as usize;
    let sound = if c.has_hit { BounceSound::Hit } else { BounceSound::Impact(roll) };
    let plays = can_play && c.loud;
    (
        AudioFold {
            index,
            last_pair: Some(c.pair),
            can_play,
            short_open: if plays { false } else { s.short_open },
        },
        if plays { Some(BouncePlay { channel: index, sound }) } else { None },
    )
}

/// The impact sounds' state after the first `n` collisions of `cs`.
pub open spec fn audio_run(s0: AudioFold, cs: Seq<AudioContact>, rolls: Seq<usize>, n: nat) -> AudioFold
    decreases n,
{
    if n == 0 {
        s0
    } else {
        audio_step(audio_run(s0, cs, rolls, (n - 1) as nat), cs[n - 1], rolls[n - 1]).0
    }
}

/// The sound (if any) of each collision of `cs`.
pub open spec fn audio_plays(s0: AudioFold, cs: Seq<AudioContact>, rolls: Seq<usize>) -> Seq<
    Option<BouncePlay>,
> {
    Seq::new(cs.len(), |i: int| audio_step(audio_run(s0, cs, rolls, i as nat), cs[i], rolls[i]).1)
}

/// The screen shakes' memory after the collisions `cs`: the last pair with a
/// ball in it.
pub open spec fn shake_last(last: Option<EntityPair>, cs: Seq<EffectContact>) -> Option<EntityPair>
    decreases cs.len(),
{
    if cs.len() == 0 {
        last
    } else if cs.last().with_ball {
        Some(cs.last().pair)
    } else {
        shake_last(last, cs.drop_last())
    }
}

/// Whether the `i`-th collision of `cs` shakes the screen: it has a ball in it
/// and is not the pair that last shook it (a resting contact shakes once).
pub open spec fn shakes_at(last: Option<EntityPair>, cs: Seq<EffectContact>, i: int) -> bool {
    cs[i].with_ball && shake_last(last, cs.take(i)) != Some(cs[i].pair)
}

/// Whether any of the collisions `cs` shakes the screen.
pub open spec fn any_shake(last: Option<EntityPair>, cs: Seq<EffectContact>) -> bool {
    exists|i: int| 0 <= i < cs.len() && #[trigger] shakes_at(last, cs, i)
}

/// What the cooldowns of the collision feedback hold.
pub struct Cooldowns {
    /// Impact sounds in general.
    pub bounce_audio_long: TimerModel,
    /// Impact sounds between different pairs of bodies.
    pub bounce_audio_short: TimerModel,
    /// Ball bounce reports.
    pub bounce: TimerModel,
    /// Screen shakes.
    pub effects: TimerModel,
    /// Hits on the enemy base.
    pub hit: TimerModel,
    /// Misses on the player's base.
    pub miss: TimerModel,
}

/// Fresh cooldowns: nothing elapsed on any.
pub open spec fn fresh_cooldowns() -> Cooldowns {
    Cooldowns {
        bounce_audio_long: fresh_timer(BOUNCE_AUDIO_LONG_NANOS as nat, false),
        bounce_audio_short: fresh_timer(BOUNCE_AUDIO_SHORT_NANOS as nat, false),
        bounce: fresh_timer(SHORT_COOLDOWN_NANOS as nat, false),
        effects: fresh_timer(SHORT_COOLDOWN_NANOS as nat, false),
        hit: fresh_timer(SHORT_COOLDOWN_NANOS as nat, false),
        miss: fresh_timer(MISS_COOLDOWN_NANOS as nat, false),
    }
}

/// A well-formed one-shot timer.
pub open spec fn one_shot(m: TimerModel) -> bool {
    timer_wf(m) && !m.repeating
}

/// The cooldowns of the game's collision feedback.
pub struct Debounce {
    bounce_audio_long: Clock,
    bounce_audio_short: Clock,
    bounce: Clock,
    effects: Clock,
    hit: Clock,
    miss: Clock,
    audio_draws: Ghost<Seq<Option<(int, int, int)>>>,
}

impl View for Debounce {
    type V = Cooldowns;

    closed spec fn view(&self) -> Cooldowns {
        Cooldowns {
            bounce_audio_long: self.bounce_audio_long.model(),
            bounce_audio_short: self.bounce_audio_short.model(),
            bounce: self.bounce.model(),
            effects: self.effects.model(),
            hit: self.hit.model(),
            miss: self.miss.model(),
        }
    }
}

impl Default for Debounce {
    /// Fresh cooldowns.
    fn default() -> (d: Self)
        ensures
            d@ == fresh_cooldowns(),
            d.wf(),
    {
        Debounce {
            bounce_audio_long: Clock::new(BOUNCE_AUDIO_LONG_NANOS, false),
            bounce_audio_short: Clock::new(BOUNCE_AUDIO_SHORT_NANOS, false),
            bounce: Clock::new(SHORT_COOLDOWN_NANOS, false),
            effects: Clock::new(SHORT_COOLDOWN_NANOS, false),
            hit: Clock::new(SHORT_COOLDOWN_NANOS, false),
            miss: Clock::new(MISS_COOLDOWN_NANOS, false),
            audio_draws: Ghost(Seq::empty()),
        }
    }
}

/// The impact sounds that a frame's draws pick: the roll of each draw, and
/// none (the hit sound) where nothing was drawn.
pub open spec fn draw_rolls(draws: Seq<Option<(int, int, int)>>) -> Seq<usize> {
    Seq::new(
        draws.len(),
        |j: int|
            match draws[j] {
                Some(d) => d.2 as usize,
                None => 0usize,
            },
    )
}

impl Debounce {
    /// The draws of the last frame's impact sounds, one per collision: for a
    /// collision without a hit, the lowest and highest roll the draw could
    /// give and the roll it gave; nothing for a hit.
    pub closed spec fn audio_draws(self) -> Seq<Option<(int, int, int)>> {
        self.audio_draws@
    }

    /// Every cooldown is a well-formed one-shot timer.
    pub open spec fn wf(self) -> bool {
        &&& one_shot(self@.bounce_audio_long)
        &&& one_shot(self@.bounce_audio_short)
        &&& one_shot(self@.bounce)
        &&& one_shot(self@.effects)
        &&& one_shot(self@.hit)
        &&& one_shot(self@.miss)
    }

    /// Fresh cooldowns.
    pub fn new() -> (d: Self)
        ensures
            d@ == fresh_cooldowns(),
            d.wf(),
    {
        Debounce::default()
    }

    /// Runs the miss cooldown `delta_nanos` on, and reports whether misses
    /// count again: whether the cooldown has finished.
    pub fn miss_ready(&mut self, delta_nanos: u64) -> (ready: bool)
        requires
            old(self).wf(),
        ensures
            final(self).wf(),
            final(self)@ == (Cooldowns {
                miss: tick_timer(old(self)@.miss, delta_nanos as nat),
                ..old(self)@
            }),
            ready == final(self)@.miss.finished,
    {
        proof {
            lemma_tick_keeps_wf(self.miss.model(), delta_nanos as nat);
        }
        self.miss.tick(delta_nanos);
        self.miss.finished()
    }

    /// Counts `base_hits` misses on the player's base (the ball hitting it),
    /// in order: one outcome per miss, as `PlayerBase::miss` gives it. Any
    /// miss restarts the miss cooldown.
    pub fn player_miss(&mut self, base: &mut PlayerBase, base_hits: usize) -> (outs: Vec<
        MissOutcome,
    >)
        requires
            old(self).wf(),
            old(base).ball_count >= 0 || old(base).ball_count - base_hits > i32::MIN,
        ensures
            final(self).wf(),
            final(self)@ == (if base_hits > 0 {
                Cooldowns { miss: reset_timer(old(self)@.miss), ..old(self)@ }
            } else {
                old(self)@
            }),
            outs@.len() == base_hits,
            forall|i: int|
                0 <= i < base_hits ==> #[trigger] outs@[i] == miss_outcome(
                    after_misses(old(base).ball_count as int, i as nat),
                ),
            final(base).ball_count == after_misses(old(base).ball_count as int, base_hits as nat),
    {
        let outs = base.misses(base_hits);
        if base_hits > 0 {
            self.miss.reset();
        }
        outs
    }

    /// Runs the hit cooldown `delta_nanos` on, and reports whether hits on
    /// the enemy base count again: whether the cooldown has finished.
    pub fn hit_ready(&mut self, delta_nanos: u64) -> (ready: bool)
        requires
            old(self).wf(),
        ensures
            final(self).wf(),
            final(self)@ == (Cooldowns {
                hit: tick_timer(old(self)@.hit, delta_nanos as nat),
                ..old(self)@
            }),
            ready == final(self)@.hit.finished,
    {
        proof {
            lemma_tick_keeps_wf(self.hit.model(), delta_nanos as nat);
        }
        self.hit.tick(delta_nanos);
        self.hit.finished()
    }

    /// A hit on the enemy base counted: restarts the hit cooldown.
    pub fn hit_landed(&mut self)
        requires
            old(self).wf(),
        ensures
            final(self).wf(),
            final(self)@ == (Cooldowns { hit: reset_timer(old(self)@.hit), ..old(self)@ }),
    {
        self.hit.reset();
    }

    /// Runs the bounce cooldown `delta_nanos` on, and reports whether ball
    /// bounces are reported again: whether the cooldown has finished.
    pub fn bounce_ready(&mut self, delta_nanos: u64) -> (ready: bool)
        requires
            old(self).wf(),
        ensures
            final(self).wf(),
            final(self)@ == (Cooldowns {
                bounce: tick_timer(old(self)@.bounce, delta_nanos as nat),
                ..old(self)@
            }),
            ready == final(self)@.bounce.finished,
    {
        proof {
            lemma_tick_keeps_wf(self.bounce.model(), delta_nanos as nat);
        }
        self.bounce.tick(delta_nanos);
        self.bounce.finished()
    }

    /// A ball bounce was reported: restarts the bounce cooldown.
    pub fn bounce_landed(&mut self)
        requires
            old(self).wf(),
        ensures
            final(self).wf(),
            final(self)@ == (Cooldowns { bounce: reset_timer(old(self)@.bounce), ..old(self)@ }),
    {
        self.bounce.reset();
    }

    /// Runs the screen-shake cooldown `delta_nanos` on, and reports whether
    /// collisions shake the screen again: whether the cooldown has finished.
    pub fn effects_ready(&mut self, delta_nanos: u64) -> (ready: bool)
        requires
            old(self).wf(),
        ensures
            final(self).wf(),
            final(self)@ == (Cooldowns {
                effects: tick_timer(old(self)@.effects, delta_nanos as nat),
                ..old(self)@
            }),
            ready == final(self)@.effects.finished,
    {
        proof {
            lemma_tick_keeps_wf(self.effects.model(), delta_nanos as nat);
        }
        self.effects.tick(delta_nanos);
        self.effects.finished()
    }

    /// Which of a frame's collisions shake the screen, with `last` the pair
    /// that last did: those with a ball whose pair is not the last one. A
    /// frame without collisions forgets the last pair. Any shake restarts the
    /// screen-shake cooldown.
    pub fn bounce_effects(&mut self, last: &mut Option<EntityPair>, contacts: &Vec<EffectContact>) -> (shakes: Vec<bool>)
        requires
            old(self).wf(),
        ensures
            final(self).wf(),
            final(self)@ == (if any_shake(*old(last), contacts@) {
                Cooldowns { effects: reset_timer(old(self)@.effects), ..old(self)@ }
            } else {
                old(self)@
            }),
            shakes@.len() == contacts@.len(),
            forall|i: int|
                0 <= i < contacts@.len() ==> #[trigger] shakes@[i] == shakes_at(
                    *old(last),
                    contacts@,
                    i,
                ),
            *final(last) == (if contacts@.len() == 0 {
                None::<EntityPair>
            } else {
                shake_last(*old(last), contacts@)
            }),
    {
        let ghost last0 = *last;
        let ghost d0 = self@;
        let n = contacts.len();
        if n == 0 {
            *last = None;
        }
        let mut shakes: Vec<bool> = Vec::new();
        let mut i: usize = 0;
        while i < n
            invariant
                i <= n,
                n == contacts@.len(),
                shakes@.len() == i,
                n > 0 ==> *last == shake_last(last0, contacts@.take(i as int)),
                n == 0 ==> *last == None::<EntityPair>,
                forall|j: int| 0 <= j < i ==> #[trigger] shakes@[j] == shakes_at(last0, contacts@, j),
                one_shot(d0.effects),
                self@ == (if exists|j: int| 0 <= j < i && #[trigger] shakes_at(last0, contacts@, j) {
                    Cooldowns { effects: reset_timer(d0.effects), ..d0 }
                } else {
                    d0
                }),
            decreases n - i,
        {
            let c = contacts[i];
            let ghost prefix = contacts@.take(i as int);
            assert(contacts@.take(i + 1).drop_last() == prefix);
            assert(contacts@.take(i + 1).last() == c);
            if c.with_ball {
                let shake = match *last {
                    None => true,
                    Some(p) => p != c.pair,
                };
                if shake {
                    self.effects.reset();
                }
                *last = Some(c.pair);
                shakes.push(shake);
            } else {
                shakes.push(false);
            }
            proof {
                if shakes@[i as int] {
                    assert(shakes_at(last0, contacts@, i as int));
                }
                assert(shakes@[i as int] == shakes_at(last0, contacts@, i as int));
            }
            i = i + 1;
        }
        assert(contacts@.take(n as int) == contacts@);
        proof {
            lemma_reset_keeps_wf(d0.effects);
        }
        shakes
    }

    /// Which impact sounds a frame's collisions between sounding bodies play,
    /// `delta_nanos` after the last frame: both sound cooldowns run on, and
    /// the collisions go through `audio_step`, starting from whether each has
    /// finished, with a random impact sound drawn for each collision without
    /// a hit. A sound restarts both cooldowns.
    pub fn bounce_audio(
        &mut self,
        state: &mut BounceAudioState,
        delta_nanos: u64,
        contacts: &Vec<AudioContact>,
    ) -> (plays: Vec<Option<BouncePlay>>)
        requires
            old(self).wf(),
            old(state).index < usize::MAX,
        ensures
            final(self).wf(),
            ({
                let long = tick_timer(old(self)@.bounce_audio_long, delta_nanos as nat);
                let short = tick_timer(old(self)@.bounce_audio_short, delta_nanos as nat);
                let played = exists|j: int| 0 <= j < plays@.len() && (#[trigger] plays@[j]) is Some;
                final(self)@ == (Cooldowns {
                    bounce_audio_long: if played { reset_timer(long) } else { long },
                    bounce_audio_short: if played { reset_timer(short) } else { short },
                    ..old(self)@
                })
            }),
            exists|rolls: Seq<usize>|
                #![trigger audio_plays(AudioFold { index: old(state).index, last_pair: old(state).last_pair, can_play: tick_timer(old(self)@.bounce_audio_long, delta_nanos as nat).finished, short_open: tick_timer(old(self)@.bounce_audio_short, delta_nanos as nat).finished }, contacts@, rolls)]
                {
                    let s0 = AudioFold {
                        index: old(state).index,
                        last_pair: old(state).last_pair,
                        can_play: tick_timer(old(self)@.bounce_audio_long, delta_nanos as nat).finished,
                        short_open: tick_timer(old(self)@.bounce_audio_short, delta_nanos as nat).finished,
                    };
                    let s = audio_run(s0, contacts@, rolls, contacts@.len());
                    &&& rolls.len() == contacts@.len()
                    &&& forall|j: int| 0 <= j < rolls.len() ==> rolls[j] < IMPACT_AUDIO_COUNT
                    &&& plays@ == audio_plays(s0, contacts@, rolls)
                    &&& final(state).index == s.index
                    &&& final(state).last_pair == s.last_pair
                },
            final(self).audio_draws().len() == contacts@.len(),
            forall|j: int|
                0 <= j < contacts@.len() ==> if contacts@[j].has_hit {
                    final(self).audio_draws()[j] is None
                } else {
                    &&& #[trigger] final(self).audio_draws()[j] matches Some((low, high, roll))
                    &&& low == 0
                    &&& high == IMPACT_AUDIO_COUNT - 1
                    &&& low <= roll <= high
                },
            ({
                let s0 = AudioFold {
                    index: old(state).index,
                    last_pair: old(state).last_pair,
                    can_play: tick_timer(old(self)@.bounce_audio_long, delta_nanos as nat).finished,
                    short_open: tick_timer(old(self)@.bounce_audio_short, delta_nanos as nat).finished,
                };
                let rolls = draw_rolls(final(self).audio_draws());
                &&& plays@ == audio_plays(s0, contacts@, rolls)
                &&& final(state).index == audio_run(s0, contacts@, rolls, contacts@.len()).index
                &&& final(state).last_pair == audio_run(s0, contacts@, rolls, contacts@.len()).last_pair
            }),
    {
        proof {
            lemma_tick_keeps_wf(self.bounce_audio_long.model(), delta_nanos as nat);
            lemma_tick_keeps_wf(self.bounce_audio_short.model(), delta_nanos as nat);
        }
        self.bounce_audio_long.tick(delta_nanos);
        let can_play0 = self.bounce_audio_long.finished();
        self.bounce_audio_short.tick(delta_nanos);
        let short_open0 = self.bounce_audio_short.finished();
        let ghost d1 = self@;
        let ghost s0 = AudioFold {
            index: state.index,
            last_pair: state.last_pair,
            can_play: can_play0,
            short_open: short_open0,
        };
        let n = contacts.len();
        let mut fold = AudioFold {
            index: state.index,
            last_pair: state.last_pair,
            can_play: can_play0,
            short_open: short_open0,
        };
        let mut plays: Vec<Option<BouncePlay>> = Vec::new();
        let ghost mut rolls: Seq<usize> = Seq::empty();
        let ghost mut draws: Seq<Option<(int, int, int)>> = Seq::empty();
        let mut i: usize = 0;
        while i < n
            invariant
                i <= n,
                n == contacts@.len(),
                rolls.len() == i,
                draws.len() == i,
                rolls == draw_rolls(draws),
                forall|j: int|
                    0 <= j < i ==> if contacts@[j].has_hit {
                        draws[j] is None
                    } else {
                        &&& #[trigger] draws[j] matches Some((low, high, roll))
                        &&& low == 0
                        &&& high == IMPACT_AUDIO_COUNT - 1
                        &&& low <= roll <= high
                    },
                forall|j: int| 0 <= j < i ==> rolls[j] < IMPACT_AUDIO_COUNT,
                plays@.len() == i,
                s0.index == old(state).index,
                s0.last_pair == old(state).last_pair,
                s0.index < usize::MAX,
                i > 0 ==> fold.index < AUDIO_CHANNEL_COUNT,
                i == 0 ==> fold == s0,
                audio_run(s0, contacts@, rolls, i as nat) == fold,
                one_shot(d1.bounce_audio_long),
                one_shot(d1.bounce_audio_short),
                self@ == (if exists|j: int| 0 <= j < i && (#[trigger] plays@[j]) is Some {
                    Cooldowns {
                        bounce_audio_long: reset_timer(d1.bounce_audio_long),
                        bounce_audio_short: reset_timer(d1.bounce_audio_short),
                        ..d1
                    }
                } else {
                    d1
                }),
                forall|j: int|
                    0 <= j < i ==> plays@[j] == #[trigger] audio_step(
                        audio_run(s0, contacts@, rolls, j as nat),
                        contacts@[j],
                        rolls[j],
                    ).1,
            decreases n - i,
        {
            let c = contacts[i];
            let ghost mut this_draw: Option<(int, int, int)> = None;
            let roll = if c.has_hit {
                0
            } else {
                let d = draw(0, IMPACT_AUDIO_COUNT - 1);
                proof {
                    this_draw = Some((d.range@.0, d.range@.1, d.value as int));
                }
                d.value
            };
            let (next, play) = bounce_audio_step(fold, c, roll);
            if play.is_some() {
                self.bounce_audio_long.reset();
                self.bounce_audio_short.reset();
            }
            let ghost rolls_next = rolls.push(roll);
            proof {
                assert forall|k: nat| k <= i implies audio_run(s0, contacts@, rolls_next, k)
                    == audio_run(s0, contacts@, rolls, k) by {
                    lemma_audio_run_prefix(s0, contacts@, rolls, rolls_next, k);
                }
                rolls = rolls_next;
                let draws_next = draws.push(this_draw);
                assert(rolls == draw_rolls(draws_next));
                draws = draws_next;
            }
            let ghost before = plays@;
            plays.push(play);
            proof {
                assert(plays@[i as int] == play);
                assert forall|j: int| 0 <= j < i implies plays@[j] == before[j] by {}
                if play is Some {
                    assert(exists|j: int| 0 <= j < i + 1 && (#[trigger] plays@[j]) is Some);
                } else {
                    assert((exists|j: int| 0 <= j < i + 1 && (#[trigger] plays@[j]) is Some) == (
                    exists|j: int| 0 <= j < i && (#[trigger] before[j]) is Some));
                }
            }
            fold = next;
            i = i + 1;
        }
        state.index = fold.index;
        state.last_pair = fold.last_pair;
        self.audio_draws = Ghost(draws);
        assert(plays@ == audio_plays(s0, contacts@, rolls));
        proof {
            lemma_reset_keeps_wf(d1.bounce_audio_long);
            lemma_reset_keeps_wf(d1.bounce_audio_short);
        }
        plays
    }
}

/// A collision plays a sound exactly when it is loud and its cooldown is
/// over: the general one for the pair heard last, the one between pairs for
/// a new pair. A quiet collision (below the speed to be heard) never plays,
/// hit or not, and leaves the cooldown between pairs as it was.
pub proof fn lemma_sound_needs_loud_and_open(s: AudioFold, c: AudioContact, roll: usize)
    ensures
        audio_step(s, c, roll).1 is Some <==> (c.loud && (if s.last_pair == Some(c.pair) {
            s.can_play
        } else {
            s.short_open
        })),
        !c.loud ==> audio_step(s, c, roll).1 is None && audio_step(s, c, roll).0.short_open
            == s.short_open,
        audio_step(s, c, roll).0.last_pair == Some(c.pair),
        audio_step(s, c, roll).1 matches Some(p) ==> p.sound == (if c.has_hit {
            BounceSound::Hit
        } else {
            BounceSound::Impact(roll)
        }),
{
}

/// Collisions take the audio channels in turn: each one moves on to the next
/// channel, round to the first after the last, whether it plays or not.
pub proof fn lemma_channels_in_turn(
    s: AudioFold,
    c1: AudioContact,
    r1: usize,
    c2: AudioContact,
    r2: usize,
)
    requires
        s.index < AUDIO_CHANNEL_COUNT,
    ensures
        audio_step(audio_step(s, c1, r1).0, c2, r2).0.index == (audio_step(s, c1, r1).0.index
            + 1) % (AUDIO_CHANNEL_COUNT as int),
        audio_step(s, c1, r1).0.index == (s.index + 1) % (AUDIO_CHANNEL_COUNT as int),
        audio_step(s, c1, r1).0.index != s.index,
{
}

/// The pair heard last waits for the general cooldown alone: what it may
/// play is the general cooldown's verdict, whatever the cooldown between
/// pairs says, so while the general cooldown runs it stays silent.
pub proof fn lemma_same_pair_waits_for_general_cooldown(
    s: AudioFold,
    c: AudioContact,
    roll: usize,
)
    requires
        s.last_pair == Some(c.pair),
    ensures
        audio_step(s, c, roll).0.can_play == s.can_play,
        !s.can_play ==> audio_step(s, c, roll).1 is None,
{
}

/// Collisions without a ball leave the screen shake's memory alone: the pair
/// that shook last stays the same after one, so whether a following
/// collision shakes the screen is as if it had not happened.
pub proof fn lemma_ballless_contacts_are_ignored(
    last: Option<EntityPair>,
    cs: Seq<EffectContact>,
    c: EffectContact,
    d: EffectContact,
)
    requires
        !c.with_ball,
    ensures
        shake_last(last, cs.push(c)) == shake_last(last, cs),
        !shakes_at(last, cs.push(c), cs.len() as int),
        shakes_at(last, cs.push(c).push(d), cs.len() + 1int) == shakes_at(
            last,
            cs.push(d),
            cs.len() as int,
        ),
{
    assert(cs.push(c).drop_last() == cs);
    assert(cs.push(c).push(d).take(cs.len() + 1int) == cs.push(c));
    assert(cs.push(d).take(cs.len() as int) == cs);
}

/// A cooldown that restarts reopens once its duration of game time has
/// passed, and stays open from then on.
pub proof fn lemma_cooldown_reopens(m: TimerModel, deltas: Seq<nat>)
    requires
        one_shot(m),
    ensures
        run_ticks(reset_timer(m), deltas).finished == (total_time(deltas) >= m.duration),
{
    lemma_reset_is_fresh(m);
    lemma_one_shot_run(m.duration, deltas);
}

/// One collision through the impact sounds: see `audio_step`.
pub fn bounce_audio_step(s: AudioFold, c: AudioContact, roll: usize) -> (r: (AudioFold, Option<BouncePlay>))
    requires
        s.index < usize::MAX,
    ensures
        r == audio_step(s, c, roll),
{
    let new_pair = match s.last_pair {
        None => true,
        Some(p) => p != c.pair,
    };
    let can_play = if new_pair {
        s.short_open
    } else {
        s.can_play
    };
    let index = (s.index + 1) % AUDIO_CHANNEL_COUNT;
    let sound = if c.has_hit {
        BounceSound::Hit
    } else {
        BounceSound::Impact(roll)
    };
    if can_play && c.loud {
        (
            AudioFold { index, last_pair: Some(c.pair), can_play, short_open: false },
            Some(BouncePlay { channel: index, sound }),
        )
    } else {
        (AudioFold { index, last_pair: Some(c.pair), can_play, short_open: s.short_open }, None)
    }
}

/// The run of the impact sounds over the first `k` collisions only depends on
/// the first `k` draws.
proof fn lemma_audio_run_prefix(
    s0: AudioFold,
    cs: Seq<AudioContact>,
    rolls: Seq<usize>,
    longer: Seq<usize>,
    k: nat,
)
    requires
        k <= rolls.len() <= longer.len(),
        forall|j: int| 0 <= j < rolls.len() ==> longer[j] == rolls[j],
    ensures
        audio_run(s0, cs, longer, k) == audio_run(s0, cs, rolls, k),
    decreases k,
{
    if k > 0 {
        lemma_audio_run_prefix(s0, cs, rolls, longer, (k - 1) as nat);
    }
}

/// Impact sounds rotate through the audio channels, and a sound plays on the
/// channel it moved to.
pub proof fn lemma_audio_channel_in_range(s: AudioFold, c: AudioContact, roll: usize)
    ensures
        audio_step(s, c, roll).0.index < AUDIO_CHANNEL_COUNT,
        audio_step(s, c, roll).1 matches Some(p) ==> p.channel == audio_step(s, c, roll).0.index,
{
}

/// After a sound plays, another pair of bodies stays silent for the rest of
/// the frame: the cooldown between pairs restarts with every sound.
pub proof fn lemma_new_pair_waits_after_sound(
    s: AudioFold,
    c1: AudioContact,
    r1: usize,
    c2: AudioContact,
    r2: usize,
)
    requires
        audio_step(s, c1, r1).1 is Some,
        c2.pair != c1.pair,
    ensures
        audio_step(audio_step(s, c1, r1).0, c2, r2).1 is None,
{
}

/// A resting contact shakes the screen once: a collision of the same pair
/// right after one with a ball does not shake it again.
pub proof fn lemma_resting_contact_shakes_once(last: Option<EntityPair>, cs: Seq<EffectContact>, i: int)
    requires
        0 <= i,
        i + 1 < cs.len(),
        cs[i].with_ball,
        cs[i + 1].pair == cs[i].pair,
    ensures
        !shakes_at(last, cs, i + 1),
{
    let prefix = cs.take(i + 1);
    assert(prefix.last() == cs[i]);
    assert(shake_last(last, prefix) == Some(cs[i].pair));
}

/// What a hit spark does when its frame time is up.
#[derive(Clone, Copy, Debug, PartialEq, Eq, Structural)]
pub enum HitFrame {
    /// Show this frame next.
    Advance(usize),
    /// The last frame was shown: remove the spark.
    Despawn,
}

/// The next step of a spark showing frame `index` of `frame_count`: the next
/// frame while there is one, removal after the last.
pub fn next_hit_frame(index: usize, frame_count: usize) -> (step: HitFrame)
    ensures
        step == (if index + 1 < frame_count {
            HitFrame::Advance((index + 1) as usize)
        } else {
            HitFrame::Despawn
        }),
{
    if index < frame_count && frame_count - index > 1 {
        HitFrame::Advance(index + 1)
    } else {
        HitFrame::Despawn
    }
}

/// A hit spark's frame clock.
pub struct HitEffect {
    timer: Clock,
}

impl Default for HitEffect {
    /// A clock that comes round once per frame time.
    fn default() -> (e: Self)
        ensures
            e.clock() == fresh_timer(HIT_EFFECT_FRAME_NANOS as nat, true),
            e.wf(),
    {
        HitEffect { timer: Clock::new(HIT_EFFECT_FRAME_NANOS, true) }
    }
}

impl HitEffect {
    /// The spark's frame clock.
    pub closed spec fn clock(self) -> TimerModel {
        self.timer.model()
    }

    /// The clock is a well-formed repeating timer.
    pub open spec fn wf(self) -> bool {
        timer_wf(self.clock()) && self.clock().repeating
    }

    /// Runs the spark's clock `delta_nanos` on, and reports whether its frame
    /// time came round in this frame.
    pub fn frame_due(&mut self, delta_nanos: u64) -> (due: bool)
        requires
            old(self).wf(),
            delta_nanos <= old(self).clock().duration * 4_294_967_295,
        ensures
            final(self).wf(),
            final(self).clock() == tick_timer(old(self).clock(), delta_nanos as nat),
            due == (final(self).clock().times_finished > 0),
    {
        proof {
            lemma_tick_keeps_wf(self.timer.model(), delta_nanos as nat);
        }
        self.timer.tick(delta_nanos);
        self.timer.just_finished()
    }
}

} // verus!
