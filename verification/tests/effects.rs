use bounce_up::base::{MissOutcome, PlayerBase};
use bounce_up::effects::{
    bounce_audio_step, next_hit_frame, AudioContact, AudioFold, BounceAudioState, BouncePlay,
    BounceSound, Debounce, EffectContact, EntityPair, HitEffect, HitFrame,
};
use std::collections::BTreeSet;

const MS: u64 = 1_000_000;

fn pair(a: u64, b: u64) -> EntityPair {
    EntityPair { first: a, second: b }
}

#[test]
fn hit_spark_frames() {
    assert_eq!(next_hit_frame(0, 3), HitFrame::Advance(1));
    assert_eq!(next_hit_frame(1, 3), HitFrame::Advance(2));
    assert_eq!(next_hit_frame(2, 3), HitFrame::Despawn);
    assert_eq!(next_hit_frame(5, 3), HitFrame::Despawn);
    assert_eq!(next_hit_frame(0, 0), HitFrame::Despawn);
    assert_eq!(next_hit_frame(usize::MAX, usize::MAX), HitFrame::Despawn);
}

#[test]
fn hit_spark_clock() {
    let mut e = HitEffect::default();
    assert!(!e.frame_due(10 * MS));
    assert!(e.frame_due(10 * MS));
    assert!(!e.frame_due(1 * MS));
}

#[test]
fn screen_shakes_once_per_resting_contact() {
    let mut d = Debounce::new();
    let mut last = None;
    let contacts = vec![
        EffectContact { pair: pair(1, 2), with_ball: true },
        EffectContact { pair: pair(1, 2), with_ball: true },
        EffectContact { pair: pair(3, 4), with_ball: false },
        EffectContact { pair: pair(1, 5), with_ball: true },
        EffectContact { pair: pair(1, 2), with_ball: true },
    ];
    let shakes = d.bounce_effects(&mut last, &contacts);
    assert_eq!(shakes, vec![true, false, false, true, true]);
    assert_eq!(last, Some(pair(1, 2)));
    let shakes = d.bounce_effects(&mut last, &vec![EffectContact { pair: pair(1, 2), with_ball: true }]);
    assert_eq!(shakes, vec![false]);
    let shakes = d.bounce_effects(&mut last, &vec![]);
    assert!(shakes.is_empty());
    assert_eq!(last, None);
}

#[test]
fn misses_through_the_cooldown() {
    let mut d = Debounce::new();
    let mut base = PlayerBase::default();
    assert!(!d.miss_ready(100 * MS));
    assert!(d.miss_ready(400 * MS));
    let outs = d.player_miss(&mut base, 1);
    assert_eq!(outs, vec![MissOutcome { lives: 3, game_over: false }]);
    assert_eq!(base.ball_count, 2);
    // the miss restarted the cooldown
    assert!(!d.miss_ready(100 * MS));
    assert!(d.player_miss(&mut base, 0).is_empty());
    assert_eq!(base.ball_count, 2);
}

#[test]
fn hit_and_bounce_cooldowns() {
    let mut d = Debounce::new();
    assert!(d.hit_ready(100 * MS));
    d.hit_landed();
    assert!(!d.hit_ready(50 * MS));
    assert!(d.hit_ready(50 * MS));
    assert!(d.bounce_ready(200 * MS));
    d.bounce_landed();
    assert!(!d.bounce_ready(0));
    assert!(d.effects_ready(100 * MS));
}

fn fold(index: usize, last: Option<EntityPair>, can_play: bool, short_open: bool) -> AudioFold {
    AudioFold { index, last_pair: last, can_play, short_open }
}

#[test]
fn audio_step_plays_loud_contacts() {
    let c = AudioContact { pair: pair(1, 2), has_hit: false, loud: true };
    let (s, p) = bounce_audio_step(fold(15, None, false, true), c, 1);
    assert_eq!(p, Some(BouncePlay { channel: 0, sound: BounceSound::Impact(1) }));
    assert_eq!(s, fold(0, Some(pair(1, 2)), true, false));
    // the same pair goes on playing
    let h = AudioContact { pair: pair(1, 2), has_hit: true, loud: true };
    let (s, p) = bounce_audio_step(s, h, 0);
    assert_eq!(p, Some(BouncePlay { channel: 1, sound: BounceSound::Hit }));
    // another pair waits for the cooldown between pairs
    let o = AudioContact { pair: pair(3, 4), has_hit: false, loud: true };
    let (s, p) = bounce_audio_step(s, o, 0);
    assert_eq!(p, None);
    assert_eq!(s, fold(2, Some(pair(3, 4)), false, false));
    // quiet contacts never play
    let q = AudioContact { pair: pair(5, 6), has_hit: false, loud: false };
    let (_, p) = bounce_audio_step(fold(0, None, true, true), q, 0);
    assert_eq!(p, None);
}

#[test]
fn audio_through_the_cooldowns() {
    let mut d = Debounce::new();
    let mut state = BounceAudioState { index: 0, last_pair: None };
    let loud = AudioContact { pair: pair(1, 2), has_hit: true, loud: true };
    // before the cooldowns are over nothing plays, but the channel moves on
    let plays = d.bounce_audio(&mut state, 10 * MS, &vec![loud]);
    assert_eq!(plays, vec![None]);
    assert_eq!(state.index, 1);
    assert_eq!(state.last_pair, Some(pair(1, 2)));
    // half a second on: the same pair plays on the next channel
    let plays = d.bounce_audio(&mut state, 500 * MS, &vec![loud, loud]);
    assert_eq!(
        plays,
        vec![
            Some(BouncePlay { channel: 2, sound: BounceSound::Hit }),
            Some(BouncePlay { channel: 3, sound: BounceSound::Hit }),
        ]
    );
    // just after, nothing plays
    let plays = d.bounce_audio(&mut state, 10 * MS, &vec![loud]);
    assert_eq!(plays, vec![None]);
}

#[test]
fn impact_sounds_are_drawn_from_both() {
    let mut d = Debounce::new();
    let mut state = BounceAudioState { index: 0, last_pair: None };
    let mut seen = BTreeSet::new();
    for i in 0..200 {
        let c = AudioContact { pair: pair(i, i + 1), has_hit: false, loud: true };
        let plays = d.bounce_audio(&mut state, 600 * MS, &vec![c]);
        match plays[0] {
            Some(BouncePlay { sound: BounceSound::Impact(k), channel }) => {
                assert!(k < 2);
                assert!(channel < 16);
                seen.insert(k);
            }
            other => panic!("expected an impact sound, got {:?}", other),
        }
    }
    assert_eq!(seen.len(), 2);
}

#[test]
fn miss_cooldown_reopens_after_half_a_second() {
    let mut d = Debounce::new();
    let mut base = PlayerBase::default();
    d.player_miss(&mut base, 1);
    for _ in 0..4 {
        assert!(!d.miss_ready(100 * MS));
    }
    assert!(d.miss_ready(100 * MS));
    // it stays open
    assert!(d.miss_ready(0));
}
