use bounce_up::base::{score_system, MissOutcome, PlayerBase, PLAYER_BASE_BALL_COUNT};
use bounce_up::PracticePlugin;

#[test]
fn base_starts_with_three_balls() {
    assert_eq!(PlayerBase::default().ball_count, 3);
    assert_eq!(PLAYER_BASE_BALL_COUNT, 3);
}

#[test]
fn misses_spend_the_reserve_then_lose() {
    let mut base = PlayerBase::default();
    let outs = base.misses(5);
    assert_eq!(
        outs,
        vec![
            MissOutcome { lives: 3, game_over: false },
            MissOutcome { lives: 2, game_over: false },
            MissOutcome { lives: 1, game_over: false },
            MissOutcome { lives: 0, game_over: true },
            MissOutcome { lives: 0, game_over: true },
        ]
    );
    assert_eq!(base.ball_count, 0);
}

#[test]
fn single_miss() {
    let mut base = PlayerBase { ball_count: 1 };
    assert_eq!(base.miss(), MissOutcome { lives: 1, game_over: false });
    assert_eq!(base.ball_count, 0);
    assert_eq!(base.miss(), MissOutcome { lives: 0, game_over: true });
    assert_eq!(base.ball_count, 0);
}

#[test]
fn negative_reserve_keeps_shrinking() {
    let mut base = PlayerBase { ball_count: -2 };
    let outs = base.misses(2);
    assert_eq!(outs[0], MissOutcome { lives: -2, game_over: false });
    assert_eq!(outs[1], MissOutcome { lives: -3, game_over: false });
    assert_eq!(base.ball_count, -4);
}

#[test]
fn practice_reserve_is_topped_up() {
    let mut base = PlayerBase { ball_count: 0 };
    PracticePlugin::player_ball_infinite(&mut base);
    assert_eq!(base.ball_count, 99);
}

#[test]
fn score_counts_hits_and_misses() {
    assert_eq!(score_system(0, 0, 0, 0), (0, 0));
    assert_eq!(score_system(4, 1, 3, 2), (7, 3));
    assert_eq!(score_system(i32::MAX - 1, 0, 1, 0), (i32::MAX, 0));
}

#[test]
fn final_blow_calls_for_the_long_explosion() {
    assert!(MissOutcome { lives: 0, game_over: true }.final_blow());
    assert!(MissOutcome { lives: -1, game_over: false }.final_blow());
    assert!(!MissOutcome { lives: 1, game_over: false }.final_blow());
}
