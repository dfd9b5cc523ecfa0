use bounce_up::game_over::{score_audio, ScoreSound};
use bounce_up::{AppState, BattlePlugin, GameOver, GameOverEvent, PracticePlugin, PracticeState, StoryPlugin, TimeScaleAction};

const MS: u64 = 1_000_000;

#[test]
fn nothing_pending_nothing_happens() {
    let mut g = GameOver::new();
    assert_eq!(g.advance(true, true, &vec![]), (TimeScaleAction::Keep, None));
    assert_eq!(g.event(), None);
}

#[test]
fn last_ending_is_latched() {
    let mut g = GameOver::new();
    let r = g.advance(false, false, &vec![GameOverEvent::Lose, GameOverEvent::Win]);
    assert_eq!(r, (TimeScaleAction::SlowDown, None));
    assert_eq!(g.event(), Some(GameOverEvent::Win));
}

#[test]
fn pending_ending_ignores_new_ones() {
    let mut g = GameOver::new();
    g.advance(false, false, &vec![GameOverEvent::Lose]);
    let r = g.advance(false, false, &vec![GameOverEvent::Win]);
    assert_eq!(r, (TimeScaleAction::Ease { recovering: false }, None));
    assert_eq!(g.event(), Some(GameOverEvent::Lose));
    let r = g.advance(true, false, &vec![]);
    assert_eq!(r, (TimeScaleAction::Ease { recovering: true }, None));
    let r = g.advance(true, true, &vec![GameOverEvent::Win]);
    assert_eq!(r, (TimeScaleAction::Reset, Some(GameOverEvent::Lose)));
    assert_eq!(g.event(), None);
}

#[test]
fn battle_win_shows_score_after_the_wait() {
    let mut g = GameOver::new();
    let r = BattlePlugin::game_over_system(&mut g, 16 * MS, &vec![GameOverEvent::Win]);
    assert_eq!(r, (TimeScaleAction::SlowDown, None));
    // half a second in: still in slow motion
    let r = BattlePlugin::game_over_system(&mut g, 500 * MS, &vec![]);
    assert_eq!(r, (TimeScaleAction::Ease { recovering: false }, None));
    // one second in: slow motion over, still waiting
    let r = BattlePlugin::game_over_system(&mut g, 500 * MS, &vec![GameOverEvent::Lose]);
    assert_eq!(r, (TimeScaleAction::Ease { recovering: true }, None));
    // two seconds in: the score screen
    let r = BattlePlugin::game_over_system(&mut g, 1000 * MS, &vec![]);
    assert_eq!(r, (TimeScaleAction::Reset, Some(AppState::Score)));
    assert_eq!(g.event(), None);
    // afterwards nothing is pending
    let r = BattlePlugin::game_over_system(&mut g, 1000 * MS, &vec![]);
    assert_eq!(r, (TimeScaleAction::Keep, None));
}

#[test]
fn story_loss_returns_to_menu() {
    let mut g = GameOver::new();
    StoryPlugin::game_over_system(&mut g, 0, &vec![GameOverEvent::Lose]);
    let r = StoryPlugin::game_over_system(&mut g, 2500 * MS, &vec![]);
    assert_eq!(r, (TimeScaleAction::Reset, Some(AppState::Menu)));
    assert_eq!(BattlePlugin::next_state(GameOverEvent::Lose), AppState::Menu);
    assert_eq!(BattlePlugin::next_state(GameOverEvent::Win), AppState::Score);
}

#[test]
fn practice_moves_to_slits_after_an_ending() {
    assert_eq!(PracticePlugin::enter_practice(), PracticeState::Plain);
    let mut g = GameOver::new();
    assert_eq!(PracticePlugin::progress_system(&mut g, 0, &vec![GameOverEvent::Lose]), None);
    assert_eq!(PracticePlugin::progress_system(&mut g, 1000 * MS, &vec![]), None);
    assert_eq!(PracticePlugin::progress_system(&mut g, 1000 * MS, &vec![]), Some(PracticeState::Slits));
    assert_eq!(g.event(), None);
}

#[test]
fn practice_heals_enemy_after_a_win_only() {
    let mut g = GameOver::new();
    assert!(!PracticePlugin::recover_enemy_health(&mut g, 0, &vec![GameOverEvent::Win]));
    assert!(PracticePlugin::recover_enemy_health(&mut g, 2000 * MS, &vec![]));
    let mut g = GameOver::new();
    assert!(!PracticePlugin::recover_enemy_health(&mut g, 0, &vec![GameOverEvent::Lose]));
    assert!(!PracticePlugin::recover_enemy_health(&mut g, 2000 * MS, &vec![]));
    assert_eq!(g.event(), None);
}

#[test]
fn match_end_sounds() {
    assert_eq!(score_audio(GameOverEvent::Win), ScoreSound::Explosion);
    assert_eq!(score_audio(GameOverEvent::Lose), ScoreSound::Lose);
}

#[test]
fn ending_moves_on_once_two_seconds_have_passed() {
    let mut g = GameOver::new();
    let r = BattlePlugin::game_over_system(&mut g, 0, &vec![GameOverEvent::Lose]);
    assert_eq!(r, (TimeScaleAction::SlowDown, None));
    // frames of 300 ms: slow motion over after 0.8 s, wait over after 2 s
    let expected = [
        (TimeScaleAction::Ease { recovering: false }, None),
        (TimeScaleAction::Ease { recovering: false }, None),
        (TimeScaleAction::Ease { recovering: true }, None),
        (TimeScaleAction::Ease { recovering: true }, None),
        (TimeScaleAction::Ease { recovering: true }, None),
        (TimeScaleAction::Ease { recovering: true }, None),
        (TimeScaleAction::Reset, Some(AppState::Menu)),
    ];
    for e in expected.iter() {
        let r = BattlePlugin::game_over_system(&mut g, 300 * MS, &vec![GameOverEvent::Win]);
        assert_eq!(r, *e);
    }
    assert_eq!(g.event(), None);
    // a new ending starts with fresh clocks
    BattlePlugin::game_over_system(&mut g, 0, &vec![GameOverEvent::Win]);
    let r = BattlePlugin::game_over_system(&mut g, 1999 * MS, &vec![]);
    assert_eq!(r, (TimeScaleAction::Ease { recovering: true }, None));
    let r = BattlePlugin::game_over_system(&mut g, 1 * MS, &vec![]);
    assert_eq!(r, (TimeScaleAction::Reset, Some(AppState::Score)));
}

#[test]
fn settle_runs_only_the_wait() {
    let mut g = GameOver::new();
    assert_eq!(g.settle(0, &vec![GameOverEvent::Win]), None);
    assert_eq!(g.settle(1999 * MS, &vec![]), None);
    assert_eq!(g.settle(1 * MS, &vec![]), Some(GameOverEvent::Win));
    assert_eq!(g.settle(5000 * MS, &vec![]), None);
}
