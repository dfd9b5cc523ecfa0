use bounce_up::text::{hint_text, ColorText, HintText, HINT_COUNT};
use std::collections::BTreeSet;

#[test]
fn hint_texts() {
    assert_eq!(hint_text(0), "Control your ball speed!");
    assert_eq!(hint_text(1), "Can your paddle catch the ball on its own?");
    assert_eq!(hint_text(2), "Try to bounce; not to push!");
    assert_eq!(HINT_COUNT, 3);
}

#[test]
fn color_text_cycles_each_period() {
    let mut t = ColorText::new(2, 1_000);
    assert_eq!(t.index(), 0);
    assert_eq!(t.update(500), 0);
    assert_eq!(t.index(), 0);
    assert_eq!(t.update(500), 0);
    assert_eq!(t.index(), 1);
    assert_eq!(t.update(1_000), 1);
    assert_eq!(t.index(), 0);
    t.advance();
    assert_eq!(t.index(), 1);
}

#[test]
fn hint_advance_rerolls() {
    let mut h = HintText::new(1_000);
    h.advance(2);
    assert_eq!(h.index(), 2);
    h.advance(2);
    assert_eq!(h.index(), 0);
    h.advance(0);
    assert_eq!(h.index(), 1);
}

#[test]
fn hint_changes_every_period_and_visits_all() {
    let mut h = HintText::new(1_000);
    assert_eq!(h.update(10), "Control your ball speed!");
    assert_eq!(h.index(), 0);
    let mut seen = BTreeSet::new();
    for _ in 0..300 {
        let before = h.index();
        assert_eq!(h.update(1_000), hint_text(before));
        assert_ne!(h.index(), before);
        assert!(h.index() < HINT_COUNT);
        seen.insert(h.index());
    }
    assert_eq!(seen.len(), 3);
}

#[test]
fn color_follows_game_time() {
    // period 100, frames of 30: color number (time / 100) modulo 3
    let mut t = ColorText::new(3, 100);
    let mut time: u64 = 0;
    for _ in 0..40 {
        let shown = t.update(30);
        assert_eq!(shown as u64, (time / 100) % 3);
        time += 30;
        assert_eq!(t.index() as u64, (time / 100) % 3);
    }
}

#[test]
fn color_steps_once_per_frame_at_most() {
    let mut t = ColorText::new(4, 100);
    t.update(350);
    assert_eq!(t.index(), 1);
}
