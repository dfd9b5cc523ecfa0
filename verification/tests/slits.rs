use bounce_up::cycle::reroll_index;
use bounce_up::slits::{slit_slot, SlitState, Slits};
use bounce_up::PracticePlugin;

fn gap(s: &Slits) -> Option<usize> {
    match s.state {
        SlitState::Stand(g) => Some(g),
        _ => None,
    }
}

#[test]
fn slots_step_over_the_gap() {
    // four blocks, gap at position 2: blocks take positions 0, 1, 3, 4
    let slots: Vec<usize> = (0..4).map(|b| slit_slot(b, 2)).collect();
    assert_eq!(slots, vec![0, 1, 3, 4]);
    let slots: Vec<usize> = (0..4).map(|b| slit_slot(b, 0)).collect();
    assert_eq!(slots, vec![1, 2, 3, 4]);
    let slots: Vec<usize> = (0..4).map(|b| slit_slot(b, 4)).collect();
    assert_eq!(slots, vec![0, 1, 2, 3]);
}

#[test]
fn wall_starts_with_gap_in_the_middle() {
    let mut s = Slits::new(9);
    assert_eq!(gap(&s), Some(0));
    assert_eq!(s.make_slit_blocks(), 9);
    assert_eq!(gap(&s), Some(4));
}

#[test]
fn a_hit_moves_the_gap_elsewhere() {
    for _ in 0..50 {
        let mut s = Slits::new(4);
        s.make_slit_blocks();
        PracticePlugin::change_slits(&mut s, 1);
        match &s.state {
            SlitState::Move { previous, next, .. } => {
                assert_eq!(*previous, 2);
                assert_ne!(*next, 2);
                assert!(*next <= 4);
            }
            _ => panic!("the gap should move"),
        }
    }
}

#[test]
fn begin_move_rerolls_onto_another_position() {
    let mut s = Slits::new(4);
    s.make_slit_blocks();
    s.begin_move(2);
    match &s.state {
        SlitState::Move { previous, next, .. } => assert_eq!((*previous, *next), (2, 3)),
        _ => panic!("the gap should move"),
    }
    let mut s = Slits::new(4);
    s.state = SlitState::Stand(4);
    s.begin_move(4);
    match &s.state {
        SlitState::Move { previous, next, .. } => assert_eq!((*previous, *next), (4, 0)),
        _ => panic!("the gap should move"),
    }
    let mut s = Slits::new(4);
    s.begin_move(3);
    match &s.state {
        SlitState::Move { previous, next, .. } => assert_eq!((*previous, *next), (0, 3)),
        _ => panic!("the gap should move"),
    }
}

#[test]
fn no_hit_or_moving_gap_changes_nothing() {
    let mut s = Slits::new(4);
    s.make_slit_blocks();
    s.change_slits(0);
    assert_eq!(gap(&s), Some(2));
    s.begin_move(0);
    s.change_slits(3);
    match &s.state {
        SlitState::Move { previous, next, .. } => assert_eq!((*previous, *next), (2, 0)),
        _ => panic!("the gap should still move"),
    }
}

#[test]
fn moving_gap_arrives_after_its_move() {
    let mut s = Slits::new(4);
    s.make_slit_blocks();
    s.begin_move(1);
    s.slits_system(50_000_000);
    assert!(matches!(s.state, SlitState::Move { previous: 2, next: 1, .. }));
    s.slits_system(60_000_000);
    assert_eq!(gap(&s), Some(1));
    s.slits_system(60_000_000);
    assert_eq!(gap(&s), Some(1));
}

#[test]
fn single_position_wall_keeps_its_gap() {
    let mut s = Slits::new(0);
    s.begin_move(0);
    assert!(matches!(s.state, SlitState::Move { previous: 0, next: 0, .. }));
}

#[test]
fn gap_can_move_to_every_other_position() {
    let mut seen = std::collections::BTreeSet::new();
    for _ in 0..300 {
        let mut s = Slits::new(4);
        s.make_slit_blocks();
        s.change_slits(2);
        if let SlitState::Move { next, .. } = s.state {
            seen.insert(next);
        }
    }
    let expected: std::collections::BTreeSet<usize> = [0, 1, 3, 4].into_iter().collect();
    assert_eq!(seen, expected);
}

#[test]
fn reroll_skips_the_current_option() {
    assert_eq!(reroll_index(1, 2, 3), 2);
    assert_eq!(reroll_index(1, 1, 3), 2);
    assert_eq!(reroll_index(2, 2, 3), 0);
    assert_eq!(reroll_index(0, 0, 1), 0);
}
