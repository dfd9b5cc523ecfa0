use bounce_up::ball::{Serve, ServeTimers};

const MS: u64 = 1_000_000;

#[test]
fn ball_is_recentred_then_set_moving() {
    let mut s = ServeTimers::new();
    let quiet = Serve { recenter: false, activate: false };
    assert_eq!(s.activate_ball(400 * MS), quiet);
    assert_eq!(s.activate_ball(400 * MS), quiet);
    // 1.2 s: recentred
    assert_eq!(s.activate_ball(400 * MS), Serve { recenter: true, activate: false });
    assert_eq!(s.activate_ball(400 * MS), quiet);
    // 2.0 s: set moving, and the clocks start over
    assert_eq!(s.activate_ball(400 * MS), Serve { recenter: false, activate: true });
    assert_eq!(s.activate_ball(999 * MS), quiet);
    assert_eq!(s.activate_ball(1 * MS), Serve { recenter: true, activate: false });
    assert_eq!(s.activate_ball(1000 * MS), Serve { recenter: false, activate: true });
}

#[test]
fn one_long_frame_does_both() {
    let mut s = ServeTimers::default();
    assert_eq!(s.activate_ball(5000 * MS), Serve { recenter: true, activate: true });
    assert_eq!(s.activate_ball(10 * MS), Serve { recenter: false, activate: false });
}
