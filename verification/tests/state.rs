use cube_spin::state::{decayed, velocity_component, wrap_angle, InteractionState, TURN};

#[test]
fn new_state_is_at_rest() {
    let s = InteractionState::new(800, 600);
    assert_eq!(s.theta, 0);
    assert_eq!(s.phi, 0);
    assert_eq!(s.dx, 0);
    assert_eq!(s.dy, 0);
    assert!(!s.dragging);
    assert_eq!(s.viewport.width, 800);
    assert_eq!(s.viewport.height, 600);
}

#[test]
fn pointer_down_engages_dragging() {
    let mut s = InteractionState::new(800, 600);
    s.pointer_down();
    assert!(s.dragging);
    assert_eq!(s.theta, 0);
    assert_eq!(s.phi, 0);
    assert_eq!(s.dx, 0);
    assert_eq!(s.dy, 0);
}

#[test]
fn pointer_up_disengages_dragging() {
    let mut s = InteractionState::new(800, 600);
    s.pointer_down();
    s.pointer_up();
    assert!(!s.dragging);
}

#[test]
fn pointer_leave_acts_like_release() {
    let mut s = InteractionState::new(800, 600);
    s.pointer_down();
    s.pointer_move(100, 0);
    s.pointer_leave();
    assert!(!s.dragging);
    // the velocity from the last move is kept for coasting
    assert_eq!(s.dx, 131072);
}

#[test]
fn move_while_not_dragging_is_ignored() {
    let mut s = InteractionState::new(800, 600);
    s.pointer_move(100, 50);
    assert_eq!(s.theta, 0);
    assert_eq!(s.phi, 0);
    assert_eq!(s.dx, 0);
    assert_eq!(s.dy, 0);
    assert!(!s.dragging);
}

#[test]
fn drag_move_accumulates_normalized_delta() {
    let mut s = InteractionState::new(800, 600);
    s.pointer_down();
    // 100 pixels over an 800-pixel viewport: an eighth of a turn
    s.pointer_move(100, 0);
    assert_eq!(s.dx, TURN / 8);
    assert_eq!(s.dy, 0);
    assert_eq!(s.theta, TURN / 8);
    assert_eq!(s.phi, 0);
    // a second identical move doubles the angle, not the velocity
    s.pointer_move(100, 0);
    assert_eq!(s.dx, TURN / 8);
    assert_eq!(s.theta, TURN / 4);
}

#[test]
fn drag_move_on_both_axes() {
    let mut s = InteractionState::new(800, 600);
    s.pointer_down();
    s.pointer_move(200, 150);
    assert_eq!(s.dx, 200 * TURN / 800);
    assert_eq!(s.dy, 150 * TURN / 600);
    assert_eq!(s.theta, 200 * TURN / 800);
    assert_eq!(s.phi, 150 * TURN / 600);
}

#[test]
fn negative_drag_move_wraps_below_zero() {
    let mut s = InteractionState::new(800, 600);
    s.pointer_down();
    s.pointer_move(-100, 0);
    assert_eq!(s.dx, -131072);
    assert_eq!(s.theta, TURN - 131072);
}

#[test]
fn zero_viewport_move_is_guarded_noop() {
    let mut s = InteractionState::new(800, 0);
    s.pointer_down();
    s.pointer_move(100, 50);
    assert_eq!(s.theta, 0);
    assert_eq!(s.phi, 0);
    assert_eq!(s.dx, 0);
    assert_eq!(s.dy, 0);
    let mut s = InteractionState::new(0, 600);
    s.pointer_down();
    s.pointer_move(100, 50);
    assert_eq!(s.theta, 0);
    assert_eq!(s.dx, 0);
}

#[test]
fn tick_while_dragging_changes_nothing() {
    let mut s = InteractionState::new(800, 600);
    s.pointer_down();
    s.pointer_move(100, 0);
    let before = s;
    s.tick();
    assert_eq!(s.theta, before.theta);
    assert_eq!(s.phi, before.phi);
    assert_eq!(s.dx, before.dx);
    assert_eq!(s.dy, before.dy);
    assert_eq!(s.dragging, before.dragging);
}

#[test]
fn coasting_tick_decays_velocity_then_advances() {
    let mut s = InteractionState::new(800, 600);
    s.pointer_down();
    s.pointer_move(100, 0);
    s.pointer_up();
    s.tick();
    // 131072 * 19 / 20 == 124518 (rounded toward zero)
    assert_eq!(s.dx, 124518);
    assert_eq!(s.theta, 131072 + 124518);
    s.tick();
    assert_eq!(s.dx, 118292);
    assert_eq!(s.theta, 131072 + 124518 + 118292);
}

#[test]
fn coasting_decay_magnitude_shrinks() {
    let mut s = InteractionState::new(800, 600);
    s.pointer_down();
    s.pointer_move(-100, -60);
    s.pointer_up();
    let mut last_dx = s.dx.abs();
    let mut last_dy = s.dy.abs();
    for _ in 0..50 {
        s.tick();
        assert!(s.dx.abs() <= last_dx);
        assert!(s.dy.abs() <= last_dy);
        assert!(s.dx <= 0);
        assert!(s.dy <= 0);
        last_dx = s.dx.abs();
        last_dy = s.dy.abs();
    }
}

#[test]
fn decay_stays_below_geometric_ratio() {
    // after n ticks the velocity is at most v0 * (19/20)^n
    let mut v: i64 = 131072;
    let mut p19: u128 = 1;
    let mut p20: u128 = 1;
    for _ in 0..10 {
        v = decayed(v);
        p19 *= 19;
        p20 *= 20;
        assert!((v as u128) * p20 <= 131072u128 * p19);
    }
}

#[test]
fn end_to_end_drag_then_coast() {
    let mut s = InteractionState::new(800, 600);
    s.pointer_down();
    s.pointer_move(100, 0);
    // 100 * TURN / 800 units is an eighth of a turn, about 0.7854 radians
    assert_eq!(s.dx, 131072);
    assert_eq!(s.theta, 131072);
    assert_eq!(s.phi, 0);
    s.pointer_up();
    let expected_dx = [
        124518, 118292, 112377, 106758, 101420, 96349, 91531, 86954, 82606, 78475,
    ];
    let mut expected_theta = 131072i64;
    for v in expected_dx {
        s.tick();
        expected_theta = (expected_theta + v).rem_euclid(TURN);
        assert_eq!(s.dx, v);
        assert_eq!(s.theta, expected_theta);
    }
    // ten ticks leave about 0.95^10 of the velocity
    assert_eq!(s.dx, 78475);
    assert_eq!(s.theta, 81776);
    assert_eq!(s.phi, 0);
    assert_eq!(s.dy, 0);
}

#[test]
fn wrap_angle_reduces_into_one_turn() {
    assert_eq!(wrap_angle(0), 0);
    assert_eq!(wrap_angle(TURN), 0);
    assert_eq!(wrap_angle(TURN + 5), 5);
    assert_eq!(wrap_angle(-1), TURN - 1);
    assert_eq!(wrap_angle(-300000), 748576);
    assert_eq!(wrap_angle(-TURN), 0);
}

#[test]
fn velocity_component_scales_and_truncates() {
    assert_eq!(velocity_component(100, 800), 131072);
    assert_eq!(velocity_component(-100, 800), -131072);
    assert_eq!(velocity_component(800, 800), TURN);
    assert_eq!(velocity_component(0, 123), 0);
    assert_eq!(velocity_component(1, 3), TURN / 3);
}

#[test]
fn decayed_is_nineteen_twentieths_toward_zero() {
    assert_eq!(decayed(0), 0);
    assert_eq!(decayed(20), 19);
    assert_eq!(decayed(-20), -19);
    assert_eq!(decayed(131072), 124518);
    assert_eq!(decayed(-131072), -124518);
    assert_eq!(decayed(1), 0);
    assert_eq!(decayed(-1), 0);
}
