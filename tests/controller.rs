use character_controller::{InputController, InputEvent, KeyCode, MoveAxes, MILLIDEGREES_PER_DEGREE, PITCH_LIMIT};

fn key(key: KeyCode, pressed: bool) -> InputEvent {
    InputEvent::Key { key, pressed }
}

fn mouse(dx: i32, dy: i32) -> InputEvent {
    InputEvent::MouseMotion { dx, dy }
}

fn run(events: &[InputEvent]) -> InputController {
    let mut c = InputController::new();
    for e in events {
        c.process_input_event(e);
    }
    c
}

#[test]
fn new_controller_is_at_rest() {
    let c = InputController::new();
    assert!(!c.move_forward && !c.move_backward && !c.move_left && !c.move_right);
    assert_eq!(c.pitch, 0);
    assert_eq!(c.yaw, 0);
}

#[test]
fn movement_keys_follow_last_event() {
    let c = run(&[
        key(KeyCode::W, true),
        key(KeyCode::A, true),
        key(KeyCode::S, true),
        key(KeyCode::W, false),
        key(KeyCode::D, true),
        key(KeyCode::D, false),
        mouse(3, 4),
    ]);
    assert!(!c.move_forward);
    assert!(c.move_left);
    assert!(c.move_backward);
    assert!(!c.move_right);
}

#[test]
fn unmapped_keys_are_ignored() {
    let before = run(&[key(KeyCode::W, true)]);
    let mut after = before;
    after.process_input_event(&key(KeyCode::Other, true));
    after.process_input_event(&key(KeyCode::Escape, false));
    assert_eq!(before, after);
}

#[test]
fn huge_upward_delta_clamps_pitch_to_ninety() {
    let c = run(&[mouse(0, (10_000 * MILLIDEGREES_PER_DEGREE) as i32)]);
    assert_eq!(c.pitch, 90 * MILLIDEGREES_PER_DEGREE);
    assert_eq!(c.pitch, PITCH_LIMIT);
}

#[test]
fn huge_downward_delta_clamps_pitch_to_minus_ninety() {
    let c = run(&[mouse(0, i32::MIN), mouse(0, 5_000)]);
    assert_eq!(c.pitch, -PITCH_LIMIT + 5_000);
}

#[test]
fn pitch_within_limits_is_kept() {
    let c = run(&[mouse(0, 30_000), mouse(0, -12_500)]);
    assert_eq!(c.pitch, 17_500);
}

#[test]
fn pitch_stays_in_range_over_many_deltas() {
    let mut c = InputController::new();
    let deltas = [i32::MAX, 1, -7, i32::MIN, i32::MIN, 89_999, 3, -1];
    for d in deltas {
        c.process_input_event(&mouse(0, d));
        assert!(c.pitch >= -PITCH_LIMIT && c.pitch <= PITCH_LIMIT);
    }
}

#[test]
fn yaw_is_negated_sum_of_dx() {
    let c = run(&[mouse(5_000, 0), mouse(-2_000, 100), key(KeyCode::W, true), mouse(10_000, 0)]);
    assert_eq!(c.yaw, -13_000);
}

#[test]
fn yaw_is_not_clamped() {
    let mut c = InputController::new();
    for _ in 0..10 {
        c.process_input_event(&mouse(-100_000, 0));
    }
    assert_eq!(c.yaw, 1_000_000);
}

#[test]
fn no_keys_give_no_horizontal_motion() {
    let c = run(&[key(KeyCode::W, true), key(KeyCode::W, false), mouse(12_345, -678)]);
    assert_eq!(c.move_axes(), MoveAxes { forward: 0, side: 0 });
}

#[test]
fn forward_and_backward_cancel() {
    let c = run(&[key(KeyCode::W, true), key(KeyCode::S, true)]);
    assert_eq!(c.move_axes(), MoveAxes { forward: 0, side: 0 });
    let c = run(&[key(KeyCode::W, true), key(KeyCode::S, true), key(KeyCode::D, true)]);
    assert_eq!(c.move_axes(), MoveAxes { forward: 0, side: -1 });
}

#[test]
fn each_key_gives_its_direction() {
    assert_eq!(run(&[key(KeyCode::W, true)]).move_axes(), MoveAxes { forward: 1, side: 0 });
    assert_eq!(run(&[key(KeyCode::S, true)]).move_axes(), MoveAxes { forward: -1, side: 0 });
    assert_eq!(run(&[key(KeyCode::A, true)]).move_axes(), MoveAxes { forward: 0, side: 1 });
    assert_eq!(run(&[key(KeyCode::D, true)]).move_axes(), MoveAxes { forward: 0, side: -1 });
    assert_eq!(
        run(&[key(KeyCode::W, true), key(KeyCode::A, true)]).move_axes(),
        MoveAxes { forward: 1, side: 1 }
    );
}

#[test]
fn repeated_key_down_is_idempotent() {
    let once = run(&[mouse(1_000, 2_000), key(KeyCode::A, true)]);
    let twice = run(&[mouse(1_000, 2_000), key(KeyCode::A, true), key(KeyCode::A, true)]);
    assert_eq!(once, twice);
}

#[test]
fn escape_requests_exit() {
    assert!(key(KeyCode::Escape, true).requests_exit());
    assert!(key(KeyCode::Escape, false).requests_exit());
    assert!(!key(KeyCode::W, true).requests_exit());
    assert!(!mouse(1, 1).requests_exit());
}
