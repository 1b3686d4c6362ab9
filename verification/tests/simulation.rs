use sprite_sim::config::Config;
use sprite_sim::input::{map_input, InputIntent, KeyState};
use sprite_sim::motion::{
    apply_intent, axis_displacement, sprite_movement, KinematicState, Transform, SPAWN_X,
};
use sprite_sim::camera::ViewportState;
use sprite_sim::sim::{spawn_entities, tick};

fn held(left: bool, right: bool, up: bool, down: bool, sprint: bool, exit: bool) -> KeyState {
    KeyState { left, right, up, down, sprint, exit }
}

fn run_frame(keys: KeyState, scrolls: Vec<i64>, dt_milli: u64) -> (Transform, ViewportState, bool) {
    let cfg = Config::new();
    let (mut state, mut transform, mut viewport) = spawn_entities();
    let exit = tick(&keys, &scrolls, dt_milli, &cfg, &mut state, &mut transform, &mut viewport);
    (transform, viewport, exit)
}

#[test]
fn spawn_is_at_rest_at_the_spawn_point() {
    let (state, transform, viewport) = spawn_entities();
    assert_eq!(state, KinematicState { dir_x: 0, dir_y: 0, sprint: false });
    assert_eq!(transform, Transform { x_milli: SPAWN_X, y_milli: 0 });
    assert_eq!(transform.x_milli, 100_000);
    assert_eq!(viewport.scale_milli, 1000);
}

#[test]
fn zero_input_leaves_position_unchanged() {
    let (transform, _, exit) = run_frame(KeyState::released(), vec![], 1000);
    assert_eq!(transform, Transform { x_milli: SPAWN_X, y_milli: 0 });
    assert!(!exit);
}

#[test]
fn right_only_advances_x_by_effective_speed_times_dt() {
    // One second at the default 150 units/s: x advances 150 units, y is still.
    let (transform, _, _) = run_frame(held(false, true, false, false, false, false), vec![], 1000);
    assert_eq!(transform.x_milli, SPAWN_X + 150_000);
    assert_eq!(transform.y_milli, 0);
}

#[test]
fn left_only_retreats_x() {
    let (transform, _, _) = run_frame(held(true, false, false, false, false, false), vec![], 1000);
    assert_eq!(transform.x_milli, SPAWN_X - 150_000);
    assert_eq!(transform.y_milli, 0);
}

#[test]
fn vertical_keys_move_y_both_ways() {
    let (up, _, _) = run_frame(held(false, false, true, false, false, false), vec![], 500);
    assert_eq!(up.y_milli, 75_000);
    assert_eq!(up.x_milli, SPAWN_X);
    let (down, _, _) = run_frame(held(false, false, false, true, false, false), vec![], 500);
    assert_eq!(down.y_milli, -75_000);
    assert_eq!(down.x_milli, SPAWN_X);
}

#[test]
fn left_and_right_together_advance_x_not_cancel() {
    // Both horizontal keys held for one second at the default speed: the
    // right key's conditional runs last and overrides, so x advances by the
    // full 150 units instead of standing still.
    let (transform, _, _) = run_frame(held(true, true, false, false, false, false), vec![], 1000);
    assert_eq!(transform.x_milli, SPAWN_X + 150_000);
}

#[test]
fn diagonal_movement_is_not_normalized() {
    // Up and right held for one second at 150 units/s: each axis gets the
    // full displacement, so the magnitude is 150 * sqrt(2), about 212.13.
    let (transform, _, _) = run_frame(held(false, true, true, false, false, false), vec![], 1000);
    assert_eq!(transform.x_milli - SPAWN_X, 150_000);
    assert_eq!(transform.y_milli, 150_000);
    let dx = (transform.x_milli - SPAWN_X) as f64 / 1000.0;
    let dy = transform.y_milli as f64 / 1000.0;
    let magnitude = (dx * dx + dy * dy).sqrt();
    assert!((magnitude - 212.132034).abs() < 1e-3);
}

#[test]
fn sprint_scales_displacement_by_the_multiplier() {
    // Up plus sprint for one second at the defaults: 150 * 1.5 = 225 units.
    let (transform, _, _) = run_frame(held(false, false, true, false, true, false), vec![], 1000);
    assert_eq!(transform.y_milli, 225_000);
    assert_eq!(transform.x_milli, SPAWN_X);
}

#[test]
fn exit_key_is_reported_to_the_driver() {
    let (_, _, exit) = run_frame(held(false, false, false, false, false, true), vec![], 16);
    assert!(exit);
}

#[test]
fn map_input_neutral_snapshot_yields_neutral_intent() {
    let intent = map_input(&KeyState::released(), &vec![]);
    assert_eq!(
        intent,
        InputIntent {
            dir_x: 0,
            dir_y: 0,
            sprint: false,
            scroll_delta_milli: 0,
            exit_requested: false,
        }
    );
}

#[test]
fn map_input_reads_each_key() {
    let intent = map_input(&held(true, false, false, true, true, true), &vec![]);
    assert_eq!(intent.dir_x, -1);
    assert_eq!(intent.dir_y, -1);
    assert!(intent.sprint);
    assert!(intent.exit_requested);
}

#[test]
fn map_input_sums_every_scroll_event() {
    // Zero, one, or many events per frame; the intent carries their sum.
    let intent = map_input(&KeyState::released(), &vec![5000, -2000, 1500]);
    assert_eq!(intent.scroll_delta_milli, 4500);
    let none = map_input(&KeyState::released(), &vec![]);
    assert_eq!(none.scroll_delta_milli, 0);
}

#[test]
fn intent_is_recomputed_from_scratch_each_frame() {
    let cfg = Config::new();
    let mut state = KinematicState::at_rest();
    let moving = map_input(&held(false, true, true, false, true, false), &vec![]);
    apply_intent(&moving, &mut state);
    assert_eq!(state, KinematicState { dir_x: 1, dir_y: 1, sprint: true });
    // The next frame's neutral snapshot fully replaces the heading.
    let neutral = map_input(&KeyState::released(), &vec![]);
    apply_intent(&neutral, &mut state);
    assert_eq!(state, KinematicState { dir_x: 0, dir_y: 0, sprint: false });
    let mut t = Transform::at(0, 0);
    sprite_movement(&state, &cfg, 1000, &mut t);
    assert_eq!(t, Transform { x_milli: 0, y_milli: 0 });
}

#[test]
fn displacement_truncates_toward_zero_in_fixed_point() {
    // 150 units/s over 3 ms is 0.45 units: 450 milli, no rounding loss here;
    // over 1 ms it is 150 milli.
    let cfg = Config::new();
    assert_eq!(axis_displacement(&cfg, false, 3), 450);
    assert_eq!(axis_displacement(&cfg, false, 1), 150);
    // Sprinting over 3 ms: 225 units/s * 0.003 s = 675 milli.
    assert_eq!(axis_displacement(&cfg, true, 3), 675);
}

#[test]
fn successive_ticks_accumulate_displacement() {
    let cfg = Config::new();
    let (mut state, mut transform, mut viewport) = spawn_entities();
    let keys = held(false, true, false, false, false, false);
    for _ in 0..4 {
        let exit = tick(&keys, &vec![], 250, &cfg, &mut state, &mut transform, &mut viewport);
        assert!(!exit);
    }
    // Four quarter-second frames at 150 units/s: 150 units in all.
    assert_eq!(transform.x_milli, SPAWN_X + 150_000);
}
