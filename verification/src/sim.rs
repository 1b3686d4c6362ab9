use vstd::prelude::*;
use crate::camera::{zoom_applied, ViewportState};
use crate::config::Config;
use crate::fixed::fits_i64;
use crate::input::{axis_value, map_input, sum_scroll, InputIntent, KeyState, SCROLL_COUNT_MAX, SCROLL_EVENT_MAX};
use crate::motion::{apply_intent, axis_displacement_spec, sprite_movement, KinematicState, Transform, DT_MAX, SPAWN_X};

verus! {

/// Spawn the two simulated entities: the player, at rest at the spawn point,
/// and the camera, at the world origin with the default zoom.
pub fn spawn_entities() -> (r: (KinematicState, Transform, ViewportState))
    ensures
        r.0 == (KinematicState { dir_x: 0i8, dir_y: 0i8, sprint: false }),
        r.1 == (Transform { x_milli: SPAWN_X, y_milli: 0i64 }),
        r.2.scale_milli == crate::camera::SCALE_DEFAULT,
{
    (KinematicState::at_rest(), Transform::at(SPAWN_X, 0), ViewportState::new())
}

/// One simulation tick: map the frame's raw input to an intent, write it
/// into the kinematic state, integrate the entity motion, and apply the
/// frame's zoom — in that order, so the integrator always reads the heading
/// the same frame's input produced. `dt_milli` is the fixed step of a
/// fixed-timestep driver, or the measured frame delta of a variable-step
/// one; the pipeline is the same either way. Returns whether the exit key
/// was held, for the lifecycle collaborator to act on.
pub fn tick(
    keys: &KeyState,
    scrolls: &Vec<i64>,
    dt_milli: u64,
    config: &Config,
    state: &mut KinematicState,
    transform: &mut Transform,
    viewport: &mut ViewportState,
) -> (exit: bool)
    requires
        config.wf(),
        dt_milli <= DT_MAX,
        scrolls@.len() <= SCROLL_COUNT_MAX,
        forall|i: int| 0 <= i < scrolls@.len()
            ==> -SCROLL_EVENT_MAX <= #[trigger] scrolls@[i] <= SCROLL_EVENT_MAX,
        fits_i64(
            old(transform).x_milli
                + axis_value(keys.left, keys.right)
                    * axis_displacement_spec(*config, keys.sprint, dt_milli),
        ),
        fits_i64(
            old(transform).y_milli
                + axis_value(keys.down, keys.up)
                    * axis_displacement_spec(*config, keys.sprint, dt_milli),
        ),
        fits_i64(
            zoom_applied(old(viewport).scale_milli as int, sum_scroll(scrolls@), dt_milli as int),
        ),
    ensures
        final(state).dir_x == axis_value(keys.left, keys.right),
        final(state).dir_y == axis_value(keys.down, keys.up),
        final(state).sprint == keys.sprint,
        final(transform).x_milli == old(transform).x_milli
            + axis_value(keys.left, keys.right)
                * axis_displacement_spec(*config, keys.sprint, dt_milli),
        final(transform).y_milli == old(transform).y_milli
            + axis_value(keys.down, keys.up)
                * axis_displacement_spec(*config, keys.sprint, dt_milli),
        final(viewport).scale_milli == zoom_applied(
            old(viewport).scale_milli as int,
            sum_scroll(scrolls@),
            dt_milli as int,
        ),
        exit == keys.exit,
{
    let intent: InputIntent = map_input(keys, scrolls);
    apply_intent(&intent, state);
    sprite_movement(state, config, dt_milli, transform);
    crate::camera::zoom_in(viewport, intent.scroll_delta_milli, dt_milli);
    intent.exit_requested
}

} // verus!
