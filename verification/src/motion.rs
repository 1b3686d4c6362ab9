use vstd::prelude::*;
use crate::config::{Config, effective_speed_spec, EFFECTIVE_SPEED_MAX};
use crate::fixed::{fits_i64, MILLI};
use crate::input::InputIntent;

verus! {

/// Largest frame delta the integrator accepts: one hour, in milli-seconds.
pub const DT_MAX: u64 = 3_600_000;

/// Largest per-axis displacement one frame can produce:
/// `EFFECTIVE_SPEED_MAX * DT_MAX / MILLI`, in milli-units.
pub const DISPLACEMENT_MAX: u64 = 360_000_000_000;

/// World-space x coordinate where the player entity is spawned, in milli
/// (100 units to the right of the origin).
pub const SPAWN_X: i64 = 100_000;

/// Per-entity kinematic state: the heading and sprint flag the input mapper
/// wrote this frame. Fully replaced every tick, never accumulated.
#[derive(Clone, Copy, Debug, PartialEq, Eq, Structural)]
pub struct KinematicState {
    /// Horizontal heading, in {-1, 0, +1}.
    pub dir_x: i8,
    /// Vertical heading, in {-1, 0, +1}; positive is up.
    pub dir_y: i8,
    /// The sprint modifier is held this frame.
    pub sprint: bool,
}

impl KinematicState {
    /// Both headings are unit axis values.
    pub open spec fn wf(self) -> bool {
        -1 <= self.dir_x <= 1 && -1 <= self.dir_y <= 1
    }

    /// The state an entity spawns with: at rest, not sprinting.
    pub fn at_rest() -> (s: KinematicState)
        ensures
            s == (KinematicState { dir_x: 0i8, dir_y: 0i8, sprint: false }),
            s.wf(),
    {
        KinematicState { dir_x: 0, dir_y: 0, sprint: false }
    }
}

/// World-space position of an entity, in milli-units: the one field the
/// render collaborator reads.
#[derive(Clone, Copy, Debug, PartialEq, Eq, Structural)]
pub struct Transform {
    pub x_milli: i64,
    pub y_milli: i64,
}

impl Transform {
    /// A transform at the given world position.
    pub fn at(x_milli: i64, y_milli: i64) -> (t: Transform)
        ensures
            t.x_milli == x_milli,
            t.y_milli == y_milli,
    {
        Transform { x_milli, y_milli }
    }
}

/// Displacement of one held axis over one frame, in milli-units:
/// `effective_speed * dt`, rescaled by the fixed-point divisor.
pub open spec fn axis_displacement_spec(c: Config, sprint: bool, dt_milli: u64) -> int {
    (effective_speed_spec(c, sprint) * dt_milli) / (MILLI as int)
}

/// The effective speed and the per-axis frame displacement of a well-formed
/// configuration are nonnegative and bounded, so one integration step can
/// never move a coordinate by more than `DISPLACEMENT_MAX`.
pub proof fn lemma_axis_displacement_bounds(config: Config, sprint: bool, dt_milli: u64)
    requires
        config.wf(),
        dt_milli <= DT_MAX,
    ensures
        0 <= effective_speed_spec(config, sprint) <= EFFECTIVE_SPEED_MAX,
        0 <= axis_displacement_spec(config, sprint, dt_milli) <= DISPLACEMENT_MAX,
{
    let eff = effective_speed_spec(config, sprint);
    if sprint {
        let p = config.speed_milli * config.sprint_multiplier_milli;
        vstd::arithmetic::mul::lemma_mul_nonnegative(
            config.speed_milli as int,
            config.sprint_multiplier_milli as int,
        );
        crate::fixed::lemma_mul_le(
            config.speed_milli as int,
            config.sprint_multiplier_milli as int,
            crate::config::SPEED_MAX as int,
            crate::config::MULTIPLIER_MAX as int,
        );
        vstd::arithmetic::div_mod::lemma_div_pos_is_pos(p, MILLI as int);
        vstd::arithmetic::div_mod::lemma_div_is_ordered(
            p,
            crate::config::SPEED_MAX * crate::config::MULTIPLIER_MAX,
            MILLI as int,
        );
    }
    let q = eff * dt_milli;
    vstd::arithmetic::mul::lemma_mul_nonnegative(eff, dt_milli as int);
    crate::fixed::lemma_mul_le(eff, dt_milli as int, EFFECTIVE_SPEED_MAX as int, DT_MAX as int);
    vstd::arithmetic::div_mod::lemma_div_pos_is_pos(q, MILLI as int);
    vstd::arithmetic::div_mod::lemma_div_is_ordered(
        q,
        EFFECTIVE_SPEED_MAX * DT_MAX,
        MILLI as int,
    );
}

/// Displacement of one held axis over one frame, in milli-units.
pub fn axis_displacement(config: &Config, sprint: bool, dt_milli: u64) -> (d: u64)
    requires
        config.wf(),
        dt_milli <= DT_MAX,
    ensures
        d == axis_displacement_spec(*config, sprint, dt_milli),
        d <= DISPLACEMENT_MAX,
{
    let eff: u64 = config.effective_speed(sprint);
    proof {
        crate::fixed::lemma_mul_le(
            eff as int,
            dt_milli as int,
            EFFECTIVE_SPEED_MAX as int,
            DT_MAX as int,
        );
    }
    (eff * dt_milli) / MILLI
}

/// Write this frame's intent into the entity's kinematic state, fully
/// replacing the previous frame's heading and sprint flag.
pub fn apply_intent(intent: &InputIntent, state: &mut KinematicState)
    requires
        intent.wf(),
    ensures
        final(state).dir_x == intent.dir_x,
        final(state).dir_y == intent.dir_y,
        final(state).sprint == intent.sprint,
        final(state).wf(),
{
    state.dir_x = intent.dir_x;
    state.dir_y = intent.dir_y;
    state.sprint = intent.sprint;
}

/// One axis of the integration step: the position shifted by the heading
/// times the frame displacement.
fn shift_axis(pos_milli: i64, dir: i8, d_milli: u64) -> (r: i64)
    requires
        -1 <= dir <= 1,
        d_milli <= DISPLACEMENT_MAX,
        fits_i64(pos_milli + dir * d_milli),
    ensures
        r == pos_milli + dir * d_milli,
{
    if dir == 1 {
        proof {
            assert(dir * d_milli == d_milli) by (nonlinear_arith)
                requires dir == 1i8;
        }
        pos_milli + (d_milli as i64)
    } else if dir == -1 {
        proof {
            assert(dir * d_milli == -(d_milli as int)) by (nonlinear_arith)
                requires dir == -1i8;
        }
        pos_milli - (d_milli as i64)
    } else {
        proof {
            assert(dir * d_milli == 0) by (nonlinear_arith)
                requires dir == 0i8;
        }
        pos_milli
    }
}

/// Motion integrator: advance the entity transform by one tick. Each axis is
/// displaced independently and additively by `heading * effective_speed * dt`;
/// diagonal motion is deliberately not normalized, so two held axes move the
/// entity `sqrt(2)` times faster than one (observed behavior, kept as is).
pub fn sprite_movement(state: &KinematicState, config: &Config, dt_milli: u64, transform: &mut Transform)
    requires
        state.wf(),
        config.wf(),
        dt_milli <= DT_MAX,
        fits_i64(
            old(transform).x_milli
                + state.dir_x * axis_displacement_spec(*config, state.sprint, dt_milli),
        ),
        fits_i64(
            old(transform).y_milli
                + state.dir_y * axis_displacement_spec(*config, state.sprint, dt_milli),
        ),
    ensures
        final(transform).x_milli == old(transform).x_milli
            + state.dir_x * axis_displacement_spec(*config, state.sprint, dt_milli),
        final(transform).y_milli == old(transform).y_milli
            + state.dir_y * axis_displacement_spec(*config, state.sprint, dt_milli),
{
    let d: u64 = axis_displacement(config, state.sprint, dt_milli);
    transform.x_milli = shift_axis(transform.x_milli, state.dir_x, d);
    transform.y_milli = shift_axis(transform.y_milli, state.dir_y, d);
}

} // verus!
