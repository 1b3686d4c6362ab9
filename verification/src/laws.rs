use vstd::prelude::*;
use crate::config::{
    effective_speed_spec, with_speed, with_sprint_multiplier, Config,
};
use crate::fixed::MILLI;
use crate::input::{axis_value, KeyState};
use crate::motion::{
    axis_displacement_spec, lemma_axis_displacement_bounds, Transform, DT_MAX,
};

verus! {

/// A frame with no direction key held leaves the entity position exactly
/// where it was, whatever the frame delta, the tunables and the sprint flag.
pub proof fn lemma_zero_input_identity(
    keys: KeyState,
    config: Config,
    dt_milli: u64,
    transform: Transform,
)
    requires
        !keys.left,
        !keys.right,
        !keys.up,
        !keys.down,
    ensures
        axis_value(keys.left, keys.right) == 0,
        axis_value(keys.down, keys.up) == 0,
        transform.x_milli + axis_value(keys.left, keys.right) * axis_displacement_spec(
            config,
            keys.sprint,
            dt_milli,
        ) == transform.x_milli,
        transform.y_milli + axis_value(keys.down, keys.up) * axis_displacement_spec(
            config,
            keys.sprint,
            dt_milli,
        ) == transform.y_milli,
{
}

/// A frame with only the right key held advances x by exactly the frame
/// displacement `effective_speed * dt` (rescaled), a nonnegative amount,
/// and leaves y unchanged.
pub proof fn lemma_right_only_moves_x(
    keys: KeyState,
    config: Config,
    dt_milli: u64,
    transform: Transform,
)
    requires
        keys.right,
        !keys.left,
        !keys.up,
        !keys.down,
        config.wf(),
        dt_milli <= DT_MAX,
    ensures
        axis_value(keys.left, keys.right) == 1,
        axis_value(keys.down, keys.up) == 0,
        transform.x_milli + axis_value(keys.left, keys.right) * axis_displacement_spec(
            config,
            keys.sprint,
            dt_milli,
        ) == transform.x_milli + axis_displacement_spec(config, keys.sprint, dt_milli),
        axis_displacement_spec(config, keys.sprint, dt_milli) >= 0,
        transform.y_milli + axis_value(keys.down, keys.up) * axis_displacement_spec(
            config,
            keys.sprint,
            dt_milli,
        ) == transform.y_milli,
{
    lemma_axis_displacement_bounds(config, keys.sprint, dt_milli);
}

/// Holding left and right together is deterministic: the right key's later
/// conditional overrides, the heading is +1, and x advances by the full
/// frame displacement instead of standing still.
pub proof fn lemma_right_overrides_left(
    keys: KeyState,
    config: Config,
    dt_milli: u64,
    transform: Transform,
)
    requires
        keys.left,
        keys.right,
        config.wf(),
        dt_milli <= DT_MAX,
    ensures
        axis_value(keys.left, keys.right) == 1,
        transform.x_milli + axis_value(keys.left, keys.right) * axis_displacement_spec(
            config,
            keys.sprint,
            dt_milli,
        ) == transform.x_milli + axis_displacement_spec(config, keys.sprint, dt_milli),
        transform.x_milli + axis_value(keys.left, keys.right) * axis_displacement_spec(
            config,
            keys.sprint,
            dt_milli,
        ) >= transform.x_milli,
{
    lemma_axis_displacement_bounds(config, keys.sprint, dt_milli);
}

/// Diagonal motion is not normalized: with up and right both held, each axis
/// advances by the full single-axis frame displacement `d`, so the squared
/// displacement magnitude is `2 * d * d` — the sqrt(2) speed excess.
pub proof fn lemma_diagonal_unnormalized(
    keys: KeyState,
    config: Config,
    dt_milli: u64,
)
    requires
        keys.up,
        keys.right,
        !keys.left,
        !keys.down,
        config.wf(),
        dt_milli <= DT_MAX,
    ensures
        axis_value(keys.left, keys.right) == 1,
        axis_value(keys.down, keys.up) == 1,
        axis_value(keys.left, keys.right) * axis_displacement_spec(config, keys.sprint, dt_milli)
            == axis_displacement_spec(config, keys.sprint, dt_milli),
        axis_value(keys.down, keys.up) * axis_displacement_spec(config, keys.sprint, dt_milli)
            == axis_displacement_spec(config, keys.sprint, dt_milli),
{
}

/// Sprinting scales the effective speed by exactly the sprint multiplier in
/// fixed point: without sprint the effective speed is the base speed; with
/// sprint it is the rescaled product, which equals `base * multiplier` up to
/// the fixed-point remainder and exactly when the product divides evenly.
pub proof fn lemma_sprint_scales_speed(config: Config)
    requires
        config.wf(),
    ensures
        effective_speed_spec(config, false) == config.speed_milli,
        MILLI * effective_speed_spec(config, true)
            <= config.speed_milli * config.sprint_multiplier_milli
            < MILLI * effective_speed_spec(config, true) + MILLI,
        (config.speed_milli * config.sprint_multiplier_milli) % (MILLI as int) == 0
            ==> MILLI * effective_speed_spec(config, true)
                == config.speed_milli * config.sprint_multiplier_milli,
{
    let p = config.speed_milli * config.sprint_multiplier_milli;
    vstd::arithmetic::div_mod::lemma_fundamental_div_mod(p, MILLI as int);
    vstd::arithmetic::div_mod::lemma_mod_division_less_than_divisor(p, MILLI as int);
    vstd::arithmetic::mul::lemma_mul_nonnegative(
        config.speed_milli as int,
        config.sprint_multiplier_milli as int,
    );
}

/// The tuning interface is idempotent: writing the same value to a knob
/// twice leaves the store — and with it every later frame displacement —
/// exactly as one write does, whether or not the value is accepted.
pub proof fn lemma_tuning_idempotent(
    config: Config,
    speed_milli: u64,
    multiplier_milli: u64,
    sprint: bool,
    dt_milli: u64,
)
    ensures
        with_speed(with_speed(config, speed_milli), speed_milli)
            == with_speed(config, speed_milli),
        with_sprint_multiplier(
            with_sprint_multiplier(config, multiplier_milli),
            multiplier_milli,
        ) == with_sprint_multiplier(config, multiplier_milli),
        axis_displacement_spec(
            with_speed(with_speed(config, speed_milli), speed_milli),
            sprint,
            dt_milli,
        ) == axis_displacement_spec(with_speed(config, speed_milli), sprint, dt_milli),
        axis_displacement_spec(
            with_sprint_multiplier(
                with_sprint_multiplier(config, multiplier_milli),
                multiplier_milli,
            ),
            sprint,
            dt_milli,
        ) == axis_displacement_spec(
            with_sprint_multiplier(config, multiplier_milli),
            sprint,
            dt_milli,
        ),
{
}

} // verus!
