use sprite_sim::config::{
    Config, ConfigError, MULTIPLIER_MAX, MULTIPLIER_MIN, PLAYER_SPEED, SPEED_MAX, SPEED_MIN,
    SPRINT_MULTIPLIER,
};
use sprite_sim::motion::axis_displacement;

#[test]
fn defaults_are_the_compiled_in_constants() {
    let cfg = Config::new();
    assert_eq!(cfg.speed(), PLAYER_SPEED);
    assert_eq!(cfg.speed(), 150_000);
    assert_eq!(cfg.sprint_multiplier(), SPRINT_MULTIPLIER);
    assert_eq!(cfg.sprint_multiplier(), 1500);
}

#[test]
fn effective_speed_without_sprint_is_base_speed() {
    let cfg = Config::new();
    assert_eq!(cfg.effective_speed(false), 150_000);
}

#[test]
fn effective_speed_with_sprint_is_scaled() {
    let cfg = Config::new();
    assert_eq!(cfg.effective_speed(true), 225_000);
}

#[test]
fn set_speed_accepts_in_range_values() {
    let mut cfg = Config::new();
    assert_eq!(cfg.set_speed(SPEED_MIN), Ok(()));
    assert_eq!(cfg.speed(), SPEED_MIN);
    assert_eq!(cfg.set_speed(SPEED_MAX), Ok(()));
    assert_eq!(cfg.speed(), SPEED_MAX);
    assert_eq!(cfg.sprint_multiplier(), SPRINT_MULTIPLIER);
}

#[test]
fn set_speed_rejects_too_small_and_leaves_store_unchanged() {
    let mut cfg = Config::new();
    assert_eq!(cfg.set_speed(SPEED_MIN - 1), Err(ConfigError::SpeedOutOfRange));
    assert_eq!(cfg.speed(), PLAYER_SPEED);
}

#[test]
fn set_speed_rejects_too_large_and_leaves_store_unchanged() {
    let mut cfg = Config::new();
    assert_eq!(cfg.set_speed(SPEED_MAX + 1), Err(ConfigError::SpeedOutOfRange));
    assert_eq!(cfg.speed(), PLAYER_SPEED);
}

#[test]
fn set_sprint_multiplier_accepts_in_range_values() {
    let mut cfg = Config::new();
    assert_eq!(cfg.set_sprint_multiplier(MULTIPLIER_MIN), Ok(()));
    assert_eq!(cfg.sprint_multiplier(), MULTIPLIER_MIN);
    assert_eq!(cfg.set_sprint_multiplier(MULTIPLIER_MAX), Ok(()));
    assert_eq!(cfg.sprint_multiplier(), MULTIPLIER_MAX);
    assert_eq!(cfg.speed(), PLAYER_SPEED);
}

#[test]
fn set_sprint_multiplier_rejects_out_of_range_values() {
    let mut cfg = Config::new();
    assert_eq!(
        cfg.set_sprint_multiplier(MULTIPLIER_MIN - 1),
        Err(ConfigError::MultiplierOutOfRange)
    );
    assert_eq!(
        cfg.set_sprint_multiplier(MULTIPLIER_MAX + 1),
        Err(ConfigError::MultiplierOutOfRange)
    );
    assert_eq!(cfg.sprint_multiplier(), SPRINT_MULTIPLIER);
}

#[test]
fn repeated_identical_tuning_writes_do_not_drift() {
    let mut once = Config::new();
    assert_eq!(once.set_speed(300_000), Ok(()));

    let mut many = Config::new();
    for _ in 0..10 {
        assert_eq!(many.set_speed(300_000), Ok(()));
        assert_eq!(many.set_sprint_multiplier(SPRINT_MULTIPLIER), Ok(()));
    }
    assert_eq!(once.speed(), many.speed());
    assert_eq!(once.sprint_multiplier(), many.sprint_multiplier());

    // The frame displacement is unchanged by the repeated identical writes.
    let d_once = axis_displacement(&once, true, 16);
    let d_many = axis_displacement(&many, true, 16);
    assert_eq!(d_once, d_many);
}
