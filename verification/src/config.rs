use vstd::prelude::*;
use crate::fixed::MILLI;

verus! {

/// Default base speed of the player entity, in milli-units per second
/// (150 units per second).
pub const PLAYER_SPEED: u64 = 150_000;

/// Default sprint multiplier, in milli (a factor of 1.5).
pub const SPRINT_MULTIPLIER: u64 = 1500;

/// Smallest base speed the tuning interface accepts (100 units per second).
pub const SPEED_MIN: u64 = 100_000;

/// Largest base speed the tuning interface accepts (1000 units per second).
pub const SPEED_MAX: u64 = 1_000_000;

/// Smallest sprint multiplier the tuning interface accepts (a factor of 1).
pub const MULTIPLIER_MIN: u64 = 1000;

/// Largest sprint multiplier the tuning interface accepts (a factor of 100).
pub const MULTIPLIER_MAX: u64 = 100_000;

/// Largest effective speed a well-formed configuration can yield:
/// `SPEED_MAX * MULTIPLIER_MAX / MILLI`, in milli-units per second.
pub const EFFECTIVE_SPEED_MAX: u64 = 100_000_000;

/// Rejection of a tuning value that lies outside its documented knob range.
/// An out-of-range tunable is a configuration error: the store is left
/// unchanged rather than ever holding an invalid value.
#[derive(Clone, Copy, Debug, PartialEq, Eq, Structural)]
pub enum ConfigError {
    SpeedOutOfRange,
    MultiplierOutOfRange,
}

/// The tunable parameter store. It always holds runtime fields; a production
/// build freezes them at the compiled-in defaults by never calling the
/// setters, while a development build adjusts them live between frames.
#[derive(Clone, Copy, Debug, PartialEq, Eq, Structural)]
pub struct Config {
    pub speed_milli: u64,
    pub sprint_multiplier_milli: u64,
}

/// The base speed lies inside the tuning knob's documented range.
pub open spec fn speed_ok(v: u64) -> bool {
    SPEED_MIN <= v <= SPEED_MAX
}

/// The sprint multiplier lies inside the tuning knob's documented range.
pub open spec fn multiplier_ok(v: u64) -> bool {
    MULTIPLIER_MIN <= v <= MULTIPLIER_MAX
}

/// The store after one write of `v` through the speed tuning knob: the new
/// speed if `v` is in range, the old store unchanged otherwise.
pub open spec fn with_speed(c: Config, v: u64) -> Config {
    if speed_ok(v) {
        Config { speed_milli: v, sprint_multiplier_milli: c.sprint_multiplier_milli }
    } else {
        c
    }
}

/// The store after one write of `v` through the multiplier tuning knob.
pub open spec fn with_sprint_multiplier(c: Config, v: u64) -> Config {
    if multiplier_ok(v) {
        Config { speed_milli: c.speed_milli, sprint_multiplier_milli: v }
    } else {
        c
    }
}

/// Speed actually applied this frame: the base speed, scaled by the sprint
/// multiplier when the sprint modifier is held.
pub open spec fn effective_speed_spec(c: Config, sprint: bool) -> int {
    if sprint {
        (c.speed_milli * c.sprint_multiplier_milli) / (MILLI as int)
    } else {
        c.speed_milli as int
    }
}

impl Config {
    /// Both tunables lie inside their documented knob ranges.
    pub open spec fn wf(self) -> bool {
        speed_ok(self.speed_milli) && multiplier_ok(self.sprint_multiplier_milli)
    }

    /// A store holding the compiled-in defaults.
    pub fn new() -> (c: Config)
        ensures
            c.wf(),
            c.speed_milli == PLAYER_SPEED,
            c.sprint_multiplier_milli == SPRINT_MULTIPLIER,
    {
        Config { speed_milli: PLAYER_SPEED, sprint_multiplier_milli: SPRINT_MULTIPLIER }
    }

    /// Current base speed, in milli-units per second.
    pub fn speed(&self) -> (r: u64)
        ensures
            r == self.speed_milli,
    {
        self.speed_milli
    }

    /// Current sprint multiplier, in milli.
    pub fn sprint_multiplier(&self) -> (r: u64)
        ensures
            r == self.sprint_multiplier_milli,
    {
        self.sprint_multiplier_milli
    }

    /// Tuning interface: write a new base speed. A value outside the knob's
    /// range is rejected and the store is left unchanged.
    pub fn set_speed(&mut self, v: u64) -> (r: Result<(), ConfigError>)
        ensures
            *final(self) == with_speed(*old(self), v),
            r is Ok <==> speed_ok(v),
            r is Err ==> r == Result::<(), ConfigError>::Err(ConfigError::SpeedOutOfRange),
    {
        if SPEED_MIN <= v && v <= SPEED_MAX {
            self.speed_milli = v;
            Ok(())
        } else {
            Err(ConfigError::SpeedOutOfRange)
        }
    }

    /// Tuning interface: write a new sprint multiplier. A value outside the
    /// knob's range is rejected and the store is left unchanged.
    pub fn set_sprint_multiplier(&mut self, v: u64) -> (r: Result<(), ConfigError>)
        ensures
            *final(self) == with_sprint_multiplier(*old(self), v),
            r is Ok <==> multiplier_ok(v),
            r is Err ==> r == Result::<(), ConfigError>::Err(ConfigError::MultiplierOutOfRange),
    {
        if MULTIPLIER_MIN <= v && v <= MULTIPLIER_MAX {
            self.sprint_multiplier_milli = v;
            Ok(())
        } else {
            Err(ConfigError::MultiplierOutOfRange)
        }
    }

    /// Speed applied this frame, in milli-units per second: the base speed,
    /// scaled by the sprint multiplier when `sprint` is set.
    pub fn effective_speed(&self, sprint: bool) -> (r: u64)
        requires
            self.wf(),
        ensures
            r == effective_speed_spec(*self, sprint),
            r <= EFFECTIVE_SPEED_MAX,
    {
        if sprint {
            proof {
                crate::fixed::lemma_mul_le(
                    self.speed_milli as int,
                    self.sprint_multiplier_milli as int,
                    SPEED_MAX as int,
                    MULTIPLIER_MAX as int,
                );
            }
            (self.speed_milli * self.sprint_multiplier_milli) / MILLI
        } else {
            self.speed_milli
        }
    }
}

} // verus!
