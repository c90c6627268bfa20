//! Tuning constants of the motion controller, validated once when they are set.

use vstd::prelude::*;

verus! {

/// Micro-units in one world unit.
pub const MICROS_PER_UNIT: u64 = 1_000_000;

/// The fall divisor is given in thousandths: 1500 divides by 1.5.
pub const DIVISOR_SCALE: u64 = 1000;

/// Horizontal speed in world units per second, unless the host says otherwise.
pub const DEFAULT_MOVE_SPEED: i32 = 400;

/// Rise speed in world units per second, unless the host says otherwise.
pub const DEFAULT_RISE_SPEED: i32 = 850;

/// Fall divisor in thousandths, unless the host says otherwise.
pub const DEFAULT_FALL_DIVISOR_MILLI: i32 = 1500;

/// Height of a full jump in world units, unless the host says otherwise.
pub const DEFAULT_MAX_JUMP_HEIGHT: i32 = 230;

/// The tuning constants as mathematical integers.
pub struct Tuning {
    /// Horizontal speed, in world units per second.
    pub move_speed: int,
    /// Rise speed, in world units per second.
    pub rise_speed: int,
    /// What the rise speed is divided by to give the fall speed, in thousandths.
    pub fall_divisor_milli: int,
    /// Height at which a jump stops rising, in world units.
    pub max_jump_height: int,
}

impl Tuning {
    /// Speeds are not negative; the divisor and the jump height are positive.
    pub open spec fn valid(self) -> bool {
        &&& self.move_speed >= 0
        &&& self.rise_speed >= 0
        &&& self.fall_divisor_milli > 0
        &&& self.max_jump_height > 0
    }

    /// The jump height in micro-units.
    pub open spec fn max_rise(self) -> int {
        self.max_jump_height * MICROS_PER_UNIT
    }

    /// Micro-units travelled sideways in `delta` microseconds towards `direction`.
    pub open spec fn run_distance(self, delta: int, direction: int) -> int {
        delta * self.move_speed * direction
    }

    /// Micro-units risen in `delta` microseconds, before the jump height caps it.
    pub open spec fn rise_distance(self, delta: int) -> int {
        delta * self.rise_speed
    }

    /// Micro-units fallen in `delta` microseconds, rounded down.
    pub open spec fn fall_distance(self, delta: int) -> int {
        (delta * self.rise_speed * DIVISOR_SCALE) / self.fall_divisor_milli
    }
}

/// Why a set of tuning constants was turned down.
#[derive(Clone, Copy, Debug, PartialEq, Eq, Structural)]
pub enum ConfigError {
    /// The horizontal speed is below zero.
    NegativeMoveSpeed,
    /// The rise speed is below zero.
    NegativeRiseSpeed,
    /// The fall divisor is zero or below.
    NonPositiveFallDivisor,
    /// The jump height is zero or below.
    NonPositiveMaxJumpHeight,
}

impl ConfigError {
    /// The sentence that `describe` returns.
    pub open spec fn text(self) -> Seq<char> {
        match self {
            ConfigError::NegativeMoveSpeed => "move speed must not be negative"@,
            ConfigError::NegativeRiseSpeed => "rise speed must not be negative"@,
            ConfigError::NonPositiveFallDivisor => "fall divisor must be greater than zero"@,
            ConfigError::NonPositiveMaxJumpHeight => "max jump height must be greater than zero"@,
        }
    }

    /// Says in words which constant was wrong.
    pub fn describe(self) -> (r: &'static str)
        ensures
            r@ == self.text(),
    {
        match self {
            ConfigError::NegativeMoveSpeed => "move speed must not be negative",
            ConfigError::NegativeRiseSpeed => "rise speed must not be negative",
            ConfigError::NonPositiveFallDivisor => "fall divisor must be greater than zero",
            ConfigError::NonPositiveMaxJumpHeight => "max jump height must be greater than zero",
        }
    }
}

/// Tuning constants found valid: every value of this type is valid.
#[derive(Clone, Copy, Debug)]
pub struct MotionConfig {
    move_speed: i32,
    rise_speed: i32,
    fall_divisor_milli: i32,
    max_jump_height: i32,
}

/// Four constants as a tuning.
pub open spec fn tuning_of(
    move_speed: i32,
    rise_speed: i32,
    fall_divisor_milli: i32,
    max_jump_height: i32,
) -> Tuning {
    Tuning {
        move_speed: move_speed as int,
        rise_speed: rise_speed as int,
        fall_divisor_milli: fall_divisor_milli as int,
        max_jump_height: max_jump_height as int,
    }
}

impl View for MotionConfig {
    type V = Tuning;

    closed spec fn view(&self) -> Tuning {
        tuning_of(self.move_speed, self.rise_speed, self.fall_divisor_milli, self.max_jump_height)
    }
}

impl MotionConfig {
    /// What holds of every value of this type.
    #[verifier::type_invariant]
    pub open spec fn inv(self) -> bool {
        self@.valid()
    }

    /// Keeps the four constants if they are valid, or says which one is
    /// wrong: the first that is, in the order of the parameters.
    pub fn new(
        move_speed: i32,
        rise_speed: i32,
        fall_divisor_milli: i32,
        max_jump_height: i32,
    ) -> (r: Result<MotionConfig, ConfigError>)
        ensures
            r is Ok <==> tuning_of(
                move_speed,
                rise_speed,
                fall_divisor_milli,
                max_jump_height,
            ).valid(),
            r == Err::<MotionConfig, ConfigError>(ConfigError::NegativeMoveSpeed)
                <==> move_speed < 0,
            r == Err::<MotionConfig, ConfigError>(ConfigError::NegativeRiseSpeed)
                <==> move_speed >= 0 && rise_speed < 0,
            r == Err::<MotionConfig, ConfigError>(ConfigError::NonPositiveFallDivisor)
                <==> move_speed >= 0 && rise_speed >= 0 && fall_divisor_milli <= 0,
            r == Err::<MotionConfig, ConfigError>(ConfigError::NonPositiveMaxJumpHeight)
                <==> move_speed >= 0 && rise_speed >= 0 && fall_divisor_milli > 0
                && max_jump_height <= 0,
            r matches Ok(config) ==> config@ == tuning_of(
                move_speed,
                rise_speed,
                fall_divisor_milli,
                max_jump_height,
            ),
    {
        if move_speed < 0 {
            Err(ConfigError::NegativeMoveSpeed)
        } else if rise_speed < 0 {
            Err(ConfigError::NegativeRiseSpeed)
        } else if fall_divisor_milli <= 0 {
            Err(ConfigError::NonPositiveFallDivisor)
        } else if max_jump_height <= 0 {
            Err(ConfigError::NonPositiveMaxJumpHeight)
        } else {
            Ok(MotionConfig { move_speed, rise_speed, fall_divisor_milli, max_jump_height })
        }
    }

    /// Horizontal speed, in world units per second.
    pub fn move_speed(&self) -> (r: i32)
        ensures
            r == self@.move_speed,
            r >= 0,
    {
        proof {
            use_type_invariant(self);
        }
        self.move_speed
    }

    /// Rise speed, in world units per second.
    pub fn rise_speed(&self) -> (r: i32)
        ensures
            r == self@.rise_speed,
            r >= 0,
    {
        proof {
            use_type_invariant(self);
        }
        self.rise_speed
    }

    /// The fall divisor, in thousandths.
    pub fn fall_divisor_milli(&self) -> (r: i32)
        ensures
            r == self@.fall_divisor_milli,
            r > 0,
    {
        proof {
            use_type_invariant(self);
        }
        self.fall_divisor_milli
    }

    /// Height of a full jump, in world units.
    pub fn max_jump_height(&self) -> (r: i32)
        ensures
            r == self@.max_jump_height,
            r > 0,
    {
        proof {
            use_type_invariant(self);
        }
        self.max_jump_height
    }
}

impl Default for MotionConfig {
    /// Speeds 400 and 850, fall divisor 1.5, jump height 230.
    fn default() -> (r: MotionConfig)
        ensures
            r@ == tuning_of(
                DEFAULT_MOVE_SPEED,
                DEFAULT_RISE_SPEED,
                DEFAULT_FALL_DIVISOR_MILLI,
                DEFAULT_MAX_JUMP_HEIGHT,
            ),
    {
        MotionConfig {
            move_speed: DEFAULT_MOVE_SPEED,
            rise_speed: DEFAULT_RISE_SPEED,
            fall_divisor_milli: DEFAULT_FALL_DIVISOR_MILLI,
            max_jump_height: DEFAULT_MAX_JUMP_HEIGHT,
        }
    }
}

} // verus!
