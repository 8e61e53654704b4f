//! The trigger servo behind its angle abstraction.

use vstd::prelude::*;

verus! {

/// Lowest angle, in degrees, that the servo can be set to.
pub const MIN_ANGLE: i32 = -90;

/// Highest angle, in degrees, that the servo can be set to.
pub const MAX_ANGLE: i32 = 90;

/// Shortest pulse, in microseconds, of a standard hobby servo.
pub const STANDARD_MIN_US: u32 = 500;

/// Longest pulse, in microseconds, of a standard hobby servo.
pub const STANDARD_MAX_US: u32 = 2000;

/// The angle nearest to `angle` within `[-90, 90]`.
pub open spec fn clamp_angle(angle: int) -> int {
    if angle < -90 {
        -90
    } else if angle > 90 {
        90
    } else {
        angle
    }
}

/// Pulse width in microseconds for `angle`: the line through
/// `(-90, min_us)` and `(90, max_us)`, rounded down.
pub open spec fn pulse_width_us(min_us: int, max_us: int, angle: int) -> int {
    min_us + ((angle + 90) * (max_us - min_us)) / 180
}

/// A servo with a fixed pulse-width range and the angle it was last set to.
///
/// The type never touches the output pin: [`Servo::set_angle`] returns the
/// pulse width that the caller has to put on it.
pub struct Servo {
    min_us: u32,
    max_us: u32,
    current_angle: i32,
}

impl Servo {
    /// Pulse width at -90 degrees.
    pub closed spec fn min_us(self) -> int {
        self.min_us as int
    }

    /// Pulse width at 90 degrees.
    pub closed spec fn max_us(self) -> int {
        self.max_us as int
    }

    /// The angle last set, after clamping.
    pub closed spec fn angle(self) -> int {
        self.current_angle as int
    }

    /// Holds of every servo: the pulse widths are a range, and the angle is
    /// within the mechanical one.
    #[verifier::type_invariant]
    pub open spec fn wf(self) -> bool {
        &&& 0 <= self.min_us() <= self.max_us() <= u32::MAX
        &&& -90 <= self.angle() <= 90
    }

    /// A servo for the pulse-width range `[min_us, max_us]`, at angle 0.
    pub fn new(min_us: u32, max_us: u32) -> (servo: Servo)
        requires
            min_us <= max_us,
        ensures
            servo.min_us() == min_us,
            servo.max_us() == max_us,
            servo.angle() == 0,
    {
        Servo { min_us, max_us, current_angle: 0 }
    }

    /// A servo with the usual 500 to 2000 microsecond range, at angle 0.
    pub fn standard() -> (servo: Servo)
        ensures
            servo.min_us() == 500,
            servo.max_us() == 2000,
            servo.angle() == 0,
    {
        Servo::new(STANDARD_MIN_US, STANDARD_MAX_US)
    }

    /// Clamps `angle` to `[-90, 90]`, records it, and returns the pulse width
    /// in microseconds that puts the servo there.
    pub fn set_angle(&mut self, angle: i32) -> (duty_us: u32)
        ensures
            final(self).angle() == clamp_angle(angle as int),
            final(self).min_us() == old(self).min_us(),
            final(self).max_us() == old(self).max_us(),
            duty_us == pulse_width_us(
                old(self).min_us(),
                old(self).max_us(),
                clamp_angle(angle as int),
            ),
            old(self).min_us() <= duty_us <= old(self).max_us(),
    {
        proof {
            use_type_invariant(&*self);
        }
        let clamped: i32 = if angle < MIN_ANGLE {
            MIN_ANGLE
        } else if angle > MAX_ANGLE {
            MAX_ANGLE
        } else {
            angle
        };
        self.current_angle = clamped;
        self.map_angle_to_us(clamped)
    }

    /// The angle last set, after clamping.
    pub fn get_angle(&self) -> (angle: i32)
        ensures
            angle == self.angle(),
            -90 <= angle <= 90,
    {
        proof {
            use_type_invariant(self);
        }
        self.current_angle
    }

    /// The pulse width for an angle within the mechanical range.
    fn map_angle_to_us(&self, angle: i32) -> (duty_us: u32)
        requires
            -90 <= angle <= 90,
        ensures
            duty_us == pulse_width_us(self.min_us(), self.max_us(), angle as int),
            self.min_us() <= duty_us <= self.max_us(),
    {
        proof {
            use_type_invariant(self);
        }
        let span: u64 = (self.max_us - self.min_us) as u64;
        let steps: u64 = (angle + 90) as u64;
        assert(0 <= steps * span <= 180 * span) by (nonlinear_arith)
            requires
                0 <= steps <= 180,
                0 <= span,
        ;
        let offset: u64 = steps * span / 180;
        self.min_us + (offset as u32)
    }
}

} // verus!
