use vstd::prelude::*;

use crate::actuator::{ActuatorError, DriverFault};

verus! {

/// Speed steps per unit of speed: a speed is held in thousandths.
pub const SPEED_SCALE: i16 = 1000;

/// `|m|` for an integer.
pub open spec fn abs(m: int) -> int {
    if m < 0 {
        -m
    } else {
        m
    }
}

/// Duty percentage of the driven channel for speed `m` thousandths:
/// `round((|s| * (1 - 0.3) + 0.3) * 100)` with `s = m / 1000`, halves rounded
/// up.
pub open spec fn active_duty(m: int) -> int {
    (abs(m) * 70 + 30000 + 500) / 1000
}

/// Duty percentages of the two channels of the motor bridge.
#[derive(Clone, Copy, Debug, PartialEq, Eq, Structural)]
pub struct MotorDuty {
    /// Channel driven for a positive speed.
    pub forward: u8,
    /// Channel driven for a negative speed.
    pub reverse: u8,
}

/// The duty pair for speed `m` thousandths: the sign picks the driven
/// channel, the other one is held at 0, and speed 0 stops both.
pub open spec fn motor_duty(m: int) -> MotorDuty {
    if m > 0 {
        MotorDuty { forward: active_duty(m) as u8, reverse: 0 }
    } else if m < 0 {
        MotorDuty { forward: 0, reverse: active_duty(m) as u8 }
    } else {
        MotorDuty { forward: 0, reverse: 0 }
    }
}

/// A signed motor speed in `[-1, 1]`, held in thousandths.
#[derive(Clone, Copy, Debug, PartialEq, Eq)]
pub struct Speed {
    milli: i16,
}

impl View for Speed {
    type V = int;

    closed spec fn view(&self) -> int {
        self.milli as int
    }
}

impl Speed {
    #[verifier::type_invariant]
    spec fn in_range(self) -> bool {
        -SPEED_SCALE <= self.milli <= SPEED_SCALE
    }

    /// The speed `m / 1000`, or `None` where that lies outside `[-1, 1]`.
    pub fn from_milli(m: i32) -> (r: Option<Speed>)
        ensures
            r is Some <==> -1000 <= m <= 1000,
            r matches Some(s) ==> s@ == m as int,
    {
        if -1000 <= m && m <= 1000 {
            let s = Speed { milli: m as i16 };
            proof {
                assert(s@ == m as int);
            }
            Some(s)
        } else {
            None
        }
    }

    /// Speed 0: the motor stands still.
    pub fn stopped() -> (r: Speed)
        ensures
            r@ == 0,
    {
        Speed { milli: 0 }
    }

    /// The speed in thousandths.
    pub fn milli(&self) -> (r: i16)
        ensures
            r as int == self@,
            -1000 <= r <= 1000,
    {
        proof {
            use_type_invariant(self);
        }
        self.milli
    }
}

/// The last speed that both channels of the bridge accepted.  Construct it
/// with `Motor::new`.
#[derive(Clone, Copy, Debug, PartialEq, Eq)]
pub struct Motor {
    pub speed: Speed,
}

impl Motor {
    /// The state after the driver accepted speed `s`.
    pub open spec fn committed(self, s: Speed) -> Motor {
        Motor { speed: s }
    }

    /// A motor at rest; both channels are configured at duty 0.
    pub fn new() -> (r: Motor)
        ensures
            r.speed@ == 0,
    {
        Motor { speed: Speed::stopped() }
    }

    /// The duty pair to program for `speed`.
    pub fn duty_for(speed: Speed) -> (r: MotorDuty)
        ensures
            r == motor_duty(speed@),
    {
        let m = speed.milli();
        if m == 0 {
            MotorDuty { forward: 0, reverse: 0 }
        } else {
            let magnitude: i32 = if m < 0 { -(m as i32) } else { m as i32 };
            let duty = ((magnitude * 70 + 30000 + 500) / 1000) as u8;
            if m > 0 {
                MotorDuty { forward: duty, reverse: 0 }
            } else {
                MotorDuty { forward: 0, reverse: duty }
            }
        }
    }

    /// The last speed that was successfully applied.
    pub fn get_speed(&self) -> (r: Speed)
        ensures
            r == self.speed,
    {
        self.speed
    }

    /// Hands the duty pair for `speed` to `apply`, which programs both
    /// channels, and records `speed` only if the driver accepted it.
    pub fn set_speed<F: FnOnce(MotorDuty) -> Result<(), DriverFault>>(&mut self, speed: Speed, apply: F) -> (r: Result<(), ActuatorError>)
        requires
            forall|d: MotorDuty| call_requires(apply, (d,)),
        ensures
            match r {
                Ok(()) => {
                    &&& *final(self) == old(self).committed(speed)
                    &&& call_ensures(apply, (motor_duty(speed@),), Ok::<(), DriverFault>(()))
                },
                Err(ActuatorError::HardwareFault(e)) => {
                    &&& *final(self) == *old(self)
                    &&& call_ensures(apply, (motor_duty(speed@),), Err::<(), DriverFault>(e))
                },
            },
    {
        let duty = Motor::duty_for(speed);
        let outcome = apply(duty);
        match outcome {
            Ok(u) => {
                self.speed = speed;
                assert(u == ());
                Ok(())
            },
            Err(e) => Err(ActuatorError::HardwareFault(e)),
        }
    }
}

/// Committing a speed and reading it back gives that speed; for a nonzero
/// speed the driven channel gets `round((|s| * 0.7 + 0.3) * 100)` percent,
/// chosen by the sign, and the other channel gets 0.
pub proof fn lemma_speed_round_trip(motor: Motor, s: Speed)
    requires
        -1000 <= s@ <= 1000,
    ensures
        motor.committed(s).speed == s,
        s@ > 0 ==> motor_duty(s@).reverse == 0 && motor_duty(s@).forward as int == active_duty(s@),
        s@ < 0 ==> motor_duty(s@).forward == 0 && motor_duty(s@).reverse as int == active_duty(s@),
        s@ != 0 ==> 2 * abs(1000 * active_duty(s@) - (abs(s@) * 70 + 30000)) <= 1000,
        s@ != 0 ==> 30 <= active_duty(s@) <= 100,
        motor_duty(s@).forward == 0 || motor_duty(s@).reverse == 0,
{
    let x = abs(s@) * 70 + 30000;
    assert(0 <= x <= 100000);
    let d = (x + 500) / 1000;
    assert(1000 * d <= x + 500 < 1000 * d + 1000) by (nonlinear_arith)
        requires d == (x + 500) / 1000, x >= 0;
    assert(30 <= d <= 100) by (nonlinear_arith)
        requires d == (x + 500) / 1000, 30000 <= x <= 100000;
}

} // verus!
