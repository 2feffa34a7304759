use vstd::prelude::*;

use crate::actuator::{ActuatorError, DriverFault};

verus! {

/// Brightness `v` (0 to 255) as a percentage of full scale, rounded to the
/// nearest integer.
pub open spec fn brightness_pct(v: u8) -> int {
    (v * 100 + 127) / 255
}

/// Duty percentage that realises brightness `v`: the LED is wired active
/// low, so full brightness is duty 0 and darkness is duty 100.
pub open spec fn led_duty(v: u8) -> int {
    100 - brightness_pct(v)
}

/// The last brightness that the PWM channel accepted.  Construct it with
/// `Led::new`; the field is public so that contracts can speak of it.
#[derive(Clone, Copy, Debug, PartialEq, Eq, Structural)]
pub struct Led {
    pub value: u8,
}

impl Led {
    /// The committed brightness.
    pub open spec fn brightness(self) -> u8 {
        self.value
    }

    /// The state after the driver accepted brightness `v`.
    pub open spec fn committed(self, v: u8) -> Led {
        Led { value: v }
    }

    /// A dark LED; its channel is configured at duty 100.
    pub fn new() -> (r: Led)
        ensures
            r.brightness() == 0,
    {
        Led { value: 0 }
    }

    /// Duty percentage to program for brightness `value`.
    pub fn duty_for(value: u8) -> (r: u8)
        ensures
            r as int == led_duty(value),
            r <= 100,
    {
        let scaled: u32 = (value as u32 * 100 + 127) / 255;
        (100 - scaled) as u8
    }

    /// The last brightness that was successfully applied.
    pub fn get_brightness(&self) -> (r: u8)
        ensures
            r == self.brightness(),
    {
        self.value
    }

    /// Hands the duty for `value` to `apply`, which programs the channel,
    /// and records `value` only if the driver accepted it.
    pub fn set_brightness<F: FnOnce(u8) -> Result<(), DriverFault>>(&mut self, value: u8, apply: F) -> (r: Result<(), ActuatorError>)
        requires
            forall|d: u8| d <= 100 ==> call_requires(apply, (d,)),
        ensures
            match r {
                Ok(()) => {
                    &&& *final(self) == old(self).committed(value)
                    &&& call_ensures(apply, (led_duty(value) as u8,), Ok::<(), DriverFault>(()))
                },
                Err(ActuatorError::HardwareFault(e)) => {
                    &&& *final(self) == *old(self)
                    &&& call_ensures(apply, (led_duty(value) as u8,), Err::<(), DriverFault>(e))
                },
            },
    {
        let duty = Led::duty_for(value);
        let outcome = apply(duty);
        match outcome {
            Ok(u) => {
                self.value = value;
                assert(u == ());
                Ok(())
            },
            Err(e) => Err(ActuatorError::HardwareFault(e)),
        }
    }
}

/// The brightness left after the driver accepted each of `values` in turn,
/// starting from `start`.
pub open spec fn after_commits(start: Led, values: Seq<u8>) -> Led
    decreases values.len(),
{
    if values.len() == 0 {
        start
    } else {
        after_commits(start, values.drop_last()).committed(values.last())
    }
}

/// Setting a brightness and reading it back gives that brightness, and the
/// duty sent to the channel is `100 - v` scaled to percent, within 0..=100.
pub proof fn lemma_brightness_round_trip(led: Led, v: u8)
    ensures
        led.committed(v).brightness() == v,
        led_duty(v) == 100 - brightness_pct(v),
        0 <= led_duty(v) <= 100,
        v == 0 ==> led_duty(v) == 100,
        v == 255 ==> led_duty(v) == 0,
{
}

/// Commits that are applied one at a time, in whatever order they won the
/// lock, leave the brightness of the last one: a value that was submitted.
pub proof fn lemma_serialized_commits(start: Led, values: Seq<u8>)
    requires
        values.len() > 0,
    ensures
        after_commits(start, values).brightness() == values.last(),
        exists|i: int| 0 <= i < values.len() && values[i] == after_commits(start, values).brightness(),
{
    assert(values[values.len() - 1] == after_commits(start, values).brightness());
}

} // verus!
