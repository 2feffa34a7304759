use vstd::prelude::*;

use crate::actuator::{ActuatorError, DriverFault};
use crate::led::{led_duty, Led};
use crate::motor::{motor_duty, Motor, MotorDuty, Speed};

verus! {

/// Status of a handled request: the value was read or committed.
pub const STATUS_OK: u16 = 200;

/// Status of a request whose body is not a value of the endpoint's type.
pub const STATUS_BAD_REQUEST: u16 = 400;

/// Status of a request whose value the actuator's driver rejected.
pub const STATUS_INTERNAL_ERROR: u16 = 500;

/// Reply of the brightness endpoint: a status and the brightness to send
/// back as the JSON body.
#[derive(Clone, Copy, Debug, PartialEq, Eq, Structural)]
pub struct BrightnessReply {
    pub status: u16,
    pub value: u8,
}

/// Reply of the speed endpoint: a status and the speed to send back.
#[derive(Clone, Copy, Debug, PartialEq, Eq)]
pub struct SpeedReply {
    pub status: u16,
    pub value: Speed,
}

/// A byte that JSON skips as whitespace.
pub open spec fn is_json_space(b: u8) -> bool {
    b == 0x20u8 || b == 0x09u8 || b == 0x0au8 || b == 0x0du8
}

/// The decimal digits of `v`, without leading zeros.
pub open spec fn decimal(v: nat) -> Seq<u8>
    decreases v,
{
    if v < 10 {
        seq![(0x30 + v) as u8]
    } else {
        decimal(v / 10).push((0x30 + v % 10) as u8)
    }
}

/// `body` is the JSON text of the integer `v`: its decimal digits with only
/// whitespace before and after.
pub open spec fn is_json_u8(body: Seq<u8>, v: u8) -> bool {
    exists|i: int, j: int|
        0 <= i <= j <= body.len() && body.subrange(i, j) == decimal(v as nat)
            && (forall|k: int| 0 <= k < i ==> is_json_space(#[trigger] body[k]))
            && (forall|k: int| j <= k < body.len() ==> is_json_space(#[trigger] body[k]))
}

/// Relies on serde_json_core::from_slice for `u8`: after whitespace it reads
/// `0` or a digit run without a leading zero, refuses a value over 255,
/// and then accepts only whitespace up to the end of the body.
#[verifier::external_body]
fn parse_json_u8(body: &[u8]) -> (r: Option<u8>)
    ensures
        forall|v: u8| r == Some(v) <==> is_json_u8(body@, v),
{
    serde_json_core::from_slice::<u8>(body).ok().map(|(v, _)| v)
}

/// `GET` on the brightness endpoint: the last committed brightness.
pub fn get_brightness(led: &Led) -> (r: BrightnessReply)
    ensures
        r == (BrightnessReply { status: STATUS_OK, value: led.brightness() }),
{
    BrightnessReply { status: STATUS_OK, value: led.get_brightness() }
}

/// `POST` on the brightness endpoint, once the body has been read as
/// `parsed`.  A missing value is a client error that leaves the LED alone; a
/// value is handed to the driver through `apply`, and the reply carries what
/// is committed afterwards.
pub fn post_parsed_brightness<F: FnOnce(u8) -> Result<(), DriverFault>>(led: &mut Led, parsed: Option<u8>, apply: F) -> (r: BrightnessReply)
    requires
        forall|d: u8| d <= 100 ==> call_requires(apply, (d,)),
    ensures
        match parsed {
            None => {
                &&& *final(led) == *old(led)
                &&& r == (BrightnessReply { status: STATUS_BAD_REQUEST, value: old(led).brightness() })
            },
            Some(v) => {
                ||| {
                    &&& *final(led) == old(led).committed(v)
                    &&& r == (BrightnessReply { status: STATUS_OK, value: v })
                    &&& call_ensures(apply, (led_duty(v) as u8,), Ok::<(), DriverFault>(()))
                }
                ||| {
                    &&& *final(led) == *old(led)
                    &&& r == (BrightnessReply { status: STATUS_INTERNAL_ERROR, value: old(led).brightness() })
                    &&& exists|e: DriverFault| call_ensures(apply, (led_duty(v) as u8,), Err::<(), DriverFault>(e))
                }
            },
        },
{
    match parsed {
        None => BrightnessReply { status: STATUS_BAD_REQUEST, value: led.get_brightness() },
        Some(v) => match led.set_brightness(v, apply) {
            Ok(()) => BrightnessReply { status: STATUS_OK, value: v },
            Err(ActuatorError::HardwareFault(_)) => BrightnessReply {
                status: STATUS_INTERNAL_ERROR,
                value: led.get_brightness(),
            },
        },
    }
}

/// `POST` on the brightness endpoint with the raw JSON body.  A body that is
/// not the JSON text of a brightness gets a client error and leaves the LED
/// as it was.
pub fn post_brightness<F: FnOnce(u8) -> Result<(), DriverFault>>(led: &mut Led, body: &[u8], apply: F) -> (r: BrightnessReply)
    requires
        forall|d: u8| d <= 100 ==> call_requires(apply, (d,)),
    ensures
        (forall|v: u8| !is_json_u8(body@, v)) ==> {
            &&& *final(led) == *old(led)
            &&& r == (BrightnessReply { status: STATUS_BAD_REQUEST, value: old(led).brightness() })
        },
        forall|v: u8| is_json_u8(body@, v) ==> {
            ||| {
                &&& *final(led) == old(led).committed(v)
                &&& r == (BrightnessReply { status: STATUS_OK, value: v })
                &&& call_ensures(apply, (led_duty(v) as u8,), Ok::<(), DriverFault>(()))
            }
            ||| {
                &&& *final(led) == *old(led)
                &&& r == (BrightnessReply { status: STATUS_INTERNAL_ERROR, value: old(led).brightness() })
                &&& exists|e: DriverFault| call_ensures(apply, (led_duty(v) as u8,), Err::<(), DriverFault>(e))
            }
        },
{
    let parsed = parse_json_u8(body);
    proof {
        if let Some(v) = parsed {
            assert(is_json_u8(body@, v));
        } else {
            assert forall|v: u8| !is_json_u8(body@, v) by {
                if is_json_u8(body@, v) {
                    assert(parsed == Some(v));
                }
            }
        }
    }
    post_parsed_brightness(led, parsed, apply)
}

/// `GET` on the speed endpoint: the last committed speed.
pub fn get_speed(motor: &Motor) -> (r: SpeedReply)
    ensures
        r == (SpeedReply { status: STATUS_OK, value: motor.speed }),
{
    SpeedReply { status: STATUS_OK, value: motor.get_speed() }
}

/// `POST` on the speed endpoint, once the body has been read as `parsed`
/// (`None` where it is not a number in `[-1, 1]`).  The reply carries the
/// speed that is committed afterwards.
pub fn post_speed<F: FnOnce(MotorDuty) -> Result<(), DriverFault>>(motor: &mut Motor, parsed: Option<Speed>, apply: F) -> (r: SpeedReply)
    requires
        forall|d: MotorDuty| call_requires(apply, (d,)),
    ensures
        match parsed {
            None => {
                &&& *final(motor) == *old(motor)
                &&& r == (SpeedReply { status: STATUS_BAD_REQUEST, value: old(motor).speed })
            },
            Some(s) => {
                ||| {
                    &&& *final(motor) == old(motor).committed(s)
                    &&& r == (SpeedReply { status: STATUS_OK, value: s })
                    &&& call_ensures(apply, (motor_duty(s@),), Ok::<(), DriverFault>(()))
                }
                ||| {
                    &&& *final(motor) == *old(motor)
                    &&& r == (SpeedReply { status: STATUS_INTERNAL_ERROR, value: old(motor).speed })
                    &&& exists|e: DriverFault| call_ensures(apply, (motor_duty(s@),), Err::<(), DriverFault>(e))
                }
            },
        },
{
    match parsed {
        None => SpeedReply { status: STATUS_BAD_REQUEST, value: motor.get_speed() },
        Some(s) => match motor.set_speed(s, apply) {
            Ok(()) => SpeedReply { status: STATUS_OK, value: s },
            Err(ActuatorError::HardwareFault(_)) => SpeedReply {
                status: STATUS_INTERNAL_ERROR,
                value: motor.get_speed(),
            },
        },
    }
}

} // verus!
