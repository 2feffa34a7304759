use actuator_node::actuator::{ActuatorError, DriverFault};
use actuator_node::led::Led;
use actuator_node::motor::{Motor, MotorDuty, Speed};

#[test]
fn led_starts_dark() {
    let led = Led::new();
    assert_eq!(led.get_brightness(), 0);
    assert_eq!(Led::duty_for(0), 100);
}

#[test]
fn led_duty_inverts_scaled_brightness() {
    assert_eq!(Led::duty_for(255), 0);
    assert_eq!(Led::duty_for(0), 100);
    // 128 * 100 / 255 = 50.19, rounds to 50
    assert_eq!(Led::duty_for(128), 50);
    // 200 * 100 / 255 = 78.43, rounds to 78
    assert_eq!(Led::duty_for(200), 22);
    // 1 * 100 / 255 = 0.39, rounds to 0
    assert_eq!(Led::duty_for(1), 100);
    // 2 * 100 / 255 = 0.78, rounds to 1
    assert_eq!(Led::duty_for(2), 99);
}

#[test]
fn led_round_trip_every_value() {
    let mut led = Led::new();
    for v in 0..=255u8 {
        let mut seen: Option<u8> = None;
        let r = led.set_brightness(v, |d| {
            seen = Some(d);
            Ok(())
        });
        assert_eq!(r, Ok(()));
        assert_eq!(led.get_brightness(), v);
        assert_eq!(seen, Some(Led::duty_for(v)));
        assert!(seen.unwrap() <= 100);
    }
}

#[test]
fn led_fault_keeps_last_good_value() {
    let mut led = Led::new();
    assert_eq!(led.set_brightness(40, |_| Ok(())), Ok(()));
    let r = led.set_brightness(90, |_| Err(DriverFault::Duty));
    assert_eq!(r, Err(ActuatorError::HardwareFault(DriverFault::Duty)));
    assert_eq!(led.get_brightness(), 40);
}

#[test]
fn led_serialized_commits_keep_last() {
    let mut led = Led::new();
    let submitted = [17u8, 250, 3, 99];
    for v in submitted {
        assert_eq!(led.set_brightness(v, |_| Ok(())), Ok(()));
    }
    assert_eq!(led.get_brightness(), 99);
    assert!(submitted.contains(&led.get_brightness()));
}

#[test]
fn speed_range_is_checked() {
    assert!(Speed::from_milli(1000).is_some());
    assert!(Speed::from_milli(-1000).is_some());
    assert!(Speed::from_milli(1001).is_none());
    assert!(Speed::from_milli(-1001).is_none());
    assert_eq!(Speed::from_milli(-250).unwrap().milli(), -250);
}

#[test]
fn motor_starts_stopped() {
    let motor = Motor::new();
    assert_eq!(motor.get_speed().milli(), 0);
}

#[test]
fn motor_duty_formula() {
    let duty = |m: i32| Motor::duty_for(Speed::from_milli(m).unwrap());
    assert_eq!(duty(1000), MotorDuty { forward: 100, reverse: 0 });
    assert_eq!(duty(-1000), MotorDuty { forward: 0, reverse: 100 });
    assert_eq!(duty(0), MotorDuty { forward: 0, reverse: 0 });
    // 0.5 * 0.7 + 0.3 = 0.65
    assert_eq!(duty(500), MotorDuty { forward: 65, reverse: 0 });
    // 0.25 * 0.7 + 0.3 = 0.475, rounds to 48
    assert_eq!(duty(-250), MotorDuty { forward: 0, reverse: 48 });
    // the smallest speed still drives at the stall-torque minimum
    assert_eq!(duty(1), MotorDuty { forward: 30, reverse: 0 });
}

#[test]
fn motor_duty_matches_float_formula() {
    for m in -1000..=1000i32 {
        let d = Motor::duty_for(Speed::from_milli(m).unwrap());
        if m == 0 {
            assert_eq!(d, MotorDuty { forward: 0, reverse: 0 });
            continue;
        }
        let s = m as f64 / 1000.0;
        let expected = ((s.abs() * 0.7 + 0.3) * 100.0 + 1e-9).round() as u8;
        if m > 0 {
            assert_eq!(d, MotorDuty { forward: expected, reverse: 0 });
        } else {
            assert_eq!(d, MotorDuty { forward: 0, reverse: expected });
        }
    }
}

#[test]
fn motor_round_trip_and_fault() {
    let mut motor = Motor::new();
    let s = Speed::from_milli(-730).unwrap();
    let mut sent: Option<MotorDuty> = None;
    let r = motor.set_speed(s, |d| {
        sent = Some(d);
        Ok(())
    });
    assert_eq!(r, Ok(()));
    assert_eq!(motor.get_speed(), s);
    assert_eq!(sent, Some(MotorDuty { forward: 0, reverse: 81 }));

    let r = motor.set_speed(Speed::from_milli(200).unwrap(), |_| Err(DriverFault::Channel));
    assert_eq!(r, Err(ActuatorError::HardwareFault(DriverFault::Channel)));
    assert_eq!(motor.get_speed(), s);
}
