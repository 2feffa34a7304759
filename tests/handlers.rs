use actuator_node::actuator::DriverFault;
use actuator_node::api::{
    get_brightness, get_speed, post_brightness, post_parsed_brightness, post_speed, BrightnessReply,
    STATUS_BAD_REQUEST, STATUS_INTERNAL_ERROR, STATUS_OK,
};
use actuator_node::led::Led;
use actuator_node::motor::{Motor, Speed};

#[test]
fn post_then_get_brightness() {
    let mut led = Led::new();
    let r = post_brightness(&mut led, b"200", |_| Ok(()));
    assert_eq!(r, BrightnessReply { status: STATUS_OK, value: 200 });
    assert_eq!(get_brightness(&led), BrightnessReply { status: STATUS_OK, value: 200 });
}

#[test]
fn post_brightness_sends_inverted_duty() {
    let mut led = Led::new();
    let mut sent = None;
    post_brightness(&mut led, b" 255 ", |d| {
        sent = Some(d);
        Ok(())
    });
    assert_eq!(sent, Some(0));
    assert_eq!(led.get_brightness(), 255);
}

#[test]
fn post_non_numeric_body_is_client_error() {
    let mut led = Led::new();
    post_brightness(&mut led, b"42", |_| Ok(()));
    for body in [&b"\"abc\""[..], b"{}", b"", b"-3", b"256", b"true", b"[7]"] {
        let mut called = false;
        let r = post_brightness(&mut led, body, |_| {
            called = true;
            Ok(())
        });
        assert_eq!(r, BrightnessReply { status: STATUS_BAD_REQUEST, value: 42 });
        assert!(!called);
        assert_eq!(led.get_brightness(), 42);
    }
}

#[test]
fn post_parsed_brightness_outcomes() {
    let mut led = Led::new();
    assert_eq!(
        post_parsed_brightness(&mut led, Some(7), |_| Ok(())),
        BrightnessReply { status: STATUS_OK, value: 7 }
    );
    assert_eq!(
        post_parsed_brightness(&mut led, None, |_| Ok(())),
        BrightnessReply { status: STATUS_BAD_REQUEST, value: 7 }
    );
    assert_eq!(
        post_parsed_brightness(&mut led, Some(9), |_| Err(DriverFault::Timer)),
        BrightnessReply { status: STATUS_INTERNAL_ERROR, value: 7 }
    );
    assert_eq!(led.get_brightness(), 7);
}

#[test]
fn speed_endpoint() {
    let mut motor = Motor::new();
    let s = Speed::from_milli(500).unwrap();
    let r = post_speed(&mut motor, Some(s), |_| Ok(()));
    assert_eq!((r.status, r.value), (STATUS_OK, s));
    let r = post_speed(&mut motor, None, |_| Ok(()));
    assert_eq!((r.status, r.value), (STATUS_BAD_REQUEST, s));
    let r = post_speed(&mut motor, Some(Speed::from_milli(-10).unwrap()), |_| Err(DriverFault::Duty));
    assert_eq!((r.status, r.value), (STATUS_INTERNAL_ERROR, s));
    let r = get_speed(&motor);
    assert_eq!((r.status, r.value), (STATUS_OK, s));
}

#[test]
fn brightness_body_grammar() {
    let accepted: [(&[u8], u8); 5] = [(b"0", 0), (b" 0 ", 0), (b"255", 255), (b"\t17\r\n", 17), (b"9", 9)];
    for (body, v) in accepted {
        let mut led = Led::new();
        let r = post_brightness(&mut led, body, |_| Ok(()));
        assert_eq!(r, BrightnessReply { status: STATUS_OK, value: v });
        assert_eq!(led.get_brightness(), v);
    }
    for body in [&b"05"[..], b"1.0", b"1e2", b"300", b"12 3", b"x", b"   "] {
        let mut led = Led::new();
        let r = post_brightness(&mut led, body, |_| Ok(()));
        assert_eq!(r, BrightnessReply { status: STATUS_BAD_REQUEST, value: 0 });
        assert_eq!(led.get_brightness(), 0);
    }
}

#[test]
fn brightness_fault_through_endpoint() {
    let mut led = Led::new();
    post_brightness(&mut led, b"12", |_| Ok(()));
    let r = post_brightness(&mut led, b"13", |_| Err(DriverFault::Duty));
    assert_eq!(r, BrightnessReply { status: STATUS_INTERNAL_ERROR, value: 12 });
    assert_eq!(get_brightness(&led).value, 12);
}
