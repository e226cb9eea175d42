use crazyflie::led::{Led, LedN, Leds, OutputPin};

#[test]
fn port_c_led_is_lit_by_low_pin() {
    let mut led = Led::LedC(OutputPin { set_high: true });
    assert!(led.is_off());
    led.on();
    assert!(led.is_on());
    assert_eq!(led.pin(), OutputPin { set_high: false });
    led.off();
    assert!(led.is_off());
    assert_eq!(led, Led::LedC(OutputPin { set_high: true }));
}

#[test]
fn port_d_led_is_lit_by_high_pin() {
    let mut led = Led::LedD(OutputPin { set_high: false });
    assert!(!led.is_on());
    led.on();
    assert_eq!(led, Led::LedD(OutputPin { set_high: true }));
    assert!(led.is_on());
    led.off();
    assert!(led.is_off());
}

#[test]
fn new_leds_follow_board_wiring() {
    let leds = Leds::new();
    assert!(matches!(leds.get(LedN::BlueLeft), Led::LedD(_)));
    for n in [LedN::RedLeft, LedN::GreenLeft, LedN::RedRight, LedN::GreenRight] {
        assert!(matches!(leds.get(n), Led::LedC(_)));
        assert!(leds.get(n).is_on());
    }
    assert!(leds.get(LedN::BlueLeft).is_off());
}

#[test]
fn clear_and_set_all() {
    let all = [LedN::RedLeft, LedN::GreenLeft, LedN::BlueLeft, LedN::RedRight, LedN::GreenRight];
    let mut leds = Leds::new();
    leds.clear_all();
    assert!(all.iter().all(|n| leds.get(*n).is_off()));
    leds.set_all();
    assert!(all.iter().all(|n| leds.get(*n).is_on()));
    assert_eq!(*leds.get(LedN::BlueLeft), Led::LedD(OutputPin { set_high: true }));
}

#[test]
fn one_led_at_a_time() {
    let mut leds = Leds::new();
    leds.clear_all();
    leds.on(LedN::GreenRight);
    assert!(leds.get(LedN::GreenRight).is_on());
    assert!(leds.get(LedN::RedRight).is_off());
    leds.off(LedN::GreenRight);
    assert!(leds.get(LedN::GreenRight).is_off());
}
