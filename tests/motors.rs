use crazyflie::motor::{Motor, Motors, PwmChannel};

#[test]
fn new_motors_are_stopped_and_disabled() {
    let ms = Motors::new(1000, 2000);
    for m in [ms.m1, ms.m2, ms.m3] {
        assert_eq!(m.get_duty(), 0);
        assert_eq!(m.get_max_duty(), 1000);
        assert!(!m.channel().enabled);
    }
    assert_eq!(ms.m4.get_max_duty(), 2000);
    assert!(matches!(ms.m4, Motor::M4(_)));
}

#[test]
fn set_duty_then_stop() {
    let mut ms = Motors::new(1000, 1000);
    ms.enable();
    ms.m1.set_duty(150);
    ms.m4.set_duty(150);
    assert_eq!(ms.m1.get_duty(), 150);
    assert_eq!(ms.m2.get_duty(), 0);
    ms.stop();
    assert_eq!(ms.m1.get_duty(), 0);
    assert_eq!(ms.m4.get_duty(), 0);
    assert!(ms.m3.channel().enabled);
    ms.disable();
    assert!(!ms.m1.channel().enabled);
}

#[test]
fn enable_keeps_duty() {
    let mut m = Motor::M2(PwmChannel { enabled: false, duty: 7, max_duty: 99 });
    m.enable();
    assert_eq!(m, Motor::M2(PwmChannel { enabled: true, duty: 7, max_duty: 99 }));
    m.disable();
    assert_eq!(m, Motor::M2(PwmChannel { enabled: false, duty: 7, max_duty: 99 }));
}
