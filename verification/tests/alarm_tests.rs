use flash_syscalls::mock_alarm::MockAlarm;

#[test]
fn fresh_alarm_is_idle_at_time_zero() {
    let a = MockAlarm::new();
    assert_eq!(a.now(), 0);
    assert!(!a.is_enabled());
    assert_eq!(a.get_alarm(), 0);
}

#[test]
fn set_time_moves_the_clock() {
    let mut a = MockAlarm::new();
    a.set_time(12345);
    assert_eq!(a.now(), 12345);
    a.set_time(7);
    assert_eq!(a.now(), 7);
}

#[test]
fn set_alarm_arms_the_setpoint() {
    let mut a = MockAlarm::new();
    a.set_alarm(500);
    assert!(a.is_enabled());
    assert_eq!(a.get_alarm(), 500);
}

#[test]
fn enable_arms_at_zero_only_when_idle() {
    let mut a = MockAlarm::new();
    a.enable();
    assert!(a.is_enabled());
    assert_eq!(a.get_alarm(), 0);
    a.set_alarm(99);
    a.enable();
    assert_eq!(a.get_alarm(), 99);
}

#[test]
fn disable_disarms() {
    let mut a = MockAlarm::new();
    a.set_alarm(99);
    a.disable();
    assert!(!a.is_enabled());
    assert_eq!(a.get_alarm(), 0);
}

#[test]
fn max_tics_is_the_full_range() {
    let a = MockAlarm::new();
    assert_eq!(a.max_tics(), u32::MAX);
}
