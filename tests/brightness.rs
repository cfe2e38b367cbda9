use ddc_brightness_ctl::{Action, BrightnessChange};

#[test]
fn relative_zero_keeps_value() {
    for c in 0..=100u16 {
        assert_eq!(BrightnessChange::Relative(0).apply(c), c);
    }
}

#[test]
fn relative_stays_in_range() {
    for c in 0..=100u16 {
        for o in [i16::MIN, -1000, -101, -100, -50, -1, 1, 50, 100, 101, 1000, i16::MAX] {
            let r = BrightnessChange::Relative(o).apply(c);
            assert!(r <= 100);
        }
    }
}

#[test]
fn relative_exact_values() {
    assert_eq!(BrightnessChange::Relative(10).apply(50), 60);
    assert_eq!(BrightnessChange::Relative(-10).apply(50), 40);
    assert_eq!(BrightnessChange::Relative(-50).apply(50), 0);
    assert_eq!(BrightnessChange::Relative(50).apply(50), 100);
}

#[test]
fn relative_saturates_low() {
    assert_eq!(BrightnessChange::Relative(-11).apply(10), 0);
    assert_eq!(BrightnessChange::Relative(i16::MIN).apply(0), 0);
    assert_eq!(BrightnessChange::Relative(i16::MIN).apply(100), 0);
}

#[test]
fn relative_saturates_high() {
    assert_eq!(BrightnessChange::Relative(10).apply(95), 100);
    assert_eq!(BrightnessChange::Relative(i16::MAX).apply(100), 100);
    assert_eq!(BrightnessChange::Relative(i16::MAX).apply(u16::MAX), 100);
}

#[test]
fn out_of_spec_current_is_clamped() {
    assert_eq!(BrightnessChange::Relative(0).apply(250), 100);
    assert_eq!(BrightnessChange::Relative(-100).apply(250), 100);
    assert_eq!(BrightnessChange::Relative(-200).apply(250), 50);
}

#[test]
fn absolute_ignores_current() {
    for v in 0..=100u16 {
        for c in [0u16, 1, 40, 99, 100, 500, u16::MAX] {
            assert_eq!(BrightnessChange::Absolute(v).apply(c), v);
        }
    }
}

#[test]
fn absolute_above_range_is_clamped() {
    assert_eq!(BrightnessChange::Absolute(150).apply(20), 100);
    assert_eq!(BrightnessChange::Absolute(u16::MAX).apply(0), 100);
}

#[test]
fn absolute_twice_is_idempotent() {
    for v in [0u16, 37, 100] {
        for c in [0u16, 50, 100, 300] {
            let once = BrightnessChange::Absolute(v).apply(c);
            assert_eq!(BrightnessChange::Absolute(v).apply(once), v);
        }
    }
}

#[test]
fn only_relative_zero_is_noop() {
    assert!(Action::Change(BrightnessChange::Relative(0)).is_noop());
    assert!(!Action::Change(BrightnessChange::Relative(1)).is_noop());
    assert!(!Action::Change(BrightnessChange::Relative(-1)).is_noop());
    assert!(!Action::Change(BrightnessChange::Absolute(0)).is_noop());
    assert!(!Action::Change(BrightnessChange::Absolute(40)).is_noop());
    assert!(!Action::Get.is_noop());
}
