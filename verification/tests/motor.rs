use arm_core::motor::{FrictionRegime, IntegrationMethod, StickSlip};

#[test]
fn integration_defaults_to_euler() {
    assert!(IntegrationMethod::default() == IntegrationMethod::Euler);
    assert!(IntegrationMethod::from_use_rk4(true) == IntegrationMethod::RK4);
    assert!(IntegrationMethod::from_use_rk4(false) == IntegrationMethod::Euler);
}

#[test]
fn stuck_motor_stays_held_within_static_friction() {
    let mut s = StickSlip::new();
    assert!(!s.is_stuck());
    assert_eq!(s.resolve(true, true), FrictionRegime::Held);
    assert!(s.is_stuck());
    // even a velocity reading above the threshold does not release it
    assert_eq!(s.resolve(false, true), FrictionRegime::Held);
    assert!(s.is_stuck());
}

#[test]
fn break_away_releases() {
    let mut s = StickSlip::new();
    s.latch();
    assert_eq!(s.resolve(true, false), FrictionRegime::BreakAway);
    assert!(!s.is_stuck());
    assert_eq!(s.resolve(false, false), FrictionRegime::Sliding);
    assert_eq!(s.resolve(false, true), FrictionRegime::Sliding);
    assert!(!s.is_stuck());
}

#[test]
fn latch_and_reset() {
    let mut s = StickSlip::new();
    s.latch();
    assert!(s.is_stuck());
    s.reset();
    assert!(!s.is_stuck());
}
