use arm_core::control::{
    profile_landing, profile_phase, winding_up, Direction, ProfileLanding, ProfilePhase,
};

#[test]
fn integrator_freezes_only_when_pushing_into_saturation() {
    assert!(winding_up(true, false, Direction::Positive));
    assert!(winding_up(false, true, Direction::Negative));
    assert!(!winding_up(true, false, Direction::Negative));
    assert!(!winding_up(false, true, Direction::Positive));
    assert!(!winding_up(true, false, Direction::Zero));
    assert!(!winding_up(false, false, Direction::Positive));
    assert!(!winding_up(false, false, Direction::Negative));
}

#[test]
fn profile_phase_rules() {
    assert_eq!(profile_phase(true, true, true), ProfilePhase::Settled);
    assert_eq!(profile_phase(true, false, false), ProfilePhase::Settled);
    assert_eq!(profile_phase(false, true, true), ProfilePhase::Brake);
    assert_eq!(profile_phase(false, true, false), ProfilePhase::Accelerate);
    assert_eq!(profile_phase(false, false, true), ProfilePhase::Accelerate);
}

#[test]
fn profile_landing_rules() {
    assert_eq!(profile_landing(true, true), ProfileLanding::SnapToGoal);
    assert_eq!(profile_landing(true, false), ProfileLanding::SnapToGoal);
    assert_eq!(profile_landing(false, true), ProfileLanding::StopDrift);
    assert_eq!(profile_landing(false, false), ProfileLanding::Continue);
}
