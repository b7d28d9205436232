use arm_core::kinematics::{ElbowConfig, IkSolutions};

#[test]
fn elbow_defaults_down() {
    assert_eq!(ElbowConfig::default(), ElbowConfig::Down);
}

#[test]
fn pick_selects_by_elbow() {
    let s = IkSolutions { elbow_pos: (1.2_f64, 0.5_f64), elbow_neg: (0.3_f64, -0.5_f64) };
    assert_eq!(s.pick(ElbowConfig::Down), (0.3, -0.5));
    assert_eq!(s.pick(ElbowConfig::Up), (1.2, 0.5));
}
