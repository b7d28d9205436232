use arm_core::choreography::Choreography;
use arm_core::input::{interpret_keys, JointTab, KeyInput};

fn idle() -> KeyInput {
    KeyInput {
        space_just_pressed: false,
        r_just_pressed: false,
        c_just_pressed: false,
        digits_just_pressed: [false; 9],
        w_held: false,
        s_held: false,
        a_held: false,
        d_held: false,
        e_held: false,
        q_held: false,
    }
}

#[test]
fn idle_frame_asks_nothing() {
    let a = interpret_keys(&idle());
    assert!(!a.toggle_pause && !a.reset && !a.cancel);
    assert_eq!(a.launch, None);
    assert_eq!(a.jog, [0, 0, 0]);
}

#[test]
fn lowest_digit_wins() {
    let mut k = idle();
    k.digits_just_pressed[3] = true;
    k.digits_just_pressed[8] = true;
    assert_eq!(interpret_keys(&k).launch, Some(Choreography::WaveHello));
    let mut k = idle();
    k.digits_just_pressed[7] = true;
    assert_eq!(interpret_keys(&k).launch, Some(Choreography::SlowDrift));
    let mut k = idle();
    k.digits_just_pressed[8] = true;
    assert_eq!(interpret_keys(&k).launch, Some(Choreography::Zorro));
}

#[test]
fn jog_axes_and_cancellation() {
    let mut k = idle();
    k.w_held = true;
    k.a_held = true;
    k.e_held = true;
    assert_eq!(interpret_keys(&k).jog, [1, 1, -1]);
    k.s_held = true;
    k.d_held = true;
    k.q_held = true;
    assert_eq!(interpret_keys(&k).jog, [0, 0, 0]);
}

#[test]
fn single_press_actions() {
    let mut k = idle();
    k.space_just_pressed = true;
    k.r_just_pressed = true;
    k.c_just_pressed = true;
    let a = interpret_keys(&k);
    assert!(a.toggle_pause && a.reset && a.cancel);
}

#[test]
fn joint_tabs() {
    assert_eq!(JointTab::from_index(0), JointTab::Pan);
    assert_eq!(JointTab::from_index(1), JointTab::Shoulder);
    assert_eq!(JointTab::from_index(2), JointTab::Elbow);
    assert_eq!(JointTab::from_index(7), JointTab::Elbow);
    assert_eq!(JointTab::Shoulder.label(), "Shoulder");
}
