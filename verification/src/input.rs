//! What a frame of keyboard input asks the simulator to do.

use vstd::prelude::*;
use crate::choreography::{Choreography, spec_shortcut};

verus! {

/// The keys the simulator listens to, as seen in one frame.
#[derive(Clone, Copy, Debug)]
pub struct KeyInput {
    /// Space went down this frame.
    pub space_just_pressed: bool,
    /// R went down this frame.
    pub r_just_pressed: bool,
    /// C went down this frame.
    pub c_just_pressed: bool,
    /// Digit keys 1–9 that went down this frame (slot `i` is key `i + 1`).
    pub digits_just_pressed: [bool; 9],
    pub w_held: bool,
    pub s_held: bool,
    pub a_held: bool,
    pub d_held: bool,
    pub e_held: bool,
    pub q_held: bool,
}

/// What the frame's keys ask for, to be applied in field order.
#[derive(Clone, Copy, Debug)]
pub struct KeyActions {
    /// Toggle pause (Space).
    pub toggle_pause: bool,
    /// Reset the arm and re-target it (R).
    pub reset: bool,
    /// Launch a choreography (the lowest digit key 1–9 pressed).
    pub launch: Option<Choreography>,
    /// Cancel the running choreography (C).
    pub cancel: bool,
    /// Direction of the target jog along x (W/S), y (E/Q) and z (D/A), each
    /// -1, 0 or 1; opposite keys held together cancel.
    pub jog: [i8; 3],
}

/// The joint whose telemetry or tuning a panel tab shows.
#[derive(Clone, Copy, Debug, PartialEq, Eq, Structural)]
pub enum JointTab {
    Pan,
    Shoulder,
    Elbow,
}

impl JointTab {
    /// The joint of tab `i`: 0 is the pan, 1 the shoulder, any other the
    /// elbow.
    pub fn from_index(i: usize) -> (t: Self)
        ensures
            t == (if i == 0 {
                JointTab::Pan
            } else if i == 1 {
                JointTab::Shoulder
            } else {
                JointTab::Elbow
            }),
    {
        match i {
            0 => JointTab::Pan,
            1 => JointTab::Shoulder,
            _ => JointTab::Elbow,
        }
    }

    /// The tab's label.
    pub fn label(&self) -> (l: &'static str)
        ensures
            l@ == (match *self {
                JointTab::Pan => "Pan"@,
                JointTab::Shoulder => "Shoulder"@,
                JointTab::Elbow => "Elbow"@,
            }),
    {
        match self {
            JointTab::Pan => "Pan",
            JointTab::Shoulder => "Shoulder",
            JointTab::Elbow => "Elbow",
        }
    }
}

/// +1 for `plus` alone, -1 for `minus` alone, 0 otherwise.
pub open spec fn axis(plus: bool, minus: bool) -> int {
    (if plus { 1int } else { 0int }) - (if minus { 1int } else { 0int })
}

/// The choreography of the lowest pressed slot, if any.
pub open spec fn launch_of(digits: Seq<bool>) -> Option<Choreography> {
    if exists|i: int| 0 <= i < digits.len() && digits[i] {
        let i = choose|i: int| 0 <= i < digits.len() && digits[i] && forall|j: int| 0 <= j < i ==> !digits[j];
        Some(spec_shortcut(i))
    } else {
        None
    }
}

/// A frame launches the choreography of its lowest pressed digit slot: if
/// slot `i` is pressed and no lower one is, the launch is shortcut `i`.
pub proof fn lemma_launch_lowest_digit(digits: Seq<bool>, i: int)
    requires
        0 <= i < digits.len(),
        digits[i],
        forall|j: int| 0 <= j < i ==> !digits[j],
    ensures
        launch_of(digits) == Some(spec_shortcut(i)),
{
    let k = choose|k: int|
        0 <= k < digits.len() && digits[k] && forall|j: int| 0 <= j < k ==> !digits[j];
    assert(0 <= k < digits.len() && digits[k] && forall|j: int| 0 <= j < k ==> !digits[j]);
    if k < i {
        assert(!digits[k]);
    } else if k > i {
        assert(!digits[i]);
    }
}

/// A frame launches something exactly when some digit slot is pressed; the
/// first slot (digit key 1) always launches the figure eight.
pub proof fn lemma_launch_when_pressed(digits: Seq<bool>)
    ensures
        (launch_of(digits) is Some) == (exists|i: int| 0 <= i < digits.len() && digits[i]),
        digits.len() > 0 && digits[0] ==> launch_of(digits) == Some(Choreography::FigureEight),
{
    if digits.len() > 0 && digits[0] {
        lemma_launch_lowest_digit(digits, 0);
    }
}

/// Each digit slot has a choreography of its own: two different slots
/// never launch the same choreography.
pub proof fn lemma_shortcuts_distinct(i: int, j: int)
    requires
        0 <= i < 9,
        0 <= j < 9,
        i != j,
    ensures
        spec_shortcut(i) != spec_shortcut(j),
{
}

fn lowest_pressed(d: &[bool; 9]) -> (r: Option<usize>)
    ensures
        d@.len() == 9,
        r matches Some(i) ==> i < 9 && d@[i as int] && forall|j: int| 0 <= j < i ==> !d@[j],
        r is None ==> forall|j: int| 0 <= j < 9 ==> !d@[j],
{
    let mut i: usize = 0;
    while i < 9
        invariant
            i <= 9,
            d@.len() == 9,
            forall|j: int| 0 <= j < i ==> !d@[j],
        decreases 9 - i,
    {
        if d[i] {
            return Some(i);
        }
        i += 1;
    }
    None
}

fn axis_of(plus: bool, minus: bool) -> (v: i8)
    ensures
        v == axis(plus, minus),
{
    let p: i8 = if plus { 1 } else { 0 };
    let m: i8 = if minus { 1 } else { 0 };
    p - m
}

/// Reads one frame of keyboard input.
pub fn interpret_keys(keys: &KeyInput) -> (act: KeyActions)
    ensures
        act.toggle_pause == keys.space_just_pressed,
        act.reset == keys.r_just_pressed,
        act.cancel == keys.c_just_pressed,
        act.launch == launch_of(keys.digits_just_pressed@),
        act.jog[0] == axis(keys.w_held, keys.s_held),
        act.jog[1] == axis(keys.e_held, keys.q_held),
        act.jog[2] == axis(keys.d_held, keys.a_held),
{
    let launch = match lowest_pressed(&keys.digits_just_pressed) {
        Some(i) => {
            proof {
                let d = keys.digits_just_pressed@;
                let k = choose|k: int| 0 <= k < d.len() && d[k] && forall|j: int| 0 <= j < k ==> !d[j];
                assert(0 <= i < d.len() && d[i as int]);
                if k < i {
                    assert(!d[k]);
                } else if k > i {
                    assert(!d[i as int]);
                }
            }
            Some(Choreography::from_shortcut(i))
        },
        None => None,
    };
    let x = axis_of(keys.w_held, keys.s_held);
    let y = axis_of(keys.e_held, keys.q_held);
    let z = axis_of(keys.d_held, keys.a_held);
    KeyActions {
        toggle_pause: keys.space_just_pressed,
        reset: keys.r_just_pressed,
        launch,
        cancel: keys.c_just_pressed,
        jog: [x, y, z],
    }
}

} // verus!
