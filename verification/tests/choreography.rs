use arm_core::choreography::{Choreography, SeqAction, StepInputs, WaypointSequencer};

const ARRIVED: StepInputs = StepInputs {
    move_finished: true,
    arrived: true,
    dwell_elapsed: false,
    dwell_wanted: false,
};

const MOVING: StepInputs = StepInputs {
    move_finished: false,
    arrived: false,
    dwell_elapsed: false,
    dwell_wanted: false,
};

#[test]
fn start_moves_to_first_waypoint() {
    let mut s = WaypointSequencer::new(vec!['a', 'b', 'c']);
    assert_eq!(s.start(), SeqAction::MoveTo(0));
    assert_eq!(s.current_target(), Some(&'a'));
    assert!(!s.is_done());
}

#[test]
fn empty_sequence_is_done_at_start() {
    let mut s = WaypointSequencer::<u8>::new(vec![]);
    assert_eq!(s.start(), SeqAction::Finished);
    assert!(s.is_done());
    assert_eq!(s.current_target(), None);
    assert_eq!(s.advance(ARRIVED), SeqAction::Wait);
}

#[test]
fn waits_while_moving_or_far() {
    let mut s = WaypointSequencer::new(vec![1, 2]);
    s.start();
    assert_eq!(s.advance(MOVING), SeqAction::Wait);
    let not_there = StepInputs { move_finished: true, arrived: false, ..MOVING };
    assert_eq!(s.advance(not_there), SeqAction::Wait);
    let arrived_early = StepInputs { move_finished: false, arrived: true, ..MOVING };
    assert_eq!(s.advance(arrived_early), SeqAction::Wait);
    assert_eq!(s.current_target(), Some(&1));
}

#[test]
fn visits_waypoints_in_order_then_finishes() {
    let mut s = WaypointSequencer::new(vec![10, 20, 30]);
    s.start();
    assert_eq!(s.advance(ARRIVED), SeqAction::MoveTo(1));
    assert_eq!(s.current_target(), Some(&20));
    assert_eq!(s.advance(ARRIVED), SeqAction::MoveTo(2));
    assert_eq!(s.advance(ARRIVED), SeqAction::Finished);
    assert!(s.is_done());
    assert_eq!(s.current_target(), None);
    // finished is final
    assert_eq!(s.advance(ARRIVED), SeqAction::Wait);
    assert!(s.is_done());
}

#[test]
fn dwells_before_moving_on() {
    let mut s = WaypointSequencer::new(vec!["up", "down"]);
    s.start();
    let wants_dwell = StepInputs { dwell_wanted: true, ..ARRIVED };
    assert_eq!(s.advance(wants_dwell), SeqAction::Dwell(0));
    assert!(s.is_counting_down());
    // dwell not over yet: arrival is ignored
    assert_eq!(s.advance(ARRIVED), SeqAction::Wait);
    assert_eq!(s.current_target(), Some(&"up"));
    let elapsed = StepInputs { dwell_elapsed: true, ..MOVING };
    assert_eq!(s.advance(elapsed), SeqAction::MoveTo(1));
    assert!(!s.is_counting_down());
    assert_eq!(s.advance(wants_dwell), SeqAction::Dwell(1));
    assert_eq!(s.advance(elapsed), SeqAction::Finished);
    assert!(s.is_done());
}

#[test]
fn uninterrupted_run_takes_one_step_per_waypoint() {
    let n = 16;
    let mut s = WaypointSequencer::new((0..n).collect::<Vec<u32>>());
    s.start();
    let mut steps = 0;
    while !s.is_done() {
        s.advance(ARRIVED);
        steps += 1;
    }
    assert_eq!(steps, n);
    assert_eq!(s.len(), 16);
    assert_eq!(*s.waypoint(15), 15);
}

#[test]
fn choreography_labels_and_shortcuts() {
    let expected = [
        (Choreography::FigureEight, "Figure-Eight"),
        (Choreography::CircleSweep, "Circle Sweep"),
        (Choreography::Helix, "Helix"),
        (Choreography::WaveHello, "Wave Hello"),
        (Choreography::PickAndPlace, "Pick & Place"),
        (Choreography::Triangle, "Triangle"),
        (Choreography::KnockKnock, "Knock Knock"),
        (Choreography::SlowDrift, "Slow Drift"),
        (Choreography::Zorro, "Zorro Z"),
    ];
    for (i, (c, label)) in expected.iter().enumerate() {
        assert_eq!(Choreography::from_shortcut(i), *c);
        assert_eq!(c.label(), *label);
    }
    assert_eq!(Choreography::WaveHello.launch_speed_cm_s(), 30);
    assert_eq!(Choreography::Zorro.launch_speed_cm_s(), 25);
}
