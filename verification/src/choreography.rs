//! Sequencing of choreographed Cartesian waypoint moves.
//!
//! A choreography visits its waypoints in order: it starts a straight-line
//! move to a waypoint, waits until the move has finished and the end
//! effector has arrived, optionally dwells there, then moves on to the next
//! one, and is done after the last. The sequencer here owns the waypoints and
//! decides every step; the caller performs the moves, keeps the dwell clock
//! and measures arrival.

use vstd::prelude::*;

verus! {

/// The named choreographies, in the order of their keyboard shortcuts 1–9.
#[derive(Clone, Copy, Debug, PartialEq, Eq, Structural)]
pub enum Choreography {
    FigureEight,
    CircleSweep,
    Helix,
    WaveHello,
    PickAndPlace,
    Triangle,
    KnockKnock,
    SlowDrift,
    Zorro,
}

/// The display label of a choreography.
pub open spec fn spec_label(c: Choreography) -> Seq<char> {
    match c {
        Choreography::FigureEight => "Figure-Eight"@,
        Choreography::CircleSweep => "Circle Sweep"@,
        Choreography::Helix => "Helix"@,
        Choreography::WaveHello => "Wave Hello"@,
        Choreography::PickAndPlace => "Pick & Place"@,
        Choreography::Triangle => "Triangle"@,
        Choreography::KnockKnock => "Knock Knock"@,
        Choreography::SlowDrift => "Slow Drift"@,
        Choreography::Zorro => "Zorro Z"@,
    }
}

/// The choreography of shortcut slot `i` (digit key `i + 1`).
pub open spec fn spec_shortcut(i: int) -> Choreography {
    if i == 0 {
        Choreography::FigureEight
    } else if i == 1 {
        Choreography::CircleSweep
    } else if i == 2 {
        Choreography::Helix
    } else if i == 3 {
        Choreography::WaveHello
    } else if i == 4 {
        Choreography::PickAndPlace
    } else if i == 5 {
        Choreography::Triangle
    } else if i == 6 {
        Choreography::KnockKnock
    } else if i == 7 {
        Choreography::SlowDrift
    } else {
        Choreography::Zorro
    }
}

impl Choreography {
    /// The label shown while the choreography runs.
    pub fn label(&self) -> (l: &'static str)
        ensures
            l@ == spec_label(*self),
    {
        match self {
            Choreography::FigureEight => "Figure-Eight",
            Choreography::CircleSweep => "Circle Sweep",
            Choreography::Helix => "Helix",
            Choreography::WaveHello => "Wave Hello",
            Choreography::PickAndPlace => "Pick & Place",
            Choreography::Triangle => "Triangle",
            Choreography::KnockKnock => "Knock Knock",
            Choreography::SlowDrift => "Slow Drift",
            Choreography::Zorro => "Zorro Z",
        }
    }

    /// The choreography launched by shortcut slot `i` (digit key `i + 1`,
    /// `i < 9`): figure-eight, circle sweep, helix, wave hello, pick and
    /// place, triangle, knock knock, slow drift, Zorro.
    pub fn from_shortcut(i: usize) -> (c: Self)
        requires
            i < 9,
        ensures
            c == spec_shortcut(i as int),
    {
        if i == 0 {
            Choreography::FigureEight
        } else if i == 1 {
            Choreography::CircleSweep
        } else if i == 2 {
            Choreography::Helix
        } else if i == 3 {
            Choreography::WaveHello
        } else if i == 4 {
            Choreography::PickAndPlace
        } else if i == 5 {
            Choreography::Triangle
        } else if i == 6 {
            Choreography::KnockKnock
        } else if i == 7 {
            Choreography::SlowDrift
        } else {
            Choreography::Zorro
        }
    }

    /// The end-effector speed a keyboard launch asks for, in cm/s: 30 for
    /// the wave, 25 for every other choreography.
    pub fn launch_speed_cm_s(&self) -> (v: u32)
        ensures
            v == (if *self == Choreography::WaveHello { 30u32 } else { 25u32 }),
    {
        match self {
            Choreography::WaveHello => 30,
            _ => 25,
        }
    }
}

/// What the caller does after a sequencing step.
#[derive(Clone, Copy, Debug, PartialEq, Eq, Structural)]
pub enum SeqAction {
    /// Nothing to do this step.
    Wait,
    /// Start a straight-line move to waypoint `i`.
    MoveTo(usize),
    /// Start dwelling at waypoint `i` for its dwell time.
    Dwell(usize),
    /// The sequence has just completed.
    Finished,
}

/// What the caller observed this step.
#[derive(Clone, Copy, Debug)]
pub struct StepInputs {
    /// No Cartesian move is in progress any more.
    pub move_finished: bool,
    /// The end effector is within the arrival distance of the current
    /// waypoint.
    pub arrived: bool,
    /// While dwelling: the dwell clock has run out this step.
    pub dwell_elapsed: bool,
    /// The current waypoint asks for a dwell (its dwell time is positive).
    pub dwell_wanted: bool,
}

/// The abstract state of a sequence: its waypoints, the index of the current
/// one, and whether it is dwelling and still active.
pub struct SeqState<W> {
    pub waypoints: Seq<W>,
    pub idx: nat,
    pub dwelling: bool,
    pub active: bool,
}

/// Moving on past waypoint `idx`: the next waypoint's move starts, or the
/// sequence finishes after the last one.
pub open spec fn step_past<W>(s: SeqState<W>) -> (SeqState<W>, SeqAction) {
    let next = s.idx + 1;
    if next < s.waypoints.len() {
        (SeqState { idx: next, dwelling: false, ..s }, SeqAction::MoveTo(next as usize))
    } else {
        (SeqState { idx: next, dwelling: false, active: false, ..s }, SeqAction::Finished)
    }
}

/// One sequencing step. A finished (or exhausted) sequence does nothing. A
/// dwelling one moves on once the dwell has elapsed. Otherwise, once the move
/// has finished and the end effector has arrived, it dwells if the waypoint
/// asks for it and moves on if not.
pub open spec fn seq_step<W>(s: SeqState<W>, inp: StepInputs) -> (SeqState<W>, SeqAction) {
    if !s.active || s.idx >= s.waypoints.len() {
        (s, SeqAction::Wait)
    } else if s.dwelling {
        if inp.dwell_elapsed {
            step_past(s)
        } else {
            (s, SeqAction::Wait)
        }
    } else if inp.move_finished && inp.arrived {
        if inp.dwell_wanted {
            (SeqState { dwelling: true, ..s }, SeqAction::Dwell(s.idx as usize))
        } else {
            step_past(s)
        }
    } else {
        (s, SeqAction::Wait)
    }
}

/// The index never passes the end, and a dwelling sequence is active at a
/// real waypoint.
pub open spec fn consistent<W>(s: SeqState<W>) -> bool {
    &&& s.idx <= s.waypoints.len()
    &&& s.dwelling ==> s.active && s.idx < s.waypoints.len()
}

/// The state after `k` steps that all observe `inp`.
pub open spec fn run_steps<W>(s: SeqState<W>, inp: StepInputs, k: nat) -> SeqState<W>
    decreases k,
{
    if k == 0 {
        s
    } else {
        seq_step(run_steps(s, inp, (k - 1) as nat), inp).0
    }
}

/// Every step keeps the sequence consistent.
pub proof fn lemma_step_keeps_consistent<W>(s: SeqState<W>, inp: StepInputs)
    requires
        consistent(s),
    ensures
        consistent(seq_step(s, inp).0),
{
}

/// A finished sequence stays finished: every further step does nothing.
pub proof fn lemma_done_is_final<W>(s: SeqState<W>, inp: StepInputs)
    requires
        !s.active,
    ensures
        seq_step(s, inp) == (s, SeqAction::Wait),
{
}

/// Waypoints are visited in order: a step never changes the waypoints,
/// advances the index by at most one, starts a move only to the new
/// current waypoint, dwells only at the current one, and finishes only
/// past the last.
pub proof fn lemma_step_in_order<W>(s: SeqState<W>, inp: StepInputs)
    requires
        s.waypoints.len() <= usize::MAX,
    ensures
        ({
            let (t, a) = seq_step(s, inp);
            &&& t.waypoints == s.waypoints
            &&& (t.idx == s.idx || t.idx == s.idx + 1)
            &&& (a matches SeqAction::MoveTo(i) ==> i == t.idx && t.idx == s.idx + 1 && t.idx
                < s.waypoints.len() && t.active && !t.dwelling)
            &&& (a matches SeqAction::Dwell(i) ==> i == s.idx && t.idx == s.idx && t.dwelling)
            &&& (a == SeqAction::Finished ==> t.idx == s.waypoints.len() && !t.active)
            &&& (a == SeqAction::Wait ==> t == s)
        }),
{
}

/// What a step of an active sequence at a real waypoint does, in terms of
/// its inputs. A dwelling sequence whose dwell has elapsed moves past its
/// waypoint, whatever else is observed: to the next waypoint's move, or
/// finished after the last. A dwelling sequence whose dwell has not elapsed
/// waits. A moving sequence that has finished its move and arrived dwells at
/// its waypoint if the waypoint asks for it, and otherwise moves past it at
/// once; one still moving, or not yet arrived, waits.
pub proof fn lemma_step_cases<W>(s: SeqState<W>, inp: StepInputs)
    requires
        s.active,
        s.idx < s.waypoints.len(),
        s.waypoints.len() <= usize::MAX,
    ensures
        ({
            let (t, a) = seq_step(s, inp);
            let moves_on = (s.dwelling && inp.dwell_elapsed) || (!s.dwelling && inp.move_finished
                && inp.arrived && !inp.dwell_wanted);
            let dwells = !s.dwelling && inp.move_finished && inp.arrived && inp.dwell_wanted;
            &&& t.waypoints == s.waypoints
            &&& moves_on && s.idx + 1 < s.waypoints.len() ==> a == SeqAction::MoveTo(
                (s.idx + 1) as usize,
            ) && t.idx == s.idx + 1 && !t.dwelling && t.active
            &&& moves_on && s.idx + 1 == s.waypoints.len() ==> a == SeqAction::Finished && t.idx
                == s.waypoints.len() && !t.dwelling && !t.active
            &&& dwells ==> a == SeqAction::Dwell(s.idx as usize) && t.idx == s.idx && t.dwelling
                && t.active
            &&& !moves_on && !dwells ==> a == SeqAction::Wait && t == s
        }),
{
}

/// A sequence whose moves always arrive and whose waypoints never ask for a
/// dwell passes one waypoint per step: after `k` steps it is at waypoint
/// `min(k, n)` and still running exactly while `k < n`.
pub proof fn lemma_uninterrupted_run<W>(waypoints: Seq<W>, inp: StepInputs, k: nat)
    requires
        waypoints.len() > 0,
        inp.move_finished,
        inp.arrived,
        !inp.dwell_wanted,
    ensures
        ({
            let t = run_steps(
                SeqState { waypoints, idx: 0, dwelling: false, active: true },
                inp,
                k,
            );
            &&& t.waypoints == waypoints
            &&& t.idx == (if k < waypoints.len() { k } else { waypoints.len() })
            &&& t.active == (k < waypoints.len())
            &&& !t.dwelling
        }),
    decreases k,
{
    if k > 0 {
        lemma_uninterrupted_run(waypoints, inp, (k - 1) as nat);
    }
}

/// A sequenced list of waypoints.
pub struct WaypointSequencer<W> {
    waypoints: Vec<W>,
    current_idx: usize,
    dwelling: bool,
    active: bool,
}

impl<W> WaypointSequencer<W> {
    /// The sequence's abstract state.
    pub closed spec fn state(&self) -> SeqState<W> {
        SeqState {
            waypoints: self.waypoints@,
            idx: self.current_idx as nat,
            dwelling: self.dwelling,
            active: self.active,
        }
    }

    /// The index never passes the end, and a dwelling sequence is active at
    /// a real waypoint.
    #[verifier::type_invariant]
    spec fn well_formed(&self) -> bool {
        &&& self.current_idx <= self.waypoints@.len()
        &&& self.dwelling ==> self.active && self.current_idx < self.waypoints@.len()
    }

    /// A fresh sequence at its first waypoint, active, not dwelling.
    pub fn new(waypoints: Vec<W>) -> (seq: Self)
        ensures
            consistent(seq.state()),
            seq.state() == (SeqState { waypoints: waypoints@, idx: 0, dwelling: false, active: true }),
    {
        WaypointSequencer { waypoints, current_idx: 0, dwelling: false, active: true }
    }

    /// Kicks off the first waypoint's move; a sequence without waypoints is
    /// done at once.
    pub fn start(&mut self) -> (action: SeqAction)
        ensures
            consistent(final(self).state()),
            old(self).state().waypoints.len() > 0 ==> action == SeqAction::MoveTo(0)
                && final(self).state() == old(self).state(),
            old(self).state().waypoints.len() == 0 ==> action == SeqAction::Finished
                && final(self).state() == (SeqState { active: false, ..old(self).state() }),
    {
        proof {
            use_type_invariant(&*self);
        }
        if self.waypoints.len() > 0 {
            SeqAction::MoveTo(0)
        } else {
            self.active = false;
            SeqAction::Finished
        }
    }

    fn move_past(&mut self) -> (action: SeqAction)
        requires
            old(self).state().active,
            old(self).state().idx < old(self).state().waypoints.len(),
        ensures
            (final(self).state(), action) == step_past(old(self).state()),
    {
        proof {
            use_type_invariant(&*self);
        }
        let n = self.waypoints.len();
        self.dwelling = false;
        self.current_idx = self.current_idx + 1;
        if self.current_idx < n {
            SeqAction::MoveTo(self.current_idx)
        } else {
            self.active = false;
            SeqAction::Finished
        }
    }

    /// Drives the sequence one step forward with what the caller observed.
    pub fn advance(&mut self, inputs: StepInputs) -> (action: SeqAction)
        ensures
            consistent(old(self).state()),
            consistent(final(self).state()),
            (final(self).state(), action) == seq_step(old(self).state(), inputs),
    {
        proof {
            use_type_invariant(&*self);
        }
        if !self.active || self.current_idx >= self.waypoints.len() {
            return SeqAction::Wait;
        }
        if self.dwelling {
            if inputs.dwell_elapsed {
                self.move_past()
            } else {
                SeqAction::Wait
            }
        } else if inputs.move_finished && inputs.arrived {
            if inputs.dwell_wanted {
                self.dwelling = true;
                SeqAction::Dwell(self.current_idx)
            } else {
                self.move_past()
            }
        } else {
            SeqAction::Wait
        }
    }

    /// Whether the sequence is over.
    pub fn is_done(&self) -> (b: bool)
        ensures
            b == !self.state().active,
    {
        !self.active
    }

    /// Whether the dwell clock runs this step: the sequence is active, at a
    /// real waypoint, and dwelling there.
    pub fn is_counting_down(&self) -> (b: bool)
        ensures
            b == (self.state().active && self.state().idx < self.state().waypoints.len()
                && self.state().dwelling),
    {
        self.active && self.current_idx < self.waypoints.len() && self.dwelling
    }

    /// The current waypoint, `None` once the index has passed the last.
    pub fn current_target(&self) -> (w: Option<&W>)
        ensures
            self.state().idx < self.state().waypoints.len() ==> w == Some(
                &self.state().waypoints[self.state().idx as int],
            ),
            self.state().idx >= self.state().waypoints.len() ==> w is None,
    {
        if self.current_idx < self.waypoints.len() {
            Some(&self.waypoints[self.current_idx])
        } else {
            None
        }
    }

    /// Waypoint `i`.
    pub fn waypoint(&self, i: usize) -> (w: &W)
        requires
            i < self.state().waypoints.len(),
        ensures
            *w == self.state().waypoints[i as int],
    {
        &self.waypoints[i]
    }

    /// The number of waypoints.
    pub fn len(&self) -> (n: usize)
        ensures
            n == self.state().waypoints.len(),
    {
        self.waypoints.len()
    }
}

} // verus!
