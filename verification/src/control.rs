//! The discrete decisions of the joint controllers: the anti-windup rule of
//! the PID integrator and the phases of the trapezoidal motion profile. The
//! caller measures the conditions; these functions decide.

use vstd::prelude::*;

verus! {

/// Which way a signed quantity points.
#[derive(Clone, Copy, Debug, PartialEq, Eq, Structural)]
pub enum Direction {
    Negative,
    Zero,
    Positive,
}

/// Conditional integration: the integrator is frozen exactly when the trial
/// output saturates in the direction the error keeps pushing it.
pub open spec fn spec_winding_up(saturated_high: bool, saturated_low: bool, error: Direction) -> bool {
    (saturated_high && error == Direction::Positive) || (saturated_low && error
        == Direction::Negative)
}

/// Whether the PID integrator must keep its old total this step.
/// `saturated_high` / `saturated_low`: the output computed with the trial
/// integral exceeds the upper / lies below the lower output bound; `error`:
/// the sign of the control error.
pub fn winding_up(saturated_high: bool, saturated_low: bool, error: Direction) -> (b: bool)
    ensures
        b == spec_winding_up(saturated_high, saturated_low, error),
{
    (saturated_high && error == Direction::Positive) || (saturated_low && error
        == Direction::Negative)
}

/// The anti-windup rule: an unsaturated output always integrates; error that
/// pulls the output back out of its saturation, or a zero error, is always
/// integrated, so recovery is never delayed; error that pushes further into
/// the saturation is never integrated.
pub proof fn lemma_anti_windup(saturated_high: bool, saturated_low: bool, error: Direction)
    ensures
        !saturated_high && !saturated_low ==> !spec_winding_up(saturated_high, saturated_low, error),
        error == Direction::Zero ==> !spec_winding_up(saturated_high, saturated_low, error),
        saturated_high && !saturated_low && error == Direction::Negative ==> !spec_winding_up(
            saturated_high,
            saturated_low,
            error,
        ),
        saturated_low && !saturated_high && error == Direction::Positive ==> !spec_winding_up(
            saturated_high,
            saturated_low,
            error,
        ),
        saturated_high && error == Direction::Positive ==> spec_winding_up(
            saturated_high,
            saturated_low,
            error,
        ),
        saturated_low && error == Direction::Negative ==> spec_winding_up(
            saturated_high,
            saturated_low,
            error,
        ),
{
}

/// What the motion profile does with its acceleration this step.
#[derive(Clone, Copy, Debug, PartialEq, Eq, Structural)]
pub enum ProfilePhase {
    /// At rest at the goal: the state is the goal, at zero velocity.
    Settled,
    /// Decelerate at the full rate to stop at the goal.
    Brake,
    /// Accelerate at the full rate toward the goal.
    Accelerate,
}

/// The profile's phase: settled at the goal when both the position error and
/// the velocity are negligible; otherwise braking when moving toward the goal
/// with no more room than the stopping distance; otherwise accelerating
/// toward the goal.
pub open spec fn spec_profile_phase(settled: bool, moving_toward_goal: bool, within_stopping: bool) -> ProfilePhase {
    if settled {
        ProfilePhase::Settled
    } else if moving_toward_goal && within_stopping {
        ProfilePhase::Brake
    } else {
        ProfilePhase::Accelerate
    }
}

/// Picks the profile's phase. `settled`: position error and velocity are
/// both below their tolerances; `moving_toward_goal`: the velocity points at
/// the goal; `within_stopping`: the distance needed to brake to rest is at
/// least the remaining distance.
pub fn profile_phase(settled: bool, moving_toward_goal: bool, within_stopping: bool) -> (p:
    ProfilePhase)
    ensures
        p == spec_profile_phase(settled, moving_toward_goal, within_stopping),
{
    if settled {
        ProfilePhase::Settled
    } else if moving_toward_goal && within_stopping {
        ProfilePhase::Brake
    } else {
        ProfilePhase::Accelerate
    }
}

/// How a profile step ends once the new position is known.
#[derive(Clone, Copy, Debug, PartialEq, Eq, Structural)]
pub enum ProfileLanding {
    /// The step passed the goal: the state snaps to the goal at rest.
    SnapToGoal,
    /// The step lands on the goal while drifting: the velocity is zeroed.
    StopDrift,
    /// Neither: the step stands as computed.
    Continue,
}

/// The landing rule: overshooting the goal snaps to it, whether or not the
/// new position is within tolerance of it; otherwise a position within
/// tolerance of the goal stops the drift.
pub open spec fn spec_profile_landing(overshot: bool, at_goal: bool) -> ProfileLanding {
    if overshot {
        ProfileLanding::SnapToGoal
    } else if at_goal {
        ProfileLanding::StopDrift
    } else {
        ProfileLanding::Continue
    }
}

/// Decides how the step ends. `overshot`: the new position lies past the
/// goal in the direction of travel; `at_goal`: it lies within the arrival
/// tolerance of the goal.
pub fn profile_landing(overshot: bool, at_goal: bool) -> (l: ProfileLanding)
    ensures
        l == spec_profile_landing(overshot, at_goal),
{
    if overshot {
        ProfileLanding::SnapToGoal
    } else if at_goal {
        ProfileLanding::StopDrift
    } else {
        ProfileLanding::Continue
    }
}

/// The profile never leaves its goal once settled there, never brakes while
/// moving away from the goal or with room to spare, and never lets a step
/// run past the goal.
pub proof fn lemma_profile_rules(
    settled: bool,
    moving_toward_goal: bool,
    within_stopping: bool,
    at_goal: bool,
)
    ensures
        settled ==> spec_profile_phase(settled, moving_toward_goal, within_stopping)
            == ProfilePhase::Settled,
        spec_profile_phase(settled, moving_toward_goal, within_stopping) == ProfilePhase::Brake
            ==> moving_toward_goal && within_stopping,
        spec_profile_landing(true, at_goal) == ProfileLanding::SnapToGoal,
{
}

/// The profile's phase in terms of its conditions: it is settled exactly
/// when the settled conditions hold; otherwise it brakes exactly when moving
/// toward the goal with no more room than the stopping distance, and
/// accelerates toward the goal in every other case (from rest, or moving
/// away, or with room to spare).
pub proof fn lemma_profile_phase_cases(settled: bool, moving_toward_goal: bool, within_stopping: bool)
    ensures
        (spec_profile_phase(settled, moving_toward_goal, within_stopping) == ProfilePhase::Settled)
            == settled,
        (spec_profile_phase(settled, moving_toward_goal, within_stopping) == ProfilePhase::Brake)
            == (!settled && moving_toward_goal && within_stopping),
        (spec_profile_phase(settled, moving_toward_goal, within_stopping)
            == ProfilePhase::Accelerate) == (!settled && !(moving_toward_goal && within_stopping)),
{
}

/// How a step lands, in terms of its conditions: it snaps to the goal
/// exactly when it overshot; otherwise it stops drifting exactly when it is
/// within tolerance of the goal, and stands as computed in every other case.
pub proof fn lemma_profile_landing_cases(overshot: bool, at_goal: bool)
    ensures
        (spec_profile_landing(overshot, at_goal) == ProfileLanding::SnapToGoal) == overshot,
        (spec_profile_landing(overshot, at_goal) == ProfileLanding::StopDrift) == (!overshot
            && at_goal),
        (spec_profile_landing(overshot, at_goal) == ProfileLanding::Continue) == (!overshot
            && !at_goal),
{
}

/// The anti-windup rule in terms of its conditions: the integrator is frozen
/// exactly when the output saturates high under a positive error or low
/// under a negative one.
pub proof fn lemma_winding_up_cases(saturated_high: bool, saturated_low: bool, error: Direction)
    ensures
        spec_winding_up(saturated_high, saturated_low, error) == ((saturated_high && error
            == Direction::Positive) || (saturated_low && error == Direction::Negative)),
{
}

} // verus!
