//! Discrete choices of the motor model: the ODE integrator and the
//! stick/slip state of Coulomb friction.

use vstd::prelude::*;

verus! {

/// ODE integrator selection for the motor dynamics.
#[derive(Clone, Copy, Debug, PartialEq, Eq, Structural)]
pub enum IntegrationMethod {
    /// First-order forward Euler (the default).
    Euler,
    /// Fourth-order Runge-Kutta.
    RK4,
}

impl Default for IntegrationMethod {
    fn default() -> (m: Self)
        ensures
            m == IntegrationMethod::Euler,
    {
        IntegrationMethod::Euler
    }
}

impl IntegrationMethod {
    /// The integrator that a configuration's `use_rk4` flag selects.
    pub fn from_use_rk4(use_rk4: bool) -> (m: Self)
        ensures
            m == (if use_rk4 { IntegrationMethod::RK4 } else { IntegrationMethod::Euler }),
    {
        if use_rk4 {
            IntegrationMethod::RK4
        } else {
            IntegrationMethod::Euler
        }
    }
}

/// How friction acts on the motor during one evaluation.
#[derive(Clone, Copy, Debug, PartialEq, Eq, Structural)]
pub enum FrictionRegime {
    /// Static friction cancels the net torque: no acceleration, velocity
    /// forced to zero.
    Held,
    /// The net torque just overcame static friction: kinetic friction acts
    /// against the net torque.
    BreakAway,
    /// The motor is moving: kinetic friction acts against the velocity.
    Sliding,
}

/// The stick/slip latch of the Coulomb friction model. While stuck, the
/// motor only breaks away once the net torque reaches the static friction;
/// while moving it slides until kinetic friction would drive the velocity
/// through zero, where the caller latches it stuck again.
#[derive(Clone, Copy, Debug)]
pub struct StickSlip {
    stuck: bool,
}

/// The regime of one evaluation: a motor that is stuck, or nearly still, is
/// held when the net torque stays within static friction and breaks away
/// otherwise; a moving motor slides.
pub open spec fn regime_of(stuck: bool, nearly_still: bool, within_static: bool) -> FrictionRegime {
    if stuck || nearly_still {
        if within_static {
            FrictionRegime::Held
        } else {
            FrictionRegime::BreakAway
        }
    } else {
        FrictionRegime::Sliding
    }
}

/// The stick/slip rules without chatter: a stuck motor whose net torque
/// stays within static friction stays held, whatever its speed reads; a
/// stuck motor breaks away only once the torque exceeds static friction; a
/// moving motor slides and is not latched by the evaluation itself.
pub proof fn lemma_stick_slip(nearly_still: bool, within_static: bool)
    ensures
        regime_of(true, nearly_still, within_static) == (if within_static {
            FrictionRegime::Held
        } else {
            FrictionRegime::BreakAway
        }),
        regime_of(false, false, within_static) == FrictionRegime::Sliding,
        regime_of(false, true, within_static) == regime_of(true, true, within_static),
{
}

impl StickSlip {
    /// Whether static friction currently holds the motor.
    pub closed spec fn stuck(self) -> bool {
        self.stuck
    }

    /// A latch that is not stuck.
    pub fn new() -> (s: Self)
        ensures
            !s.stuck(),
    {
        StickSlip { stuck: false }
    }

    pub fn is_stuck(&self) -> (b: bool)
        ensures
            b == self.stuck(),
    {
        self.stuck
    }

    /// Releases the latch.
    pub fn reset(&mut self)
        ensures
            !final(self).stuck(),
    {
        self.stuck = false;
    }

    /// Forces the stuck state on, used when kinetic friction decelerates the
    /// motor through zero velocity.
    pub fn latch(&mut self)
        ensures
            final(self).stuck(),
    {
        self.stuck = true;
    }

    /// Decides the friction regime of one evaluation. `nearly_still`: the
    /// speed is below the stiction threshold; `within_static`: the
    /// friction-free net torque is smaller in magnitude than static friction.
    /// Afterwards the motor is stuck exactly when it is held.
    pub fn resolve(&mut self, nearly_still: bool, within_static: bool) -> (r: FrictionRegime)
        ensures
            r == regime_of(old(self).stuck(), nearly_still, within_static),
            final(self).stuck() == (r == FrictionRegime::Held),
    {
        if self.stuck || nearly_still {
            if within_static {
                self.stuck = true;
                return FrictionRegime::Held;
            }
            self.stuck = false;
            return FrictionRegime::BreakAway;
        }
        FrictionRegime::Sliding
    }
}

} // verus!
