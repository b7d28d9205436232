//! Choice between the two closed-form solutions of the planar two-link
//! inverse kinematics.

use vstd::prelude::*;

verus! {

/// Which of the two IK solutions to use: a two-link arm can generally reach
/// a given point with the elbow bent either up or down.
#[derive(Clone, Copy, Debug, PartialEq, Eq, Structural)]
pub enum ElbowConfig {
    /// Elbow bends downward (the default).
    Down,
    /// Elbow bends upward.
    Up,
}

impl Default for ElbowConfig {
    fn default() -> (config: Self)
        ensures
            config == ElbowConfig::Down,
    {
        ElbowConfig::Down
    }
}

/// Both solutions of a two-link planar IK problem, whatever a solution is
/// made of (joint angles in the application).
#[derive(Debug)]
pub struct IkSolutions<S> {
    /// The solution whose elbow bends upward relative to the reach line.
    pub elbow_pos: S,
    /// The solution whose elbow bends downward relative to the reach line.
    pub elbow_neg: S,
}

impl<S: Copy> IkSolutions<S> {
    /// The solution that `config` asks for: elbow-down takes `elbow_neg`,
    /// elbow-up takes `elbow_pos`.
    pub fn pick(&self, config: ElbowConfig) -> (sol: S)
        ensures
            sol == (match config {
                ElbowConfig::Down => self.elbow_neg,
                ElbowConfig::Up => self.elbow_pos,
            }),
    {
        match config {
            ElbowConfig::Down => self.elbow_neg,
            ElbowConfig::Up => self.elbow_pos,
        }
    }
}

} // verus!
