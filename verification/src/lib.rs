//! Verified decision and bookkeeping logic of the articulated-arm simulator:
//! log-line composition, the stick/slip latch of the friction model, elbow and
//! integrator selection, the controllers' anti-windup and profile phases,
//! waypoint sequencing, bounded telemetry histories,
//! console command parsing and keyboard intent.

pub mod text;
pub mod logger;
pub mod kinematics;
pub mod motor;
pub mod control;
pub mod choreography;
pub mod input;
pub mod history;
pub mod console;
