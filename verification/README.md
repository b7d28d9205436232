# arm_core — articulated-arm simulator, verified core

A 3-DOF (pan/shoulder/elbow) robotic-arm simulator: closed-form inverse
kinematics, PID joint control with gravity and velocity feedforward, DC-motor
physics with Coulomb stiction and Euler/RK4 integration, trapezoidal motion
profiles, Cartesian straight-line moves and choreographed waypoint sequences,
shown in an interactive 3D view with a telemetry panel and a TCP console.

## Layout

- `src/` — the library, verified with Verus. It holds the simulator's
  discrete logic, each function with a contract:
  - `logger` — log lines: category tags and colours, the `HH:MM:SS.mmm`
    time-of-day stamp read from the system clock, line layout.
  - `motor` — integrator selection and the stick/slip latch of the
    Coulomb friction model.
  - `kinematics` — elbow-up/elbow-down selection between the two IK
    solutions.
  - `choreography` — the waypoint sequencer (move, arrive, dwell, next)
    and the named choreographies.
  - `history` — bounded rolling histories for plots and the trail.
  - `console` — the text console's line protocol (trimming, splitting on
    Unicode whitespace, request selection, fixed replies).
  - `input` — what a frame of keyboard input asks for.
  - `text` — string helpers.
- `tests/` — tests of the library.
- `app/` — the program around it: all floating-point physics, control and
  kinematics (motor ODE, PID, trapezoid profile, FK/IK trigonometry,
  Cartesian interpolation), the TOML configuration, the TCP server, coloured
  terminal output, and the Bevy/egui front end.

Floating-point arithmetic is not verified here; the library takes the
results of floating-point comparisons (is the motor nearly still, has the
end effector arrived, has the dwell elapsed) as plain booleans.
