//! Input handling and fixed-step timing for a first-person character controller.
//!
//! The library keeps the player's controller state (movement keys held, camera
//! pitch and body yaw), turns it into per-tick movement directions, and decides
//! how many fixed simulation steps are due for a given wall-clock reading.
//! Angles are integers in thousandths of a degree; time is counted in
//! nanoseconds of wall clock and in whole simulation ticks.

pub mod clock;
pub mod input;
pub mod motion;

pub use clock::{FixedStepClock, NANOS_PER_SECOND, TICKS_PER_SECOND};
pub use input::{
    ControllerView, InputController, InputEvent, KeyCode, MILLIDEGREES_PER_DEGREE,
    PITCH_LIMIT,
};
pub use motion::MoveAxes;
