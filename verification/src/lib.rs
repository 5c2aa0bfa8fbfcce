//! Motion core of a first-person camera, in exact fixed-point arithmetic.
//!
//! Every scalar (a length, a time in seconds, an angle in degrees, a pointer
//! displacement) is an integer count of millionths, so that a given sequence
//! of inputs produces the same pose on every machine. The crate holds the pose
//! of the camera, the look controller that turns it, the move controller with
//! its two direction policies, and the vertical integrator that lets the
//! camera jump and fall. Rendering, windowing and the clock stay with the
//! caller.

pub mod fixed;
pub mod keys;
pub mod laws;
pub mod look;
pub mod movement;
pub mod pose;
pub mod vertical;
