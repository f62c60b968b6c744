//! Orbit-camera arithmetic in integer fixed point: a camera that circles a
//! tracked target on a sphere, steered by pointer motion and scroll input.

pub mod fixed;
pub mod camera;
pub mod laws;
pub mod player;
