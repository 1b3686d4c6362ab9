//! Core of a small real-time simulation: a single controllable entity whose
//! position is driven by per-frame directional input, with a zoomable camera
//! and a cursor-to-world mapping.
//!
//! All physical quantities (world units, seconds, speeds, the zoom factor)
//! are fixed-point values: integer counts of thousandths ("milli" units).
//! Each frame, a driver loop feeds the current key state and the frame's
//! scroll events through the pipeline: map the raw input to an intent, write
//! the intent into the entity's kinematic state, integrate the motion into
//! the entity transform, and apply the zoom to the camera viewport.

pub mod camera;
pub mod config;
pub mod fixed;
pub mod input;
pub mod laws;
pub mod motion;
pub mod sim;
