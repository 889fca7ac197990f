//! Core logic of a small top-down 2D game client: a keyboard-driven player
//! with a directional idle/run animation state machine, a catalog of named
//! animation clips, and a camera that exponentially smooths toward the player.
//!
//! Geometry and time are fixed-point: distances are milliunits (one unit is
//! 1000 milliunits), time deltas are milliseconds, speeds are milliunits per
//! second, and the camera's follow rate is given in thousandths per second.
//! The engine-facing shell (windowing, rendering, asset loading, raw input)
//! lives outside this crate and hands these plain values in each frame.
#![verifier::loop_isolation(false)]

pub mod camera;
pub mod catalog;
pub mod frame;
pub mod motion;
pub mod player;
