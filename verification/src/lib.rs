//! A kinematic character-movement controller.
//!
//! Given per-tick input intent and the results of swept-collision queries
//! against the surrounding world, the controller computes a character's new
//! position, velocity and surface-contact state for one fixed simulation
//! step: slope-limited walking, stepping, ledge climbing, buffered jumps and
//! wall-jumps, moving-platform inheritance and water movement.
//!
//! All quantities are fixed-point integers in thousandths of a unit
//! (millimetres, millimetres per second, milliseconds, cosines scaled by
//! 1000). The collision-sweep service itself is a supplied geometric
//! collaborator: its answers enter the library as plain values and every
//! decision taken on them is verified.

pub mod accel;
pub mod camera;
pub mod config;
pub mod dynamics;
pub mod fixed_update_utils;
pub mod grounding;
pub mod input;
pub mod kcc;
pub mod jump;
pub mod ledge;
pub mod math;
pub mod state;
pub mod step;
pub mod sweep;
pub mod water;
