//! A fixed-point model of a "Newton's cannon" toy: a planet fixed at the
//! origin pulls cannonballs along inverse-square trajectories; balls bounce
//! off the planet with inelastic collision response and leave a bounded
//! trace of recent positions.
//!
//! All coordinates, speeds and accelerations are scaled integers
//! (thousandths of a world unit), so every step of the per-tick pipeline
//! carries an exact arithmetic contract.

pub mod body;
pub mod collision;
pub mod gravity;
pub mod motion;
pub mod num;
pub mod trace;
pub mod vec2;
pub mod world;
