//! Gameplay core of a 2D side-scrolling platformer: directional collision
//! sensing, per-character state machines, kinematics and animation selection,
//! advanced once per simulation tick.
//!
//! All scalar quantities (velocities, accelerations, offsets, shape
//! dimensions) are fixed-point integers in thousandths of a world unit, so
//! that every rule of the simulation can be stated and proved exactly.
//! Durations are in milliseconds. The physics engine itself is outside this
//! crate: each tick the host hands in one boolean per sensor ("is this sensor
//! currently intersecting something") and reads the requested velocity back.

pub mod animation;
pub mod collision;
pub mod groups;
pub mod kinematics;
pub mod knight;
pub mod motion;
pub mod player;
