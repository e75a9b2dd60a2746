//! Verified core of a small 2D platformer: a sprite animation engine
//! (clips, playback modes, a fixed-rate controller) and the health rules
//! that the surrounding game applies to its entities.
//!
//! The host engine is kept outside this crate: the animation core consumes
//! plain elapsed-time values and yields plain frame indices, as its contract
//! with any host is exactly that narrow.

pub mod animation;
pub mod controller;
pub mod health;
