//! A verified core for a 2D herding simulation: roaming resource agents
//! ("chickens") wander inside pens, a player gathers them into a bounded
//! inventory and banks them at a base, and autonomous rival agents
//! ("werewolves") forage, herd and bank the same resource at bases of
//! their own.
//!
//! The world is modelled on an integer grid: positions are pairs of `i64`
//! coordinates, directions are fixed-point vectors scaled by
//! [`settings::DIR_SCALE`], and time advances in whole milliseconds.
//! Randomness enters only through the narrow wrappers in [`rng`]; every
//! decision taken on a random draw is made by a verified function of the
//! draw.

#![verifier::loop_isolation(false)]

pub mod base;
pub mod chicken;
pub mod chicken_corral;
pub mod misc;
pub mod player;
pub mod rng;
pub mod settings;
pub mod sim;
pub mod spawning;
pub mod timer;
pub mod ui;
pub mod vec2;
pub mod werewolf;
