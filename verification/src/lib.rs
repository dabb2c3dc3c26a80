//! The control core of a small real-time simulation: round bodies ("floaters")
//! are steered toward points that the user picks, while a physics engine
//! outside this crate integrates their motion.
//!
//! The crate works in whole world units. The host converts between these
//! integers and whatever its engine and its renderer use.

pub mod floater;
pub mod game;
pub mod geometry;
pub mod hover;
pub mod laws;
pub mod physics;
pub mod random;
pub mod selection;
