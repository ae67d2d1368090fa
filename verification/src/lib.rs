//! Core simulation of a small 2D arcade game: a player-controlled character
//! roams a window collecting randomly spawned moving candies, while the game
//! cycles through title, play and end sequences.
//!
//! All geometry is fixed-point: positions are held in milli-units (one
//! thousandth of a world unit), scale factors and direction vectors in
//! per-mille. Time is held in milliseconds.

pub mod gameplay;
pub mod geom;
pub mod math;
pub mod phases;
pub mod rng;
pub mod world;
