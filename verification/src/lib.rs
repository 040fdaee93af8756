//! Rules and bookkeeping of a rock-paper-scissors particle field.
//!
//! Particles carry a hand and a body. How a body moves is the caller's
//! business; this crate decides which hand wins a match, which pair of
//! particles is resolved in an update, what a particle looks like on a
//! character grid, and which screen the game shows.

pub mod contact;
pub mod dice;
pub mod game;
pub mod hand;
pub mod particle;
pub mod render;
pub mod simulation;
