//! Movement and collision-growth simulation for a small "eat the blobs" game.
//!
//! Every quantity is a fixed-point integer: one world unit is [`movement::UNIT`]
//! (a million steps), for positions, velocities and weights alike.
pub mod collision;
pub mod movement;
pub mod mutations;
pub mod random;
pub mod state;
pub mod world;
