//! Game rules of a top-down horde-survival game: enemy kinds and their
//! behaviour, weapons and the projectiles they fire, gem pickups and the
//! weapon levels they buy, the tiled floor, and the debug overlay text.
//!
//! Positions, directions, distances and frame times are floating-point values
//! handled by the game shell. The shell compares them (is the player in
//! range, is a leg or a bounce spent) and hands this crate the outcomes as
//! flags; the crate decides what follows and keeps the whole-number state.

pub mod random;
pub mod enemy;
pub mod projectile;
pub mod player;
pub mod pickup;
pub mod map;
pub mod debug;
