//! A verified core for a paddle-and-ball arcade game.
//!
//! The library owns the game's logic: the world state (one paddle, up to
//! five balls), its fixed-timestep physics with wall and paddle
//! reflections, the spawn/eviction policy for balls, the loop state
//! machine, and the geometry of the rectangles a renderer must draw.
//! Window setup, event polling, timing and the actual drawing are left
//! to an unverified shell around the library.

pub mod game_loop;
pub mod input;
pub mod laws;
pub mod render;
pub mod rng;
pub mod world;
