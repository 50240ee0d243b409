//! A verified core for a two-player Pong game: axis-aligned collision
//! detection, paddle motion clamped to the arena, exact velocity
//! integration, and collision resolution by sign-flipping reflection,
//! driven by a fixed-timestep tick.
//!
//! All coordinates are integers measured in subunits: `SUBUNITS_PER_UNIT`
//! subunits make one world unit, and the subunit count per unit equals the
//! tick rate, so a velocity stated in world units per second advances a
//! position by exactly its own value each tick. Rendering, windowing and
//! input sampling live outside this crate; a driver hands the simulation
//! plain key states each tick and reads entity transforms back.

pub mod collision;
pub mod config;
pub mod entities;
pub mod geometry;
pub mod scheduler;
pub mod world;
