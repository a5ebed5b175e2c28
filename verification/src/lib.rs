//! Movement and physics core of a 2D tile-based platform game.
//!
//! The library owns the collision geometry of a static world and the
//! per-frame physics state machine of a single player actor: horizontal
//! movement, gravity integration, jump impulses and a short-history
//! "is falling" classifier.
//!
//! All coordinates, sizes and speeds are fixed-point integers: one world
//! unit is [`geometry::UNIT`] subunits. This keeps every constant of the
//! physics rules exact (the fall-duration step of 0.02 units is 2 subunits,
//! its cap of 5 units is 500, and the gravity acceleration of 1.5 times the
//! fall duration is a whole number of subunits because the fall duration is
//! always an even count of them).

pub mod config;
pub mod extensions;
pub mod geometry;
pub mod player;
pub mod world;
