//! Core of a breakout-style arcade game: axis-aligned bounding-box collision
//! detection between a ball and static colliders, velocity integration over a
//! fixed timestep, collision resolution with reflection and scoring, and the
//! per-tick event signal.
//!
//! All geometry is carried in integer world units; the host engine that draws
//! and drives the game converts at its own edge.

pub mod ball;
pub mod brick;
pub mod collision;
pub mod geometry;
pub mod paddle;
pub mod physics;
pub mod ui;
pub mod wall;
pub mod world;
