//! Fixed-step two-dimensional motion and collision core for a two-paddle,
//! one-ball, two-wall arena.
//!
//! All quantities are integers in fixed-point world units, so every rule of
//! the simulation — position integration, box collision classification,
//! reflective bounce with speed clamping, swept wall stops for fast kinematic
//! bodies, paddle confinement, the proportional chase controller and goal
//! scoring — is exact and proved. Speeds are measured in the maximum norm
//! (the larger component magnitude), which integer rescaling clamps exactly.

pub mod components;

pub mod ball;

pub mod collisions;

pub mod paddle;

pub mod score;

pub mod game;
