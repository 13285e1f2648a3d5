//! A verified model of a point-sprite particle animation.
//!
//! The library owns the computational core of the animation: the quad mesh
//! the sprites are drawn on, the uniform angular placement of the particles,
//! the per-tick motion rule (direction times velocity times a global sign),
//! the periodic sign flip, and the recycling rule that sends a particle back
//! to the origin once it strays past a threshold. All positions are held in
//! fixed-point integer world units so that every step of the motion is exact
//! and provable; the surrounding program converts to floating point only at
//! the rendering boundary.

pub mod angle;
pub mod control;
pub mod motion;
pub mod palette;
pub mod quad;
pub mod rng;
pub mod spawn;
pub mod swap;
pub mod units;
pub mod world;
