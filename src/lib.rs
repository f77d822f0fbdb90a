//! The simulation core of a Lorenz-attractor viewer: the integrator, the
//! growing trail with its reset policy, the trail's centroid, the bouncing
//! pitch angle and the per-frame update that ties them together.
//!
//! Coordinates are fixed-point numbers: an `i64` counts units of
//! `1 / SCALE`, so that every step of the simulation is exact integer
//! arithmetic with a stated rounding rule.
pub mod arith;
pub mod point;
pub mod integrator;
pub mod centroid;
pub mod trail;
pub mod bounce;
pub mod sim;
