//! An N-link planar pendulum simulator: a chain of rigid, massless rods, each
//! ending in a point mass, advanced in time under gravity by one of four
//! numerical integrators and reporting Cartesian positions for rendering.
//!
//! Every real number is carried as the bit pattern of an IEEE-754 binary64
//! value (see [`fp`]); the primitive arithmetic is done by outside crates
//! behind trusted wrappers, while everything built on top of it — the
//! equations of motion, the integrators, the chain bookkeeping, the energy
//! safeguard and the trail recorder — is verified.

pub mod accel;
pub mod ball;
pub mod chain;
pub mod energy;
pub mod fp;
pub mod laws;
pub mod step;
pub mod universe;
pub mod vec2;
