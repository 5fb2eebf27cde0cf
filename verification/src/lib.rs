//! Configuration checks and synchronisation decisions of a Wisdom–Holman
//! (WHFast) symplectic N-body integrator.
//!
//! The floating-point parts of the integrator (Kepler drifts, coordinate
//! transformations, SIMD kernels) are carried out by the caller; this crate
//! decides whether a configuration is acceptable, how the force module has to
//! be set up for it, and which steps a synchronisation has to perform.

pub mod gravity;
pub mod integrator;
pub mod particle;
pub mod rendezvous;
pub mod whfast;

pub use whfast::types::{Coordinates, Kernel, SafeMode, WHFastError};
