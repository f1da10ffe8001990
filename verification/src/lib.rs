//! Layout, scheduling and bookkeeping core of a particle physics engine.
//!
//! Everything here is integer logic: the shape of the phase space, the walk
//! over the pairs of particles, the order of the integrator phases, the
//! bitonic-sort schedule of the neighbour grid, the byte layout of the GPU
//! records and the dispatch plan of one SPH step. Real-valued quantities
//! pass through as IEEE-754 bit patterns and are never computed with: the
//! arithmetic on them, and the device, belong to the program that uses this
//! library.

pub mod engine;
pub mod games;
pub mod geometry;
pub mod laws;
pub mod pairs;
pub mod platform;
pub mod probe;
pub mod simulation;
pub mod solve;
pub mod state;
