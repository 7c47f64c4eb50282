//! Configuration normalisation for support-vector-machine solvers driven by
//! a loosely typed host: coercion of untyped settings, solver and problem
//! parameter records, problem-kind dispatch, training-matrix shape checks and
//! support-vector extraction.
//!
//! Floating-point values cross this library as their IEEE-754 bit patterns
//! (`u64`); the numerical work itself is left to the solver.
pub mod config;
pub mod data;
pub mod float_bits;
pub mod params;
pub mod problem;
pub mod setup;
