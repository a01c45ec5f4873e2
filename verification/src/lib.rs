//! Parameterized simulations with a verified escape-time fractal engine.
//!
//! A host discovers named simulations, introspects their configurable
//! parameters, submits a concrete parameter bundle, and receives a
//! deterministically computed raster. Real quantities are carried as
//! fixed-point values so that every arithmetic step has exact semantics.

pub mod birds;
pub mod complex;
pub mod fixed;
pub mod image_out;
pub mod julia_sets_simulation;
pub mod parameters;
pub mod raster;
pub mod simulation;
