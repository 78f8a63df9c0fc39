//! Cube-model and voxel-terrain geometry kernel.
//!
//! The crate bakes hierarchical bone models into GPU-ready instance records
//! and meshes fixed-size voxel chunks with neighbour-aware face culling.
//! All coordinates and texture positions are exact fixed-point scalars
//! ([`fixed::Fixed`]), so every transformation the crate performs is stated
//! and proved exactly; a host renderer converts the results to floats at its
//! own boundary.

pub mod fixed;
pub mod geom;
pub mod models;
pub mod terrain;
