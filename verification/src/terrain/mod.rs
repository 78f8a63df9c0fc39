//! The voxel-terrain pipeline: fixed-size chunks meshed with neighbour-aware
//! face culling and atlas texturing.

pub mod blocks;
pub mod chunk;
pub mod lookup;
