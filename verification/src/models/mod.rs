//! The bone-model pipeline: bone trees baked into ordered instance lists.

pub mod animations;
pub mod cubes;
pub mod data;
pub mod file;
