//! The simulation data: packed voxel states and the grid that holds them.
pub mod grid;
pub mod voxel;
