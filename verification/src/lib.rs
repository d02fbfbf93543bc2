//! Voxel state encoding, lattice geometry and frame scheduling for a
//! double-buffered pressure lattice simulated on the GPU.
pub mod compute;
pub mod gpu_layout;
pub mod gui;
pub mod render;
pub mod sim;
