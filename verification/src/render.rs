//! What the lattice view draws: the wireframe mesh and the depth target's size.
pub mod pipeline;
