//! The simulation step's dispatch geometry.
pub mod pipeline;
