//! The state that the control overlay edits and the frame loop reads.
pub mod ui;
