//! The updates that the logging dataflows derive from the events of the
//! dataflow system.

pub mod differential;
pub mod maps;
pub mod rows;
pub mod timely;
pub mod variants;
