//! Statement sequencing and transaction coordination for a streaming SQL
//! engine: every planned statement is driven to exactly one response for the
//! session that issued it.

pub mod catalog;
pub mod consolidation;
pub mod context;
pub mod coordinator;
pub mod error;
pub mod finishing;
pub mod fixed_length;
pub mod laws;
pub mod logging;
pub mod names;
pub mod plan;
pub mod repr;
pub mod response;
pub mod sequencer;
pub mod session;
pub mod single_statement;
pub mod timer;
