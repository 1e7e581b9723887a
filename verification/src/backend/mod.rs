//! The compositor backend that renders into a consumer's buffers.
pub mod anland;
pub mod clipboard;
pub mod clock;
pub mod laws;
pub mod output;
pub mod promises;
pub mod tick;
pub mod turn_promises;
pub mod turns;
