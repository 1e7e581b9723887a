//! The display protocol: its messages, the producer context and its exchanges.
pub mod context;
pub mod exchange_laws;
pub mod laws;
pub mod message_laws;
pub mod model;
pub mod protocol;
pub mod transfer;
