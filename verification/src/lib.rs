//! A display producer that draws into the buffers of an Android consumer, with its audio and its
//! cameras.
//!
//! The library decides; it opens no socket and starts no thread. Each part is a state machine:
//! it names an action, and takes how that action went. Its contracts say what every step does, as
//! functions on plain values, and the `laws` modules what follows for whole exchanges.
//!
//! - [`ffi`]: the protocol, and the connection to the daemon and the consumer.
//! - [`backend`]: polling, rendering, the size of the output and the clipboard.
//! - [`audio`]: playback and the microphone.
//! - [`camera`]: the cameras.
#![allow(non_camel_case_types)]

pub mod audio;
pub mod backend;
pub mod bytes;
pub mod camera;
pub mod counter;
pub mod engine;
pub mod ffi;
pub mod poll;
pub mod text;
