//! Playback and microphone audio.
//!
//! The functions here are what the rest of the program calls; the modules hold the worker behind
//! them.
pub mod datagram;
pub mod laws;
pub mod promises;
pub mod reader;
pub mod ring;
pub mod streams;
pub mod worker;

use vstd::prelude::*;

use crate::audio::worker::Command;
use crate::engine::{Engine, EngineAction};

verus! {

/// Starts the audio worker, if none runs. `finished` tells that the one that was started before
/// ended by itself: it is replaced.
pub fn start(engine: &mut Engine, finished: bool) -> (action: EngineAction)
    ensures
        final(engine).wf(),
        (*final(engine), action) == old(engine).starting(finished),
{
    engine.start(finished)
}

/// Stops the audio worker, if one runs.
pub fn stop(engine: &mut Engine) -> (action: EngineAction)
    ensures
        final(engine).wf(),
        (*final(engine), action) == old(engine).stopping(),
{
    engine.stop()
}

/// What becomes of a descriptor that the worker is to use.
#[derive(Debug, Clone, Copy, PartialEq, Eq, Structural)]
pub enum SetFd {
    /// Nothing: no worker runs.
    Ignored,
    /// Duplicate this descriptor, which stays the caller's, and go on with [`duplicated`].
    Duplicate(i32),
    /// Send this to the worker.
    Send(Command),
}

/// What becomes of a descriptor, for a worker that runs or not.
pub open spec fn fd_use(running: bool, fd: i32) -> SetFd {
    if !running {
        SetFd::Ignored
    } else if fd < 0 {
        SetFd::Send(Command::SetSocket(None))
    } else {
        SetFd::Duplicate(fd)
    }
}

/// What the worker is sent for a duplicate.
pub open spec fn duplicate_use(duplicate: i32) -> Command {
    Command::SetSocket(
        if duplicate < 0 {
            None
        } else {
            Some(duplicate)
        },
    )
}

/// Replaces the socket of the worker. A negative descriptor only detaches the one before.
pub fn set_fd(engine: &Engine, fd: i32) -> (r: SetFd)
    ensures
        r == fd_use(engine.running, fd),
{
    if !engine.running {
        SetFd::Ignored
    } else if fd < 0 {
        SetFd::Send(Command::SetSocket(None))
    } else {
        SetFd::Duplicate(fd)
    }
}

/// What the worker is sent once the descriptor is duplicated. Where that failed, the worker only
/// lets the socket before it go.
pub fn duplicated(duplicate: i32) -> (command: Command)
    ensures
        command == duplicate_use(duplicate),
{
    if duplicate < 0 {
        Command::SetSocket(None)
    } else {
        Command::SetSocket(Some(duplicate))
    }
}

} // verus!
