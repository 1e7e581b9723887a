//! The two streams that are published: what they are called and how they are connected.
use vstd::prelude::*;

use crate::audio::datagram::{make_format_pod, update_latency, StreamFormat};
use crate::audio::worker::CurrentFormat;
#[allow(unused_imports)]
use crate::audio::datagram::{format_fits, given_format, latency_text};

verus! {

/// Whether a stream takes samples from the system or brings some to it.
#[derive(Debug, Clone, Copy, PartialEq, Eq, Structural)]
pub enum Direction {
    Input,
    Output,
}

/// How a stream is connected: its latency property, then its format.
pub struct Connection {
    pub direction: Direction,
    pub latency: Option<String>,
    /// Nothing if no stream can have the format: then the stream cannot be connected.
    pub format: Option<StreamFormat>,
}

/// A stream to be published.
pub struct StreamPlan {
    pub name: &'static str,
    pub media_class: &'static str,
    pub description: &'static str,
    pub connection: Connection,
}

impl Connection {
    /// The connection of a stream in `direction` with `format`.
    pub open spec fn of(
        self,
        direction: Direction,
        format: CurrentFormat,
        max_channels: usize,
    ) -> bool {
        &&& self.direction == direction
        &&& match self.latency {
            Some(v) => latency_text(format.quantum, format.rate) == Some(v@),
            None => latency_text(format.quantum, format.rate) is None,
        }
        &&& self.format == given_format(format.rate, format.channels, max_channels)
    }
}

/// How a stream is connected.
pub fn connect_stream(direction: Direction, format: CurrentFormat, max_channels: usize) -> (r:
    Connection)
    ensures
        r.of(direction, format, max_channels),
{
    Connection {
        direction,
        latency: update_latency(format.quantum, format.rate),
        format: make_format_pod(format.rate, format.channels, max_channels),
    }
}

/// The streams to be published, in the order in which they are created: the speaker, which takes
/// samples from the system, and the microphone, which brings some to it.
pub fn create_streams(
    playback: CurrentFormat,
    capture: CurrentFormat,
    max_channels: usize,
) -> (plans: (StreamPlan, StreamPlan))
    ensures
        plans.0.name@ == "anland-speaker"@,
        plans.0.media_class@ == "Audio/Sink"@,
        plans.0.description@ == "Anland remote speaker"@,
        plans.0.connection.of(Direction::Input, playback, max_channels),
        plans.1.name@ == "anland-mic"@,
        plans.1.media_class@ == "Audio/Source"@,
        plans.1.description@ == "Anland remote microphone"@,
        plans.1.connection.of(Direction::Output, capture, max_channels),
{
    let speaker = StreamPlan {
        name: "anland-speaker",
        media_class: "Audio/Sink",
        description: "Anland remote speaker",
        connection: connect_stream(Direction::Input, playback, max_channels),
    };
    let microphone = StreamPlan {
        name: "anland-mic",
        media_class: "Audio/Source",
        description: "Anland remote microphone",
        connection: connect_stream(Direction::Output, capture, max_channels),
    };
    (speaker, microphone)
}

/// The format for a stream that is already connected, if it can have it.
pub fn update_stream_format(rate: u32, channels: u32, max_channels: usize) -> (r: Option<
    StreamFormat,
>)
    ensures
        r == given_format(rate, channels, max_channels),
{
    make_format_pod(rate, channels, max_channels)
}

/// A format that the worker asks for after an announcement is one that streams can have.
pub proof fn law_announced_formats_fit(
    announcement: crate::audio::datagram::FormatAnnouncement,
    max_channels: usize,
)
    ensures
        crate::audio::worker::announced(announcement, max_channels) matches Some((_, next)) ==>
            format_fits(next.rate, next.channels, max_channels),
{
}

} // verus!
