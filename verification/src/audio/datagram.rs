//! The datagrams of the consumer's audio socket, and what the streams are told.
use vstd::prelude::*;
use vstd::string::StringExecFns;

use crate::bytes::{le32_at, push_u32};
use crate::text::push_decimal;
#[allow(unused_imports)]
use crate::bytes::{le32, u32_bytes};
#[allow(unused_imports)]
use crate::text::decimal;

verus! {

pub const DEFAULT_RATE: u32 = 48_000;
pub const DEFAULT_PLAY_CHANNELS: u32 = 2;
pub const DEFAULT_CAP_CHANNELS: u32 = 1;
/// The longest datagram that is read.
pub const MAX_DGRAM: usize = 65_536;

pub const AUDIO_MSG_FORMAT: u32 = 1;
pub const AUDIO_MSG_PCM: u32 = 2;
pub const AUDIO_FORMAT_S16LE: u32 = 0;
pub const AUDIO_ROLE_PLAYBACK: u32 = 0;
pub const AUDIO_ROLE_CAPTURE: u32 = 1;
pub const AUDIO_HEADER_BYTES: usize = 8;
pub const AUDIO_FORMAT_BYTES: usize = 20;
/// Bytes of a 16-bit sample.
pub const SAMPLE_BYTES: u32 = 2;

/// The format that the consumer wants for playback, or sends from its microphone.
#[derive(Debug, Clone, Copy, PartialEq, Eq, Structural)]
pub struct FormatAnnouncement {
    pub rate: u32,
    pub channels: u32,
    pub format: u32,
    pub role: u32,
    pub quantum: u32,
}

/// The header of a datagram: its type and the length of its payload.
pub open spec fn datagram_header(message_type: u32, len: u32) -> Seq<u8> {
    u32_bytes(message_type) + u32_bytes(len)
}

/// The type and payload of a datagram whose header declares exactly the payload that is there.
pub open spec fn datagram_parts(d: Seq<u8>) -> Option<(u32, Seq<u8>)> {
    if d.len() >= AUDIO_HEADER_BYTES && le32(d, 4) == d.len() - AUDIO_HEADER_BYTES {
        Some((le32(d, 0) as u32, d.skip(AUDIO_HEADER_BYTES as int)))
    } else {
        None
    }
}

/// The five numbers of a format announcement.
pub open spec fn announcement_at(p: Seq<u8>) -> FormatAnnouncement {
    FormatAnnouncement {
        rate: le32(p, 0) as u32,
        channels: le32(p, 4) as u32,
        format: le32(p, 8) as u32,
        role: le32(p, 12) as u32,
        quantum: le32(p, 16) as u32,
    }
}

/// A format announcement of 16-bit samples for playback or capture, in exactly its bytes.
pub open spec fn announcement_in(p: Seq<u8>) -> Option<FormatAnnouncement> {
    if p.len() == AUDIO_FORMAT_BYTES && announcement_at(p).format == AUDIO_FORMAT_S16LE && (
    announcement_at(p).role == AUDIO_ROLE_PLAYBACK || announcement_at(p).role
        == AUDIO_ROLE_CAPTURE) {
        Some(announcement_at(p))
    } else {
        None
    }
}

/// Splits a datagram into its type and its payload.
pub fn audio_datagram_payload(datagram: &[u8]) -> (r: Option<(u32, &[u8])>)
    ensures
        match r {
            Some((t, p)) => datagram_parts(datagram@) == Some((t, p@)),
            None => datagram_parts(datagram@) is None,
        },
{
    if datagram.len() < AUDIO_HEADER_BYTES {
        return None;
    }
    let message_type = le32_at(datagram, 0);
    let declared_size: usize = le32_at(datagram, 4) as usize;
    let payload = vstd::slice::slice_subrange(datagram, AUDIO_HEADER_BYTES, datagram.len());
    if declared_size == payload.len() {
        Some((message_type, payload))
    } else {
        None
    }
}

/// Reads a format announcement.
pub fn parse_format_announcement(payload: &[u8]) -> (r: Option<FormatAnnouncement>)
    ensures
        r == announcement_in(payload@),
{
    if payload.len() != AUDIO_FORMAT_BYTES {
        return None;
    }
    let format = FormatAnnouncement {
        rate: le32_at(payload, 0),
        channels: le32_at(payload, 4),
        format: le32_at(payload, 8),
        role: le32_at(payload, 12),
        quantum: le32_at(payload, 16),
    };
    if format.format != AUDIO_FORMAT_S16LE || (format.role != AUDIO_ROLE_PLAYBACK && format.role
        != AUDIO_ROLE_CAPTURE) {
        return None;
    }
    Some(format)
}

/// The 32-bit number at `offset`, if the bytes reach that far.
pub open spec fn u32_in(bytes: Seq<u8>, offset: usize) -> Option<u32> {
    if offset + 4 <= bytes.len() {
        Some(le32(bytes, offset as int) as u32)
    } else {
        None
    }
}

/// The 32-bit number at `offset`, if the bytes reach that far.
pub fn read_u32(bytes: &[u8], offset: usize) -> (value: Option<u32>)
    requires
        offset + 4 <= usize::MAX,
    ensures
        value == u32_in(bytes@, offset),
{
    if offset + 4 <= bytes.len() {
        Some(le32_at(bytes, offset))
    } else {
        None
    }
}

/// Bytes of a frame of `channels` 16-bit samples.
pub open spec fn stride_of(channels: u32) -> Option<u32> {
    if channels == 0 || channels * SAMPLE_BYTES > u32::MAX {
        None
    } else {
        Some((channels * SAMPLE_BYTES) as u32)
    }
}

/// Bytes of a frame of `channels` 16-bit samples, if there are any and the number fits.
pub fn frame_stride(channels: u32) -> (stride: Option<u32>)
    ensures
        stride == stride_of(channels),
{
    if channels == 0 || channels > u32::MAX / SAMPLE_BYTES {
        None
    } else {
        Some(channels * SAMPLE_BYTES)
    }
}

/// What heads samples of so many bytes, unless their length does not fit.
pub open spec fn pcm_header(len: nat) -> Option<Seq<u8>> {
    if len <= u32::MAX {
        Some(datagram_header(AUDIO_MSG_PCM, len as u32))
    } else {
        None
    }
}

/// The header that goes before one period of playback samples in its datagram, unless their length
/// does not fit.
pub fn send_pcm(payload: &[u8]) -> (header: Option<Vec<u8>>)
    ensures
        match header {
            Some(h) => pcm_header(payload@.len()) == Some(h@),
            None => pcm_header(payload@.len()) is None,
        },
{
    if payload.len() > u32::MAX as usize {
        return None;
    }
    let mut header: Vec<u8> = Vec::new();
    push_u32(&mut header, AUDIO_MSG_PCM);
    push_u32(&mut header, payload.len() as u32);
    assert(header@ =~= datagram_header(AUDIO_MSG_PCM, payload@.len() as u32));
    Some(header)
}

/// The chunk of `size` bytes at `offset`, if it lies in the buffer and is not empty.
pub open spec fn playback_chunk(bytes: Seq<u8>, offset: usize, size: usize) -> Option<Seq<u8>> {
    if size > 0 && offset + size <= bytes.len() {
        Some(bytes.subrange(offset as int, offset + size))
    } else {
        None
    }
}

/// The samples of a playback buffer: the chunk that the stream names, if it lies in the buffer
/// and is not empty.
pub fn playback_process(bytes: &[u8], offset: usize, size: usize) -> (payload: Option<&[u8]>)
    ensures
        match payload {
            Some(p) => playback_chunk(bytes@, offset, size) == Some(p@),
            None => playback_chunk(bytes@, offset, size) is None,
        },
{
    if size == 0 || offset > bytes.len() || size > bytes.len() - offset {
        return None;
    }
    Some(vstd::slice::slice_subrange(bytes, offset, offset + size))
}

/// Where a channel is heard.
#[derive(Debug, Clone, Copy, PartialEq, Eq, Structural)]
pub enum ChannelPosition {
    Unknown,
    Mono,
    FrontLeft,
    FrontRight,
}

/// A stream format of 16-bit samples: the positions of the first two channels are named, those
/// of the others are not.
#[derive(Debug, Clone, Copy, PartialEq, Eq, Structural)]
pub struct StreamFormat {
    pub rate: u32,
    pub channels: u32,
    pub first: ChannelPosition,
    pub second: ChannelPosition,
}

/// A stream can be given this format: the rate fits a signed number, and there are no more
/// than `max_channels` channels.
pub open spec fn format_fits(rate: u32, channels: u32, max_channels: usize) -> bool {
    rate <= i32::MAX && 0 < channels <= max_channels
}

/// The format that a stream is given.
pub open spec fn stream_format(rate: u32, channels: u32) -> StreamFormat {
    StreamFormat {
        rate,
        channels,
        first: if channels >= 2 {
            ChannelPosition::FrontLeft
        } else {
            ChannelPosition::Mono
        },
        second: if channels >= 2 {
            ChannelPosition::FrontRight
        } else {
            ChannelPosition::Unknown
        },
    }
}

/// The format to be given to a stream, if it can be.
pub open spec fn given_format(rate: u32, channels: u32, max_channels: usize) -> Option<
    StreamFormat,
> {
    if format_fits(rate, channels, max_channels) {
        Some(stream_format(rate, channels))
    } else {
        None
    }
}

/// The format to be given to a stream, if it can be.
pub fn make_format_pod(rate: u32, channels: u32, max_channels: usize) -> (r: Option<StreamFormat>)
    ensures
        r == given_format(rate, channels, max_channels),
{
    if rate > i32::MAX as u32 || channels == 0 || channels as usize > max_channels {
        return None;
    }
    let (first, second) = if channels >= 2 {
        (ChannelPosition::FrontLeft, ChannelPosition::FrontRight)
    } else {
        (ChannelPosition::Mono, ChannelPosition::Unknown)
    };
    Some(StreamFormat { rate, channels, first, second })
}

/// The latency property of a stream, `quantum/rate`.
pub open spec fn latency_text(quantum: u32, rate: u32) -> Option<Seq<char>> {
    if quantum == 0 {
        None
    } else {
        Some(decimal(quantum as nat) + seq!['/'] + decimal(rate as nat))
    }
}

/// The latency property of a stream, `quantum/rate`. A quantum of 0 removes the property.
pub fn update_latency(quantum: u32, rate: u32) -> (value: Option<String>)
    ensures
        match value {
            Some(v) => latency_text(quantum, rate) == Some(v@),
            None => latency_text(quantum, rate) is None,
        },
{
    if quantum == 0 {
        return None;
    }
    proof {
        reveal_strlit("/");
    }
    let mut value: String = String::new();
    push_decimal(&mut value, quantum);
    value.append("/");
    push_decimal(&mut value, rate);
    assert(value@ =~= decimal(quantum as nat) + seq!['/'] + decimal(rate as nat));
    Some(value)
}

/// What the reader does with a datagram.
pub enum Datagram<'a> {
    /// Nothing.
    Ignored,
    /// Hands the announcement to the worker and waits until it is applied.
    Announce(FormatAnnouncement),
    /// Takes in microphone samples.
    Samples(&'a [u8]),
}

/// Sorts a datagram. One that is malformed or of an unknown type is ignored.
pub fn parse_audio_datagram(datagram: &[u8]) -> (r: Datagram<'_>)
    ensures
        match datagram_parts(datagram@) {
            Some((t, p)) => if t == AUDIO_MSG_FORMAT {
                match announcement_in(p) {
                    Some(format) => r == Datagram::Announce(format),
                    None => r is Ignored,
                }
            } else if t == AUDIO_MSG_PCM {
                r matches Datagram::Samples(samples) && samples@ == p
            } else {
                r is Ignored
            },
            None => r is Ignored,
        },
{
    let Some((message_type, payload)) = audio_datagram_payload(datagram) else {
        return Datagram::Ignored;
    };
    if message_type == AUDIO_MSG_FORMAT {
        match parse_format_announcement(payload) {
            Some(format) => Datagram::Announce(format),
            None => Datagram::Ignored,
        }
    } else if message_type == AUDIO_MSG_PCM {
        Datagram::Samples(payload)
    } else {
        Datagram::Ignored
    }
}

/// A datagram that was put together is taken apart into the same type and payload.
pub proof fn law_datagram_round_trip(message_type: u32, payload: Seq<u8>)
    requires
        payload.len() <= u32::MAX,
    ensures
        datagram_parts(datagram_header(message_type, payload.len() as u32) + payload) == Some(
            (message_type, payload),
        ),
{
    crate::bytes::law_u32_round_trip(message_type);
    crate::bytes::law_u32_round_trip(payload.len() as u32);
    let d = datagram_header(message_type, payload.len() as u32) + payload;
    assert(le32(d, 0) == le32(u32_bytes(message_type), 0));
    assert(le32(d, 4) == le32(u32_bytes(payload.len() as u32), 0));
    assert(d.skip(AUDIO_HEADER_BYTES as int) =~= payload);
}

/// A datagram with a payload of any other length than the header declares is refused.
pub proof fn law_wrong_length_is_refused(message_type: u32, declared: u32, payload: Seq<u8>)
    requires
        declared != payload.len(),
    ensures
        datagram_parts(datagram_header(message_type, declared) + payload) is None,
{
    crate::bytes::law_u32_round_trip(declared);
    let d = datagram_header(message_type, declared) + payload;
    assert(le32(d, 4) == le32(u32_bytes(declared), 0));
}

} // verus!
