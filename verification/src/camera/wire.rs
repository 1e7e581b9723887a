//! The messages of the camera service.
use vstd::prelude::*;

use crate::bytes::{le16_at, le32_at, push_all, push_u16};
#[allow(unused_imports)]
use crate::bytes::{le16, le32, u16_bytes};

verus! {

pub const MAX_CAMERAS: usize = 8;
/// The number of cameras, and four bytes for each.
pub const MAX_INFO_PAYLOAD: usize = 33;

pub const CTRL_GET_INFO: u8 = 0x01;
pub const CTRL_START_RECORD: u8 = 0x02;
pub const CTRL_STOP_RECORD: u8 = 0x03;
pub const CTRL_INFO_REPLY: u8 = 0x81;

pub const STREAM_GET_SHM: u8 = 1;
pub const STREAM_SHM_OFFER: u8 = 2;
pub const STREAM_READY: u8 = 3;
pub const STREAM_DONE: u8 = 4;
pub const STREAM_MESSAGE_BYTES: usize = 12;

/// A message on a camera's stream.
#[derive(Debug, Clone, Copy, PartialEq, Eq, Structural)]
pub struct StreamMessage {
    pub kind: u8,
    pub slot: u8,
    pub format: u16,
    pub a: u32,
    pub b: u32,
}

/// The message in twelve bytes.
pub open spec fn stream_message(bytes: Seq<u8>) -> StreamMessage {
    StreamMessage {
        kind: bytes[0],
        slot: bytes[1],
        format: le16(bytes, 2) as u16,
        a: le32(bytes, 4) as u32,
        b: le32(bytes, 8) as u32,
    }
}

impl StreamMessage {
    /// Reads a message.
    pub fn from_bytes(bytes: &[u8; 12]) -> (message: StreamMessage)
        ensures
            message == stream_message(bytes@),
    {
        let slice = bytes.as_slice();
        StreamMessage {
            kind: bytes[0],
            slot: bytes[1],
            format: le16_at(slice, 2),
            a: le32_at(slice, 4),
            b: le32_at(slice, 8),
        }
    }
}

/// The twelve bytes of a message that holds only a kind and a slot.
pub open spec fn stream_bytes(kind: u8, slot: u8) -> Seq<u8> {
    seq![kind, slot, 0, 0, 0, 0, 0, 0, 0, 0, 0, 0]
}

/// The bytes of a message to the camera service.
pub fn send_stream(kind: u8, slot: u8) -> (message: [u8; 12])
    ensures
        message@ == stream_bytes(kind, slot),
{
    let message: [u8; 12] = [kind, slot, 0, 0, 0, 0, 0, 0, 0, 0, 0, 0];
    assert(message@ =~= stream_bytes(kind, slot));
    message
}

/// What is sent reads back as the kind and the slot that were sent.
pub proof fn law_stream_messages_round_trip(kind: u8, slot: u8)
    ensures
        stream_bytes(kind, slot).len() == STREAM_MESSAGE_BYTES,
        stream_message(stream_bytes(kind, slot)) == (StreamMessage {
            kind,
            slot,
            format: 0,
            a: 0,
            b: 0,
        }),
{
}

/// The bytes of a control message: kind, a zero, the length of the payload, the payload.
pub open spec fn control_bytes(kind: u8, payload: Seq<u8>) -> Seq<u8> {
    seq![kind, 0u8] + u16_bytes(payload.len() as u16) + payload
}

/// The bytes of a control message, unless the payload is too long for one.
pub fn send_control(kind: u8, payload: &[u8]) -> (message: Option<Vec<u8>>)
    ensures
        match message {
            Some(m) => payload@.len() <= u16::MAX && m@ == control_bytes(kind, payload@),
            None => payload@.len() > u16::MAX,
        },
{
    if payload.len() > u16::MAX as usize {
        return None;
    }
    let mut message: Vec<u8> = Vec::new();
    message.push(kind);
    message.push(0);
    push_u16(&mut message, payload.len() as u16);
    push_all(&mut message, payload);
    assert(message@ =~= control_bytes(kind, payload@));
    Some(message)
}

/// What asks the camera service for its cameras.
pub fn get_info_message() -> (message: Vec<u8>)
    ensures
        message@ == control_bytes(CTRL_GET_INFO, Seq::empty()),
{
    let mut message: Vec<u8> = vec![CTRL_GET_INFO, 0];
    push_u16(&mut message, 0);
    assert(message@ =~= control_bytes(CTRL_GET_INFO, Seq::empty()));
    message
}

/// The payload that starts a recording.
pub open spec fn start_payload(camera: u8, width: u16, height: u16) -> Seq<u8> {
    seq![camera] + u16_bytes(width) + u16_bytes(height)
}

/// What starts a recording of one camera in this size.
pub fn start_record_message(camera: u8, width: u16, height: u16) -> (message: Vec<u8>)
    ensures
        message@ == control_bytes(CTRL_START_RECORD, start_payload(camera, width, height)),
{
    let mut message: Vec<u8> = vec![CTRL_START_RECORD, 0];
    push_u16(&mut message, 5);
    message.push(camera);
    push_u16(&mut message, width);
    push_u16(&mut message, height);
    assert(message@ =~= control_bytes(CTRL_START_RECORD, start_payload(camera, width, height)));
    message
}

/// What ends a recording.
pub fn stop_record_message(camera: u8) -> (message: Vec<u8>)
    ensures
        message@ == control_bytes(CTRL_STOP_RECORD, seq![camera]),
{
    let mut message: Vec<u8> = vec![CTRL_STOP_RECORD, 0];
    push_u16(&mut message, 1);
    message.push(camera);
    assert(message@ =~= control_bytes(CTRL_STOP_RECORD, seq![camera]));
    message
}

/// A message is sent only if all of it went out.
pub fn send_exact(moved: isize, len: usize) -> (sent: bool)
    ensures
        sent == (moved == len),
{
    moved >= 0 && moved as usize == len
}

/// The payload length in the header of a message, if it is one that a list of cameras can have.
pub open spec fn declared_payload(header: Seq<u8>) -> Option<usize> {
    if header.len() == 4 && 1 <= le16(header, 2) <= MAX_INFO_PAYLOAD {
        Some(le16(header, 2) as usize)
    } else {
        None
    }
}

/// The payload length in a header, if it is one that a list of cameras can have.
pub fn declared_info_payload(header: &[u8]) -> (declared: Option<usize>)
    ensures
        declared == declared_payload(header@),
{
    if header.len() != 4 {
        return None;
    }
    let declared: usize = le16_at(header, 2) as usize;
    if declared >= 1 && declared <= MAX_INFO_PAYLOAD {
        Some(declared)
    } else {
        None
    }
}

/// The payload length in the header of a list of cameras.
pub open spec fn info_header(header: Seq<u8>) -> Option<usize> {
    if header.len() > 0 && header[0] == CTRL_INFO_REPLY {
        declared_payload(header)
    } else {
        None
    }
}

/// The payload length in a header, if it heads a list of cameras.
pub fn validate_info_header(header: &[u8]) -> (declared: Option<usize>)
    ensures
        declared == info_header(header@),
{
    if header.len() > 0 && header[0] == CTRL_INFO_REPLY {
        declared_info_payload(header)
    } else {
        None
    }
}

/// The payload is a list of cameras, as long as declared and no longer than the number at its
/// start says.
pub open spec fn info_payload(payload: Seq<u8>, declared: usize) -> bool {
    &&& payload.len() == declared
    &&& payload.len() > 0
    &&& payload[0] <= MAX_CAMERAS
    &&& declared == 1 + payload[0] * 4
}

/// Tells whether the payload is a list of cameras.
pub fn validate_info_payload(payload: &[u8], declared: usize) -> (r: Option<()>)
    ensures
        r is Some == info_payload(payload@, declared),
{
    if payload.len() != declared {
        return None;
    }
    if payload.len() == 0 {
        return None;
    }
    let cameras: usize = payload[0] as usize;
    if cameras > MAX_CAMERAS || declared != 1 + cameras * 4 {
        return None;
    }
    Some(())
}

/// How many descriptors a control message of `len` bytes passes.
pub open spec fn rights_in(rights: bool, len: usize, header_len: usize, one_len: usize) -> int {
    if rights && len >= one_len && len >= header_len {
        (len - header_len) / 4
    } else {
        0
    }
}

/// How many descriptors a control message of `len` bytes passes, none if it is too short for one.
/// `header_len` is the length without a descriptor, `one_len` the length with one.
pub fn rights_count(rights: bool, len: usize, header_len: usize, one_len: usize) -> (count: usize)
    ensures
        count == rights_in(rights, len, header_len, one_len),
{
    if rights && len >= one_len && len >= header_len {
        (len - header_len) / 4
    } else {
        0
    }
}

/// How receiving from a stream ended.
#[derive(Debug, Clone, Copy, PartialEq, Eq, Structural)]
pub enum StreamOutcome {
    /// So many bytes; `truncated` tells that data or descriptors did not fit.
    Received { len: usize, truncated: bool },
    WouldBlock,
    Interrupted,
    Failed,
}

/// What a reader makes of it.
#[derive(Debug)]
pub enum ReceiveResult {
    /// A message, and the descriptors that came with it.
    Message(StreamMessage, Vec<i32>),
    /// Nothing for now; these descriptors came with what was no message, and are to be closed.
    Again(Vec<i32>),
    Closed,
    Error,
}

/// The same, as a plain value.
pub enum ReceiveModel {
    Message(StreamMessage, Seq<i32>),
    Again(Seq<i32>),
    Closed,
    Error,
}

impl View for ReceiveResult {
    type V = ReceiveModel;

    open spec fn view(&self) -> ReceiveModel {
        match self {
            ReceiveResult::Message(message, fds) => ReceiveModel::Message(*message, fds@),
            ReceiveResult::Again(fds) => ReceiveModel::Again(fds@),
            ReceiveResult::Closed => ReceiveModel::Closed,
            ReceiveResult::Error => ReceiveModel::Error,
        }
    }
}

/// What came from a stream: a message has exactly its length, with nothing cut off.
pub open spec fn sorted(outcome: StreamOutcome, bytes: Seq<u8>, fds: Seq<i32>) -> ReceiveModel {
    match outcome {
        StreamOutcome::Received { len, truncated } => if len == 0 {
            ReceiveModel::Closed
        } else if len != STREAM_MESSAGE_BYTES || truncated {
            ReceiveModel::Again(valid_fds(fds))
        } else {
            ReceiveModel::Message(stream_message(bytes), valid_fds(fds))
        },
        StreamOutcome::WouldBlock | StreamOutcome::Interrupted => ReceiveModel::Again(
            Seq::empty(),
        ),
        StreamOutcome::Failed => ReceiveModel::Error,
    }
}

/// The descriptors among `fds`.
pub open spec fn valid_fds(fds: Seq<i32>) -> Seq<i32> {
    fds.filter(|fd: i32| fd >= 0)
}

fn keep_valid(fds: &[i32]) -> (kept: Vec<i32>)
    ensures
        kept@ == valid_fds(fds@),
{
    let mut kept: Vec<i32> = Vec::new();
    let mut i: usize = 0;
    proof {
        reveal(Seq::filter);
        assert(fds@.take(0) =~= Seq::empty());
    }
    while i < fds.len()
        invariant
            i <= fds@.len(),
            kept@ == valid_fds(fds@.take(i as int)),
        decreases fds@.len() - i,
    {
        let fd = fds[i];
        proof {
            reveal(Seq::filter);
            assert(fds@.take(i + 1).drop_last() =~= fds@.take(i as int));
        }
        if fd >= 0 {
            kept.push(fd);
        }
        i += 1;
    }
    assert(fds@.take(i as int) =~= fds@);
    kept
}

/// Sorts what came from a stream: a message has exactly its length, with nothing cut off.
pub fn receive_stream_message(outcome: StreamOutcome, bytes: &[u8; 12], fds: &[i32]) -> (r:
    ReceiveResult)
    ensures
        r@ == sorted(outcome, bytes@, fds@),
{
    match outcome {
        StreamOutcome::WouldBlock => ReceiveResult::Again(Vec::new()),
        StreamOutcome::Interrupted => ReceiveResult::Again(Vec::new()),
        StreamOutcome::Failed => ReceiveResult::Error,
        StreamOutcome::Received { len, truncated } => {
            if len == 0 {
                return ReceiveResult::Closed;
            }
            let rights = keep_valid(fds);
            if len != STREAM_MESSAGE_BYTES || truncated {
                return ReceiveResult::Again(rights);
            }
            ReceiveResult::Message(StreamMessage::from_bytes(bytes), rights)
        },
    }
}

} // verus!
