//! Asking the camera service for the sizes of its cameras.
//!
//! The query decides, and something else talks to the socket: [`InfoQuery::resume`] takes how the
//! last action went and gives the next, until that is [`InfoAction::Finish`].
use vstd::prelude::*;

use crate::bytes::le16_at;
#[allow(unused_imports)]
use crate::bytes::le16;
#[allow(unused_imports)]
use crate::camera::frame::frame_bytes;
use crate::camera::frame::frame_size;
use crate::camera::wire::{
    validate_info_header, validate_info_payload, CTRL_INFO_REPLY, MAX_INFO_PAYLOAD,
};
#[allow(unused_imports)]
use crate::camera::wire::info_payload;

verus! {

/// How long the service has to answer.
pub const INFO_TIMEOUT_MS: u64 = 300;
/// The length of a message's header.
pub const INFO_HEADER_BYTES: usize = 4;
/// The length of the longest reply.
pub const INFO_REPLY_BYTES: usize = 37;
/// How much is thrown away at a time.
pub const DISCARD_BYTES: usize = 256;

/// Whether messages on the socket run into each other.
#[derive(Debug, Clone, Copy, PartialEq, Eq, Structural)]
pub enum SocketType {
    Stream,
    SeqPacket,
    Other,
}

/// What is to be done next. Nothing of it waits, except for `Wait`.
#[derive(Debug, Clone, Copy, PartialEq, Eq, Structural)]
pub enum InfoAction {
    /// Ask the service for its cameras.
    SendGetInfo,
    /// Find out what kind of socket this is.
    GetSocketType,
    /// Look at the next bytes, or at the next packet and its whole length.
    Peek { len: usize, packet: bool },
    /// Wait for more, but not beyond the deadline.
    Wait,
    /// Find out how many bytes there are.
    GetAvailable,
    /// Take in bytes.
    Receive { len: usize },
    /// Throw the next packet away.
    DiscardPacket,
    /// The query is over.
    Finish,
}

/// How the last action went.
#[derive(Debug)]
pub enum InfoReply {
    /// Whether the message went out.
    Sent(bool),
    /// The kind of socket, if it could be found out.
    Kind(Option<SocketType>),
    /// What there was to look at, and its whole length.
    Data { len: usize, data: Vec<u8> },
    /// So many bytes were taken in.
    Moved(usize),
    /// The other side is gone.
    Closed,
    /// There was nothing yet, or the call was interrupted.
    Again,
    Failed,
    /// Whether there may be more before the deadline.
    Waited(bool),
    /// How many bytes there are, if that could be found out.
    Available(Option<i32>),
    Discarded,
}

/// The same, as a plain value.
pub enum InfoReplyModel {
    Sent(bool),
    Kind(Option<SocketType>),
    Data { len: usize, data: Seq<u8> },
    Moved(usize),
    Closed,
    Again,
    Failed,
    Waited(bool),
    Available(Option<i32>),
    Discarded,
}

impl View for InfoReply {
    type V = InfoReplyModel;

    open spec fn view(&self) -> InfoReplyModel {
        match *self {
            InfoReply::Sent(ok) => InfoReplyModel::Sent(ok),
            InfoReply::Kind(kind) => InfoReplyModel::Kind(kind),
            InfoReply::Data { len, data } => InfoReplyModel::Data { len, data: data@ },
            InfoReply::Moved(n) => InfoReplyModel::Moved(n),
            InfoReply::Closed => InfoReplyModel::Closed,
            InfoReply::Again => InfoReplyModel::Again,
            InfoReply::Failed => InfoReplyModel::Failed,
            InfoReply::Waited(more) => InfoReplyModel::Waited(more),
            InfoReply::Available(n) => InfoReplyModel::Available(n),
            InfoReply::Discarded => InfoReplyModel::Discarded,
        }
    }
}

/// Where the query is.
#[derive(Debug, Clone, Copy, PartialEq, Eq, Structural)]
pub enum InfoPhase {
    Sending,
    Typing,
    /// Looking at the header; then waiting for the rest of it.
    Header,
    HeaderWait,
    /// Counting whether the message is there; then waiting for the rest of it.
    Counting { total: usize },
    CountingWait { total: usize },
    /// Looking at the message.
    Body { total: usize },
    /// Taking in `left` bytes, `chunk` of them next; then waiting for them.
    Draining { left: usize, chunk: usize, valid: bool },
    DrainingWait { left: usize, chunk: usize, valid: bool },
    Packet,
    PacketWait,
    TakingPacket { size: usize },
    DroppingPacket,
    Finished,
}

/// A query for the sizes of `count` cameras.
pub struct InfoQuery {
    pub count: usize,
    pub phase: InfoPhase,
    /// A list of cameras was found: it is in `reply`.
    pub found: bool,
    pub reply: Vec<u8>,
}

/// The same, as a plain value.
pub struct InfoModel {
    pub count: usize,
    pub phase: InfoPhase,
    pub found: bool,
    pub reply: Seq<u8>,
}

impl View for InfoQuery {
    type V = InfoModel;

    open spec fn view(&self) -> InfoModel {
        InfoModel {
            count: self.count,
            phase: self.phase,
            found: self.found,
            reply: self.reply@,
        }
    }
}

/// A whole message that holds a list of cameras.
pub open spec fn is_info_reply(reply: Seq<u8>) -> bool {
    &&& INFO_HEADER_BYTES < reply.len() <= INFO_REPLY_BYTES
    &&& reply[0] == CTRL_INFO_REPLY
    &&& le16(reply, 2) == reply.len() - INFO_HEADER_BYTES
    &&& info_payload(
        reply.skip(INFO_HEADER_BYTES as int),
        (reply.len() - INFO_HEADER_BYTES) as usize,
    )
}

/// The size of one camera in a list: nothing where the list does not reach, or says what no frame
/// can be.
pub open spec fn listed_size(reply: Seq<u8>, index: int) -> (u32, u32) {
    let offset = 5 + index * 4;
    let width = le16(reply, offset) as u32;
    let height = le16(reply, offset + 2) as u32;
    if index < reply[4] && frame_bytes(width, height) is Some {
        (width, height)
    } else {
        (0, 0)
    }
}

pub open spec fn smaller(a: int, b: int) -> int {
    if a < b {
        a
    } else {
        b
    }
}

impl InfoModel {
    /// What holds of every query.
    pub open spec fn wf(self) -> bool {
        &&& self.found ==> is_info_reply(self.reply) && self.phase is Finished
        &&& match self.phase {
            InfoPhase::Counting { total } | InfoPhase::CountingWait { total } => total
                >= INFO_HEADER_BYTES,
            InfoPhase::Body { total } => INFO_HEADER_BYTES < total <= INFO_REPLY_BYTES,
            InfoPhase::Draining { left, chunk, valid }
            | InfoPhase::DrainingWait { left, chunk, valid } => 0 < chunk <= left && (valid
                ==> is_info_reply(self.reply)),
            InfoPhase::TakingPacket { size } => is_info_reply(self.reply) && size
                == self.reply.len(),
            _ => true,
        }
    }

    /// The sizes of the cameras that were asked for.
    pub open spec fn initial_sizes(self) -> Seq<(u32, u32)> {
        Seq::new(
            self.count as nat,
            |i: int|
                if self.found {
                    listed_size(self.reply, i)
                } else {
                    (0u32, 0u32)
                },
        )
    }

    pub open spec fn at(self, phase: InfoPhase, action: InfoAction) -> (InfoModel, InfoAction) {
        (InfoModel { phase, ..self }, action)
    }

    /// The query ends without a list.
    pub open spec fn given_up(self) -> (InfoModel, InfoAction) {
        (InfoModel { phase: InfoPhase::Finished, found: false, ..self }, InfoAction::Finish)
    }

    /// The query ends with the list that it looked at.
    pub open spec fn finished(self) -> (InfoModel, InfoAction) {
        (InfoModel { phase: InfoPhase::Finished, found: true, ..self }, InfoAction::Finish)
    }

    pub open spec fn looking_at_header(self) -> (InfoModel, InfoAction) {
        self.at(
            InfoPhase::Header,
            InfoAction::Peek { len: INFO_HEADER_BYTES, packet: false },
        )
    }

    pub open spec fn looking_at_packet(self) -> (InfoModel, InfoAction) {
        self.at(InfoPhase::Packet, InfoAction::Peek { len: INFO_REPLY_BYTES, packet: true })
    }

    pub open spec fn counting(self, total: usize) -> (InfoModel, InfoAction) {
        self.at(InfoPhase::Counting { total }, InfoAction::GetAvailable)
    }

    /// Takes in `left` bytes in stretches of at most `most`.
    pub open spec fn draining(self, left: usize, most: usize, valid: bool) -> (
        InfoModel,
        InfoAction,
    ) {
        let chunk = smaller(left as int, most as int) as usize;
        self.at(InfoPhase::Draining { left, chunk, valid }, InfoAction::Receive { len: chunk })
    }

    /// All of the message is there: one that no list can be is thrown away, another is looked at.
    pub open spec fn message_there(self, total: usize) -> (InfoModel, InfoAction) {
        if INFO_HEADER_BYTES < total <= INFO_REPLY_BYTES {
            self.at(InfoPhase::Body { total }, InfoAction::Peek { len: total, packet: false })
        } else {
            self.draining(total, DISCARD_BYTES, false)
        }
    }

    /// `n` of the bytes to be taken in came.
    pub open spec fn moved(self, left: usize, chunk: usize, valid: bool, n: usize) -> (
        InfoModel,
        InfoAction,
    ) {
        if n == 0 || n > chunk {
            self.given_up()
        } else if n < chunk {
            let phase = InfoPhase::Draining {
                left: (left - n) as usize,
                chunk: (chunk - n) as usize,
                valid,
            };
            self.at(phase, InfoAction::Receive { len: (chunk - n) as usize })
        } else if n < left {
            self.draining((left - n) as usize, DISCARD_BYTES, valid)
        } else if valid {
            self.finished()
        } else {
            self.given_up()
        }
    }

    /// A packet is there: one that holds a list is taken in, another is thrown away.
    pub open spec fn packet_there(self, len: usize, data: Seq<u8>) -> (InfoModel, InfoAction) {
        if data.len() == len && is_info_reply(data) {
            InfoModel { reply: data, ..self }.at(
                InfoPhase::TakingPacket { size: len },
                InfoAction::Receive { len },
            )
        } else {
            self.at(InfoPhase::DroppingPacket, InfoAction::DiscardPacket)
        }
    }

    /// What follows `reply`. One that does not belong to the last action ends the query.
    pub open spec fn resumed(self, reply: InfoReplyModel) -> (InfoModel, InfoAction) {
        match (self.phase, reply) {
            (InfoPhase::Sending, InfoReplyModel::Sent(true)) => self.at(
                InfoPhase::Typing,
                InfoAction::GetSocketType,
            ),
            (
                InfoPhase::Typing,
                InfoReplyModel::Kind(Some(SocketType::Stream)),
            ) => self.looking_at_header(),
            (
                InfoPhase::Typing,
                InfoReplyModel::Kind(Some(SocketType::SeqPacket)),
            ) => self.looking_at_packet(),
            (InfoPhase::Header, InfoReplyModel::Data { data, .. }) => if data.len() == 0 {
                self.given_up()
            } else if data.len() == INFO_HEADER_BYTES {
                self.counting((INFO_HEADER_BYTES + le16(data, 2)) as usize)
            } else {
                self.at(InfoPhase::HeaderWait, InfoAction::Wait)
            },
            (InfoPhase::Header, InfoReplyModel::Again) => self.at(
                InfoPhase::HeaderWait,
                InfoAction::Wait,
            ),
            (InfoPhase::HeaderWait, InfoReplyModel::Waited(true)) => self.looking_at_header(),
            (InfoPhase::Counting { total }, InfoReplyModel::Available(Some(n))) => if n >= 0 && n
                >= total {
                self.message_there(total)
            } else {
                self.at(InfoPhase::CountingWait { total }, InfoAction::Wait)
            },
            (InfoPhase::CountingWait { total }, InfoReplyModel::Waited(true)) => self.counting(
                total,
            ),
            (InfoPhase::Body { total }, InfoReplyModel::Data { data, .. }) => if data.len()
                == total {
                InfoModel { reply: data, ..self }.draining(total, total, is_info_reply(data))
            } else {
                self.given_up()
            },
            (
                InfoPhase::Draining { left, chunk, valid },
                InfoReplyModel::Moved(n),
            ) => self.moved(left, chunk, valid, n),
            (InfoPhase::Draining { left, chunk, valid }, InfoReplyModel::Again) => self.at(
                InfoPhase::DrainingWait { left, chunk, valid },
                InfoAction::Wait,
            ),
            (
                InfoPhase::DrainingWait { left, chunk, valid },
                InfoReplyModel::Waited(true),
            ) => self.at(
                InfoPhase::Draining { left, chunk, valid },
                InfoAction::Receive { len: chunk },
            ),
            (InfoPhase::Packet, InfoReplyModel::Data { len, data }) => if len == 0 {
                self.given_up()
            } else {
                self.packet_there(len, data)
            },
            (InfoPhase::Packet, InfoReplyModel::Again) => self.at(
                InfoPhase::PacketWait,
                InfoAction::Wait,
            ),
            (InfoPhase::PacketWait, InfoReplyModel::Waited(true)) => self.looking_at_packet(),
            (InfoPhase::TakingPacket { size }, InfoReplyModel::Moved(n)) => if n == size {
                self.finished()
            } else {
                self.given_up()
            },
            _ => self.given_up(),
        }
    }
}

/// Tells whether a whole message holds a list of cameras.
fn check_reply(reply: &[u8]) -> (valid: bool)
    ensures
        valid == is_info_reply(reply@),
{
    if reply.len() < INFO_HEADER_BYTES || reply.len() > INFO_REPLY_BYTES {
        return false;
    }
    let header = vstd::slice::slice_subrange(reply, 0, INFO_HEADER_BYTES);
    let payload = vstd::slice::slice_subrange(reply, INFO_HEADER_BYTES, reply.len());
    assert(payload@ =~= reply@.skip(INFO_HEADER_BYTES as int));
    assert(le16(header@, 2) == le16(reply@, 2));
    match validate_info_header(header) {
        Some(declared) => declared == reply.len() - INFO_HEADER_BYTES && validate_info_payload(
            payload,
            declared,
        ).is_some(),
        None => false,
    }
}

impl InfoQuery {
    /// What holds of every query.
    pub open spec fn wf(&self) -> bool {
        self@.wf()
    }

    /// A query, and its first action.
    pub fn new(count: usize) -> (r: (InfoQuery, InfoAction))
        ensures
            r.0.wf(),
            r.0@ == (InfoModel {
                count,
                phase: InfoPhase::Sending,
                found: false,
                reply: Seq::empty(),
            }),
            r.1 == InfoAction::SendGetInfo,
    {
        let query = InfoQuery {
            count,
            phase: InfoPhase::Sending,
            found: false,
            reply: Vec::new(),
        };
        (query, InfoAction::SendGetInfo)
    }

    fn give_up(&mut self) -> (action: InfoAction)
        ensures
            (final(self)@, action) == old(self)@.given_up(),
    {
        self.found = false;
        self.phase = InfoPhase::Finished;
        InfoAction::Finish
    }

    fn drain(&mut self, left: usize, most: usize, valid: bool) -> (action: InfoAction)
        ensures
            (final(self)@, action) == old(self)@.draining(left, most, valid),
    {
        let chunk: usize = if left < most {
            left
        } else {
            most
        };
        self.phase = InfoPhase::Draining { left, chunk, valid };
        InfoAction::Receive { len: chunk }
    }

    /// Looks at the header of a reply on a stream socket.
    fn receive_info_stream(&mut self) -> (action: InfoAction)
        ensures
            (final(self)@, action) == old(self)@.looking_at_header(),
    {
        self.phase = InfoPhase::Header;
        InfoAction::Peek { len: INFO_HEADER_BYTES, packet: false }
    }

    /// Looks at a reply on a packet socket.
    fn receive_info_packet(&mut self) -> (action: InfoAction)
        ensures
            (final(self)@, action) == old(self)@.looking_at_packet(),
    {
        self.phase = InfoPhase::Packet;
        InfoAction::Peek { len: INFO_REPLY_BYTES, packet: true }
    }

    /// Finds out whether a whole message is there.
    fn wait_for_info_message(&mut self, total: usize) -> (action: InfoAction)
        ensures
            (final(self)@, action) == old(self)@.counting(total),
    {
        self.phase = InfoPhase::Counting { total };
        InfoAction::GetAvailable
    }

    fn wait_in(&mut self, phase: InfoPhase) -> (action: InfoAction)
        ensures
            (final(self)@, action) == old(self)@.at(phase, InfoAction::Wait),
    {
        self.phase = phase;
        InfoAction::Wait
    }

    fn take_message(&mut self, total: usize) -> (action: InfoAction)
        ensures
            (final(self)@, action) == old(self)@.message_there(total),
    {
        if total > INFO_HEADER_BYTES && total <= INFO_HEADER_BYTES + MAX_INFO_PAYLOAD {
            self.phase = InfoPhase::Body { total };
            InfoAction::Peek { len: total, packet: false }
        } else {
            self.drain(total, DISCARD_BYTES, false)
        }
    }

    /// Counts bytes that were taken in.
    fn recv_exact(&mut self, left: usize, chunk: usize, valid: bool, n: usize) -> (action:
        InfoAction)
        requires
            chunk <= left,
        ensures
            (final(self)@, action) == old(self)@.moved(left, chunk, valid, n),
    {
        if n == 0 || n > chunk {
            return self.give_up();
        }
        if n < chunk {
            self.phase = InfoPhase::Draining { left: left - n, chunk: chunk - n, valid };
            return InfoAction::Receive { len: chunk - n };
        }
        if n < left {
            return self.drain(left - n, DISCARD_BYTES, valid);
        }
        if valid {
            self.found = true;
            self.phase = InfoPhase::Finished;
            return InfoAction::Finish;
        }
        self.give_up()
    }

    fn take_packet(&mut self, len: usize, data: Vec<u8>) -> (action: InfoAction)
        ensures
            (final(self)@, action) == old(self)@.packet_there(len, data@),
    {
        if data.len() == len && check_reply(data.as_slice()) {
            self.reply = data;
            self.phase = InfoPhase::TakingPacket { size: len };
            InfoAction::Receive { len }
        } else {
            self.phase = InfoPhase::DroppingPacket;
            InfoAction::DiscardPacket
        }
    }

    /// Takes how the last action went, and says what is next.
    pub fn resume(&mut self, reply: InfoReply) -> (action: InfoAction)
        requires
            old(self).wf(),
        ensures
            final(self).wf(),
            (final(self)@, action) == old(self)@.resumed(reply@),
    {
        match (self.phase, reply) {
            (InfoPhase::Sending, InfoReply::Sent(sent)) => {
                if !sent {
                    return self.give_up();
                }
                self.phase = InfoPhase::Typing;
                InfoAction::GetSocketType
            },
            (InfoPhase::Typing, InfoReply::Kind(kind)) => match kind {
                Some(SocketType::Stream) => self.receive_info_stream(),
                Some(SocketType::SeqPacket) => self.receive_info_packet(),
                _ => self.give_up(),
            },
            (InfoPhase::Header, InfoReply::Data { len: _, data }) => {
                if data.len() == 0 {
                    return self.give_up();
                }
                if data.len() != INFO_HEADER_BYTES {
                    return self.wait_in(InfoPhase::HeaderWait);
                }
                let declared: usize = le16_at(data.as_slice(), 2) as usize;
                self.wait_for_info_message(INFO_HEADER_BYTES + declared)
            },
            (InfoPhase::Header, InfoReply::Again) => self.wait_in(InfoPhase::HeaderWait),
            (InfoPhase::HeaderWait, InfoReply::Waited(more)) => {
                if more {
                    self.receive_info_stream()
                } else {
                    self.give_up()
                }
            },
            (InfoPhase::Counting { total }, InfoReply::Available(available)) => match available {
                Some(n) => {
                    if n >= 0 && n as usize >= total {
                        self.take_message(total)
                    } else {
                        self.wait_in(InfoPhase::CountingWait { total })
                    }
                },
                None => self.give_up(),
            },
            (InfoPhase::CountingWait { total }, InfoReply::Waited(more)) => {
                if more {
                    self.wait_for_info_message(total)
                } else {
                    self.give_up()
                }
            },
            (InfoPhase::Body { total }, InfoReply::Data { len: _, data }) => {
                if data.len() != total {
                    return self.give_up();
                }
                let valid = check_reply(data.as_slice());
                self.reply = data;
                self.drain(total, total, valid)
            },
            (InfoPhase::Draining { left, chunk, valid }, InfoReply::Moved(n)) => {
                self.recv_exact(left, chunk, valid, n)
            },
            (InfoPhase::Draining { left, chunk, valid }, InfoReply::Again) => {
                self.wait_in(InfoPhase::DrainingWait { left, chunk, valid })
            },
            (InfoPhase::DrainingWait { left, chunk, valid }, InfoReply::Waited(more)) => {
                if !more {
                    return self.give_up();
                }
                self.phase = InfoPhase::Draining { left, chunk, valid };
                InfoAction::Receive { len: chunk }
            },
            (InfoPhase::Packet, InfoReply::Data { len, data }) => {
                if len == 0 {
                    return self.give_up();
                }
                self.take_packet(len, data)
            },
            (InfoPhase::Packet, InfoReply::Again) => self.wait_in(InfoPhase::PacketWait),
            (InfoPhase::PacketWait, InfoReply::Waited(more)) => {
                if more {
                    self.receive_info_packet()
                } else {
                    self.give_up()
                }
            },
            (InfoPhase::TakingPacket { size }, InfoReply::Moved(n)) => {
                if n != size {
                    return self.give_up();
                }
                self.found = true;
                self.phase = InfoPhase::Finished;
                InfoAction::Finish
            },
            _ => self.give_up(),
        }
    }

    /// The sizes of the cameras that were asked for.
    pub fn query_initial_sizes(&self) -> (sizes: Vec<(u32, u32)>)
        requires
            self.wf(),
        ensures
            sizes@ == self@.initial_sizes(),
    {
        let mut sizes: Vec<(u32, u32)> = Vec::new();
        let mut i: usize = 0;
        while i < self.count
            invariant
                self.wf(),
                i <= self.count,
                sizes@.len() == i,
                forall|j: int|
                    0 <= j < i ==> #[trigger] sizes@[j] == (if self.found {
                        listed_size(self.reply@, j)
                    } else {
                        (0u32, 0u32)
                    }),
            decreases self.count - i,
        {
            let size = if self.found {
                self.size_in_list(i)
            } else {
                (0, 0)
            };
            sizes.push(size);
            i += 1;
        }
        assert(sizes@ =~= self@.initial_sizes());
        sizes
    }

    fn size_in_list(&self, index: usize) -> (size: (u32, u32))
        requires
            self.wf(),
            self.found,
        ensures
            size == listed_size(self.reply@, index as int),
    {
        let reply = self.reply.as_slice();
        assert(reply@.skip(4)[0] == reply@[4]);
        if index >= reply[4] as usize {
            return (0, 0);
        }
        let offset: usize = 5 + index * 4;
        let width: u32 = le16_at(reply, offset) as u32;
        let height: u32 = le16_at(reply, offset + 2) as u32;
        if frame_size(width, height).is_some() {
            (width, height)
        } else {
            (0, 0)
        }
    }
}

/// How waiting for the service ended.
#[derive(Debug, Clone, Copy, PartialEq, Eq, Structural)]
pub enum WaitOutcome {
    Interrupted,
    Failed,
    TimedOut,
    /// Something came; `broken` tells that it is an error.
    Ready { broken: bool },
}

/// What decides whether there may be more.
#[derive(Debug, Clone, Copy, PartialEq, Eq, Structural)]
pub enum WaitNext {
    /// There will be no more.
    GiveUp,
    /// There may be more, unless the deadline is over.
    CheckDeadline,
    /// The same after a moment, for the rest of a message to come.
    SleepThenCheckDeadline,
}

/// How many milliseconds to wait, at least one and as many as fit.
pub open spec fn wait_ms(remaining_ms: Option<u128>) -> Option<i32> {
    match remaining_ms {
        Some(ms) => Some(
            (if ms > i32::MAX {
                i32::MAX as int
            } else if ms < 1 {
                1
            } else {
                ms as int
            }) as i32,
        ),
        None => None,
    }
}

/// What follows a wait.
pub open spec fn after_wait(outcome: WaitOutcome) -> WaitNext {
    match outcome {
        WaitOutcome::Interrupted => WaitNext::CheckDeadline,
        WaitOutcome::Ready { broken: false } => WaitNext::SleepThenCheckDeadline,
        _ => WaitNext::GiveUp,
    }
}

/// How many milliseconds to wait for the service, at least one. `remaining_ms` is the time up to
/// the deadline, or nothing if that is over.
pub fn info_wait_timeout(remaining_ms: Option<u128>) -> (timeout: Option<i32>)
    ensures
        timeout == wait_ms(remaining_ms),
{
    match remaining_ms {
        Some(ms) => {
            let timeout: i32 = if ms > i32::MAX as u128 {
                i32::MAX
            } else if ms < 1 {
                1
            } else {
                ms as i32
            };
            Some(timeout)
        },
        None => None,
    }
}

/// What follows a wait.
pub fn wait_for_info_data(outcome: WaitOutcome) -> (next: WaitNext)
    ensures
        next == after_wait(outcome),
{
    match outcome {
        WaitOutcome::Interrupted => WaitNext::CheckDeadline,
        WaitOutcome::Failed => WaitNext::GiveUp,
        WaitOutcome::TimedOut => WaitNext::GiveUp,
        WaitOutcome::Ready { broken } => if broken {
            WaitNext::GiveUp
        } else {
            WaitNext::SleepThenCheckDeadline
        },
    }
}

/// A size that the service names is one that frames can have; every other camera has none.
pub proof fn law_sizes_are_frames_or_nothing(reply: Seq<u8>, index: int)
    ensures
        ({
            let (width, height) = listed_size(reply, index);
            (width, height) == (0u32, 0u32) || frame_bytes(width, height) is Some
        }),
{
}

/// A list is found only in a valid reply, and only after all of it was taken in: the query that
/// finds one was just told of the last byte.
pub proof fn law_found_lists_are_valid_and_taken_in(query: InfoModel, reply: InfoReplyModel)
    requires
        query.wf(),
        !query.found,
    ensures
        query.resumed(reply).0.wf(),
        query.resumed(reply).0.found ==> ({
            &&& is_info_reply(query.resumed(reply).0.reply)
            &&& match query.phase {
                InfoPhase::Draining { left, chunk, .. } => left == chunk && reply
                    == InfoReplyModel::Moved(left),
                InfoPhase::TakingPacket { size } => reply == InfoReplyModel::Moved(size),
                _ => false,
            }
        }),
{
}

} // verus!
