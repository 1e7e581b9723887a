//! What the bytes and the memory of the camera service mean.
use vstd::prelude::*;

use crate::bytes::{
    law_u16_round_trip, law_u32_round_trip, le16, le32, u16_bytes, u32_bytes,
};
use crate::camera::frame::{
    buffer_offer, format_offer, frame_bytes, known_format, node_format, VideoFormat,
};
use crate::camera::info::{
    after_wait, is_info_reply, listed_size, wait_ms, InfoAction, InfoModel, InfoPhase,
    InfoReplyModel, SocketType, WaitOutcome,
};
use crate::camera::mapping::Mapping;
use crate::camera::wire::{
    control_bytes, rights_in, sorted, start_payload, stream_message, valid_fds, ReceiveModel,
    StreamMessage, StreamOutcome, CTRL_GET_INFO, CTRL_START_RECORD, CTRL_STOP_RECORD, STREAM_DONE,
    STREAM_GET_SHM, STREAM_READY, STREAM_SHM_OFFER,
};

verus! {

/// The bytes of some sizes, width and height of each, one after the other.
pub open spec fn sizes_bytes(sizes: Seq<(u16, u16)>) -> Seq<u8>
    decreases sizes.len(),
{
    if sizes.len() == 0 {
        Seq::empty()
    } else {
        sizes_bytes(sizes.drop_last()) + u16_bytes(sizes.last().0) + u16_bytes(sizes.last().1)
    }
}

/// What the service replies for cameras of these sizes: the kind, a zero, the length of what
/// follows, the number of cameras, and their sizes.
pub open spec fn list_bytes(sizes: Seq<(u16, u16)>) -> Seq<u8> {
    seq![0x81u8, 0u8] + u16_bytes((1 + 4 * sizes.len()) as u16) + seq![sizes.len() as u8]
        + sizes_bytes(sizes)
}

proof fn lemma_size_at(sizes: Seq<(u16, u16)>, i: int)
    requires
        0 <= i < sizes.len(),
    ensures
        sizes_bytes(sizes).len() == 4 * sizes.len(),
        le16(sizes_bytes(sizes), 4 * i) == sizes[i].0,
        le16(sizes_bytes(sizes), 4 * i + 2) == sizes[i].1,
    decreases sizes.len(),
{
    lemma_sizes_len(sizes);
    let init = sizes.drop_last();
    lemma_sizes_len(init);
    let (w, h) = sizes.last();
    law_u16_round_trip(w);
    law_u16_round_trip(h);
    let s = sizes_bytes(sizes);
    if i < init.len() {
        lemma_size_at(init, i);
        assert(le16(s, 4 * i) == le16(sizes_bytes(init), 4 * i));
        assert(le16(s, 4 * i + 2) == le16(sizes_bytes(init), 4 * i + 2));
    } else {
        assert(le16(s, 4 * i) == le16(u16_bytes(w), 0));
        assert(le16(s, 4 * i + 2) == le16(u16_bytes(h), 0));
    }
}

proof fn lemma_sizes_len(sizes: Seq<(u16, u16)>)
    ensures
        sizes_bytes(sizes).len() == 4 * sizes.len(),
    decreases sizes.len(),
{
    if sizes.len() > 0 {
        lemma_sizes_len(sizes.drop_last());
    }
}

/// The sizes that the service lists are read back, each at the place of its camera. A size that no
/// frame can have counts as none, and so does a camera that is not listed.
pub proof fn law_listed_sizes_round_trip(sizes: Seq<(u16, u16)>, i: int)
    requires
        sizes.len() <= 8,
        0 <= i,
    ensures
        is_info_reply(list_bytes(sizes)),
        i < sizes.len() && frame_bytes(sizes[i].0 as u32, sizes[i].1 as u32) is Some ==> listed_size(
            list_bytes(sizes),
            i,
        ) == (sizes[i].0 as u32, sizes[i].1 as u32),
        i < sizes.len() && frame_bytes(sizes[i].0 as u32, sizes[i].1 as u32) is None ==> listed_size(
            list_bytes(sizes),
            i,
        ) == (0u32, 0u32),
        i >= sizes.len() ==> listed_size(list_bytes(sizes), i) == (0u32, 0u32),
{
    let reply = list_bytes(sizes);
    let n = (1 + 4 * sizes.len()) as u16;
    lemma_sizes_len(sizes);
    law_u16_round_trip(n);
    assert(le16(reply, 2) == le16(u16_bytes(n), 0));
    assert(reply[4] == sizes.len());
    assert(reply.skip(4)[0] == reply[4]);
    if i < sizes.len() {
        lemma_size_at(sizes, i);
        assert(le16(reply, 5 + i * 4) == le16(sizes_bytes(sizes), 4 * i));
        assert(le16(reply, 5 + i * 4 + 2) == le16(sizes_bytes(sizes), 4 * i + 2));
    }
}

/// What is no list is refused: another kind, a length that is not that of the message, more than
/// eight cameras, or another number of bytes than four for each camera.
pub proof fn law_what_is_no_list_is_refused(reply: Seq<u8>)
    requires
        is_info_reply(reply),
    ensures
        reply[0] == 0x81,
        reply[4] <= 8,
        reply.len() == 5 + 4 * reply[4],
        le16(reply, 2) == 1 + 4 * reply[4],
{
    assert(reply.skip(4)[0] == reply[4]);
}

/// On a stream socket, a list that is there is looked at, taken in as a whole, and found.
pub proof fn law_a_list_is_found_on_a_stream(count: usize, sizes: Seq<(u16, u16)>, available: i32)
    requires
        sizes.len() <= 8,
        available >= 5 + 4 * sizes.len(),
    ensures
        ({
            let reply = list_bytes(sizes);
            let total = (5 + 4 * sizes.len()) as usize;
            let q = InfoModel {
                count,
                phase: InfoPhase::Sending,
                found: false,
                reply: Seq::empty(),
            };
            let (q1, a1) = q.resumed(InfoReplyModel::Sent(true));
            let (q2, a2) = q1.resumed(InfoReplyModel::Kind(Some(SocketType::Stream)));
            let (q3, a3) = q2.resumed(
                InfoReplyModel::Data { len: 4, data: reply.take(4) },
            );
            let (q4, a4) = q3.resumed(InfoReplyModel::Available(Some(available)));
            let (q5, a5) = q4.resumed(InfoReplyModel::Data { len: total, data: reply });
            let (q6, a6) = q5.resumed(InfoReplyModel::Moved(total));
            &&& a1 is GetSocketType
            &&& a2 == (InfoAction::Peek { len: 4, packet: false })
            &&& a3 is GetAvailable
            &&& a4 == (InfoAction::Peek { len: total, packet: false })
            &&& a5 == (InfoAction::Receive { len: total })
            &&& a6 is Finish && q6.found && q6.reply == reply && q6.count == count
        }),
{
    law_listed_sizes_round_trip(sizes, 0);
    let reply = list_bytes(sizes);
    lemma_sizes_len(sizes);
    law_what_is_no_list_is_refused(reply);
    assert(reply.len() == 5 + 4 * sizes.len());
    assert(le16(reply.take(4), 2) == le16(reply, 2));
}

/// On a packet socket, a packet that is a list is taken in and found; any other is thrown away.
pub proof fn law_a_list_is_found_in_a_packet(
    count: usize,
    sizes: Seq<(u16, u16)>,
    other: Seq<u8>,
    len: usize,
)
    requires
        sizes.len() <= 8,
    ensures
        ({
            let reply = list_bytes(sizes);
            let total = (5 + 4 * sizes.len()) as usize;
            let q = InfoModel {
                count,
                phase: InfoPhase::Typing,
                found: false,
                reply: Seq::empty(),
            };
            let (q1, a1) = q.resumed(InfoReplyModel::Kind(Some(SocketType::SeqPacket)));
            let (q2, a2) = q1.resumed(InfoReplyModel::Data { len: total, data: reply });
            let (q3, a3) = q2.resumed(InfoReplyModel::Moved(total));
            &&& a1 == (InfoAction::Peek { len: 37, packet: true })
            &&& a2 == (InfoAction::Receive { len: total })
            &&& a3 is Finish && q3.found && q3.reply == reply && q3.count == count
            &&& len > 0 && (other.len() != len || !is_info_reply(other)) ==> ({
                let (q4, a4) = q1.resumed(InfoReplyModel::Data { len, data: other });
                let (q5, a5) = q4.resumed(InfoReplyModel::Discarded);
                a4 is DiscardPacket && a5 is Finish && !q5.found
            })
        }),
{
    law_listed_sizes_round_trip(sizes, 0);
    lemma_sizes_len(sizes);
}

/// What is not there yet is waited for, and what cannot come any more ends the query without a
/// list. A message that is no list is taken in all the same, in pieces of at most 256 bytes.
pub proof fn law_queries_wait_or_give_up(q: InfoModel, more: bool, n: i32, header: Seq<u8>)
    requires
        q.wf(),
    ensures
        q.phase is Header || q.phase is Packet || q.phase is Draining ==> q.resumed(
            InfoReplyModel::Again,
        ).1 is Wait,
        q.phase is Header && 0 < header.len() < 4 ==> q.resumed(
            InfoReplyModel::Data { len: 4, data: header },
        ).1 is Wait,
        q.phase is Header ==> ({
            let (next, action) = q.resumed(InfoReplyModel::Data { len: 4, data: Seq::empty() });
            action is Finish && !next.found
        }),
        q.phase is Packet ==> ({
            let (next, action) = q.resumed(InfoReplyModel::Data { len: 0, data: header });
            action is Finish && !next.found
        }),
        q.phase is Sending ==> q.resumed(InfoReplyModel::Sent(false)).1 is Finish,
        q.phase is Typing ==> {
            &&& q.resumed(InfoReplyModel::Kind(None)).1 is Finish
            &&& q.resumed(InfoReplyModel::Kind(Some(SocketType::Other))).1 is Finish
        },
        q.phase is Counting ==> q.resumed(InfoReplyModel::Available(None)).1 is Finish,
        q.phase matches InfoPhase::Counting { total } && n < total ==> q.resumed(
            InfoReplyModel::Available(Some(n)),
        ).1 is Wait,
        q.phase matches InfoPhase::Counting { total } ==> (total > 37 && n >= total ==> ({
            let (next, action) = q.resumed(InfoReplyModel::Available(Some(n)));
            &&& action == (InfoAction::Receive {
                len: if total <= 256 {
                    total
                } else {
                    256
                },
            })
            &&& next.phase matches InfoPhase::Draining { left, valid, .. } && left == total
                && !valid
        })),
        q.phase is HeaderWait ==> q.resumed(InfoReplyModel::Waited(true)).1 == (InfoAction::Peek {
            len: 4,
            packet: false,
        }),
        q.phase is PacketWait ==> q.resumed(InfoReplyModel::Waited(true)).1 == (InfoAction::Peek {
            len: 37,
            packet: true,
        }),
        q.phase is CountingWait ==> q.resumed(InfoReplyModel::Waited(true)).1 is GetAvailable,
        q.phase matches InfoPhase::DrainingWait { chunk, .. } ==> q.resumed(
            InfoReplyModel::Waited(true),
        ).1 == (InfoAction::Receive { len: chunk }),
        q.phase is HeaderWait || q.phase is PacketWait || q.phase is CountingWait
            || q.phase is DrainingWait ==> ({
            let (next, action) = q.resumed(InfoReplyModel::Waited(false));
            action is Finish && !next.found
        }),
        ({
            let (next, action) = q.resumed(InfoReplyModel::Failed);
            action is Finish && !next.found
        }),
        ({
            let (next, action) = q.resumed(InfoReplyModel::Closed);
            action is Finish && !next.found
        }),
{
}

/// A message is taken in to its last byte: as long as some are left, so many less are, and more are
/// received; with the last one the query is over, and has found what it looked at if that is a
/// list.
pub proof fn law_messages_are_taken_in_whole(q: InfoModel, n: usize)
    requires
        q.wf(),
        q.phase is Draining,
    ensures
        q.phase matches InfoPhase::Draining { left, chunk, valid } ==> {
            &&& 0 < n <= chunk && n < left ==> ({
                let (next, action) = q.resumed(InfoReplyModel::Moved(n));
                &&& next.phase matches InfoPhase::Draining { left: l, valid: v, .. } && l == left
                    - n && v == valid
                &&& action matches InfoAction::Receive { len } && 0 < len <= left - n
                &&& next.reply == q.reply && !next.found
            })
            &&& n == left && left == chunk ==> ({
                let (next, action) = q.resumed(InfoReplyModel::Moved(n));
                action is Finish && next.found == valid && next.reply == q.reply
            })
            &&& n == 0 || n > chunk ==> ({
                let (next, action) = q.resumed(InfoReplyModel::Moved(n));
                action is Finish && !next.found
            })
        },
{
}

/// A message of a stream is its kind, its slot, its format and two numbers.
pub proof fn law_stream_messages_are_read(kind: u8, slot: u8, format: u16, a: u32, b: u32)
    ensures
        ({
            let bytes = seq![kind, slot] + u16_bytes(format) + u32_bytes(a) + u32_bytes(b);
            let m = stream_message(bytes);
            m.kind == kind && m.slot == slot && m.format == format && m.a == a && m.b == b
        }),
{
    let bytes = seq![kind, slot] + u16_bytes(format) + u32_bytes(a) + u32_bytes(b);
    law_u16_round_trip(format);
    law_u32_round_trip(a);
    law_u32_round_trip(b);
    assert(le16(bytes, 2) == le16(u16_bytes(format), 0));
    assert(le32(bytes, 4) == le32(u32_bytes(a), 0));
    assert(le32(bytes, 8) == le32(u32_bytes(b), 0));
}

/// The messages of the service are told apart by these numbers.
pub proof fn law_message_numbers()
    ensures
        (STREAM_GET_SHM, STREAM_SHM_OFFER, STREAM_READY, STREAM_DONE) == (1u8, 2u8, 3u8, 4u8),
        (CTRL_GET_INFO, CTRL_START_RECORD, CTRL_STOP_RECORD) == (1u8, 2u8, 3u8),
{
}

/// A message to the service is its kind, a zero, the length of the payload and the payload. The
/// one that starts a recording holds the camera, its width and its height.
pub proof fn law_control_messages_are_read(
    kind: u8,
    payload: Seq<u8>,
    camera: u8,
    width: u16,
    height: u16,
)
    requires
        payload.len() <= u16::MAX,
    ensures
        ({
            let m = control_bytes(kind, payload);
            &&& m.len() == 4 + payload.len()
            &&& m[0] == kind && m[1] == 0 && le16(m, 2) == payload.len() && m.skip(4) == payload
        }),
        ({
            let p = start_payload(camera, width, height);
            p.len() == 5 && p[0] == camera && le16(p, 1) == width && le16(p, 3) == height
        }),
{
    let m = control_bytes(kind, payload);
    law_u16_round_trip(payload.len() as u16);
    assert(le16(m, 2) == le16(u16_bytes(payload.len() as u16), 0));
    assert(m.skip(4) =~= payload);
    let p = start_payload(camera, width, height);
    law_u16_round_trip(width);
    law_u16_round_trip(height);
    assert(le16(p, 1) == le16(u16_bytes(width), 0));
    assert(le16(p, 3) == le16(u16_bytes(height), 0));
}

/// Of the descriptors that came, those that are some are kept, and all of them are if all are.
pub proof fn law_descriptors_are_kept(fds: Seq<i32>, fd: i32)
    ensures
        valid_fds(fds).contains(fd) <==> fd >= 0 && fds.contains(fd),
        (forall|i: int| 0 <= i < fds.len() ==> fds[i] >= 0) ==> valid_fds(fds) == fds,
    decreases fds.len(),
{
    broadcast use vstd::seq_lib::group_filter_ensures;

    reveal(Seq::filter);
    let keep = |f: i32| f >= 0;
    if valid_fds(fds).contains(fd) {
        let k = choose|k: int| 0 <= k < valid_fds(fds).len() && valid_fds(fds)[k] == fd;
        fds.lemma_filter_contains_rev(keep, fd);
    }
    if fds.len() > 0 {
        law_descriptors_are_kept(fds.drop_last(), fd);
        let init = fds.drop_last();
        assert(fds =~= init.push(fds.last()));
        if forall|i: int| 0 <= i < fds.len() ==> fds[i] >= 0 {
            assert forall|i: int| 0 <= i < init.len() implies init[i] >= 0 by {
                assert(init[i] == fds[i]);
            }
            assert(valid_fds(fds) =~= fds);
        }
    } else {
        assert(valid_fds(fds) =~= fds);
    }
}

/// A frame can have even dimensions up to 8192, and up to 64 MiB; it has three bytes for every two
/// pixels.
pub proof fn law_frame_sizes(width: u32, height: u32)
    ensures
        frame_bytes(width, height) is Some <==> {
            &&& 0 < width <= 8192 && width % 2 == 0
            &&& 0 < height <= 8192 && height % 2 == 0
            &&& width * height * 3 / 2 <= 64 * 1024 * 1024
        },
        frame_bytes(width, height) matches Some(bytes) ==> 2 * bytes == 3 * width * height,
{
    crate::camera::frame::law_frames_are_bounded(width, height);
}

/// The formats of the service are I420, NV12 and NV21, and a node offers frames in their own
/// format and size, 30 a second.
pub proof fn law_formats(width: u32, height: u32, format: u16)
    ensures
        known_format(format) <==> format <= 2,
        node_format(0) == VideoFormat::I420,
        node_format(1) == VideoFormat::NV12,
        node_format(2) == VideoFormat::NV21,
        frame_bytes(width, height) is Some && format <= 2 ==> (format_offer(width, height, format)
            matches Some(offer) && offer.width == width && offer.height == height && offer.rate
            == 30 && offer.format == node_format(format)),
        frame_bytes(width, height) is None || format > 2 ==> format_offer(width, height, format)
            is None,
{
}

/// The buffers of a node hold whole frames: one block of all their bytes, with lines as long as the
/// frame is wide; four of them, or two to eight.
pub proof fn law_buffers_hold_frames(width: u32, height: u32, mem_ptr: u32, mem_fd: u32)
    requires
        mem_ptr < 32,
        mem_fd < 32,
    ensures
        frame_bytes(width, height) matches Some(bytes) ==> (buffer_offer(
            width,
            height,
            mem_ptr,
            mem_fd,
        ) matches Some(offer) && offer.size == bytes && offer.stride == width && offer.blocks == 1
            && offer.buffers == 4 && offer.min_buffers == 2 && offer.max_buffers == 8),
        frame_bytes(width, height) is None ==> buffer_offer(width, height, mem_ptr, mem_fd) is None,
{
    crate::camera::frame::law_frames_are_bounded(width, height);
}

/// Memory that is offered is used if both of its slots are there. The first slot is its beginning,
/// the second what follows it; there are no others, and nothing longer than a slot is read.
pub proof fn law_memory_has_two_slots(
    fd: i32,
    slot_bytes: usize,
    size: i64,
    slot: u8,
    requested: usize,
)
    requires
        0 < slot_bytes <= 64 * 1024 * 1024,
    ensures
        size >= 2 * slot_bytes ==> (Mapping::of(fd, slot_bytes, Some(size)) matches Some(m) && m.fd
            == fd && m.slot_bytes == slot_bytes && m.len == 2 * slot_bytes && m.wf()),
        size < 2 * slot_bytes ==> Mapping::of(fd, slot_bytes, Some(size)) is None,
        Mapping::of(fd, slot_bytes, None) is None,
        Mapping::of(fd, 0, Some(size)) is None,
        ({
            let m = Mapping { len: (2 * slot_bytes) as usize, slot_bytes, fd };
            &&& 0 < requested <= slot_bytes ==> {
                &&& m.slot(0, requested) matches Some(r) && r.fd == fd && r.offset == 0 && r.len
                    == requested
                &&& m.slot(1, requested) matches Some(r) && r.fd == fd && r.offset == slot_bytes
                    && r.len == requested
            }
            &&& slot >= 2 ==> m.slot(slot, requested) is None
            &&& requested == 0 || requested > slot_bytes ==> m.slot(slot, requested) is None
        }),
{
}

/// Whole messages are read with the descriptors that came with them; what is shorter, longer or cut
/// off is none, and nothing at all means that the other side is gone.
pub proof fn law_messages_are_sorted(
    kind: u8,
    slot: u8,
    format: u16,
    a: u32,
    b: u32,
    fds: Seq<i32>,
    bytes: Seq<u8>,
    len: usize,
    truncated: bool,
)
    requires
        forall|i: int| 0 <= i < fds.len() ==> fds[i] >= 0,
    ensures
        ({
            let whole = seq![kind, slot] + u16_bytes(format) + u32_bytes(a) + u32_bytes(b);
            sorted(StreamOutcome::Received { len: 12, truncated: false }, whole, fds)
                == ReceiveModel::Message(StreamMessage { kind, slot, format, a, b }, fds)
        }),
        len > 0 && (len != 12 || truncated) ==> sorted(
            StreamOutcome::Received { len, truncated },
            bytes,
            fds,
        ) == ReceiveModel::Again(fds),
        sorted(StreamOutcome::Received { len: 0, truncated }, bytes, fds) is Closed,
        sorted(StreamOutcome::WouldBlock, bytes, fds) == ReceiveModel::Again(Seq::empty()),
        sorted(StreamOutcome::Interrupted, bytes, fds) == ReceiveModel::Again(Seq::empty()),
        sorted(StreamOutcome::Failed, bytes, fds) is Error,
{
    law_stream_messages_are_read(kind, slot, format, a, b);
    law_descriptors_are_kept(fds, 0);
}

/// A control message that passes descriptors passes one for every four bytes.
pub proof fn law_passed_descriptors(n: nat, header_len: usize, one_len: usize)
    requires
        n > 0,
        header_len + 4 * n <= usize::MAX,
        one_len <= header_len + 4 * n,
    ensures
        rights_in(true, (header_len + 4 * n) as usize, header_len, one_len) == n,
        rights_in(false, (header_len + 4 * n) as usize, header_len, one_len) == 0,
        one_len > 0 ==> rights_in(true, (one_len - 1) as usize, header_len, one_len) == 0,
{
}

/// The time that is left is waited for, at least a millisecond and as long as can be told. What
/// came is waited for a moment more, and an error or the end of the time is the end.
pub proof fn law_waits(ms: u128, broken: bool)
    ensures
        1 <= ms <= i32::MAX ==> wait_ms(Some(ms)) == Some(ms as i32),
        wait_ms(Some(0)) == Some(1i32),
        ms > i32::MAX ==> wait_ms(Some(ms)) == Some(i32::MAX),
        wait_ms(None) is None,
        after_wait(WaitOutcome::Ready { broken: false }) is SleepThenCheckDeadline,
        after_wait(WaitOutcome::Ready { broken: true }) is GiveUp,
        after_wait(WaitOutcome::Interrupted) is CheckDeadline,
        after_wait(WaitOutcome::Failed) is GiveUp,
        after_wait(WaitOutcome::TimedOut) is GiveUp,
{
}

/// Whoever asks for the sizes of some cameras gets as many: each that the service listed, at the
/// place of its camera, and none for the others. Without a list there are none.
pub proof fn law_sizes_are_those_that_were_listed(q: InfoModel, sizes: Seq<(u16, u16)>, i: int)
    requires
        sizes.len() <= 8,
        0 <= i < q.count,
    ensures
        q.initial_sizes().len() == q.count,
        !q.found ==> q.initial_sizes()[i] == (0u32, 0u32),
        q.found && q.reply == list_bytes(sizes) ==> {
            &&& i < sizes.len() && frame_bytes(sizes[i].0 as u32, sizes[i].1 as u32) is Some
                ==> q.initial_sizes()[i] == (sizes[i].0 as u32, sizes[i].1 as u32)
            &&& i < sizes.len() && frame_bytes(sizes[i].0 as u32, sizes[i].1 as u32) is None
                ==> q.initial_sizes()[i] == (0u32, 0u32)
            &&& i >= sizes.len() ==> q.initial_sizes()[i] == (0u32, 0u32)
        },
{
    law_listed_sizes_round_trip(sizes, i);
}

} // verus!
