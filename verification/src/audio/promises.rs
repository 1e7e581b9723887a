//! What audio is for, in terms of what comes in and what goes out.
use vstd::prelude::*;

use crate::audio::datagram::{
    announcement_in, datagram_header, datagram_parts, given_format, latency_text, pcm_header,
    playback_chunk, stream_format, stride_of, u32_in, ChannelPosition, FormatAnnouncement,
};
use crate::audio::laws::settled;
use crate::audio::reader::{Reader, ReaderAction, ReceiveOutcome};
use crate::audio::ring::{
    capture_frames, captured_into, latest, min, whole_frames, Captured, Chunk,
};
use crate::audio::worker::{
    is_lost, Action, Command, CurrentFormat, WorkerEvent, WorkerState,
};
use crate::audio::{duplicate_use, fd_use, SetFd};
use crate::bytes::{le32, lemma_u32_at, lemma_words_at, u32_bytes, words_bytes};
use crate::poll::PollOutcome;
use crate::text::{decimal, law_decimals_are_read_back, value};

verus! {

/// The announcement of a format, as an event from the reader of this worker.
pub open spec fn announcing(
    worker: WorkerState,
    rate: u32,
    channels: u32,
    role: u32,
    quantum: u32,
) -> WorkerEvent {
    WorkerEvent::Format {
        socket_generation: worker.socket_generation,
        format: FormatAnnouncement { rate, channels, format: 0, role, quantum },
    }
}

/// A worker that can take an announcement.
pub open spec fn listening(worker: WorkerState) -> bool {
    worker.wf() && worker.awaiting is Nothing && !worker.stopping && worker.reader
}

/// Where the streams take it, the format that the consumer announces for playback is that of the
/// speaker: exactly its rate, its channels and its quantum. So is the one for capture that of the
/// microphone, whose frames have two bytes for each channel. The other stream keeps its format.
pub proof fn law_streams_have_the_announced_format(
    worker: WorkerState,
    b: Captured,
    rate: u32,
    channels: u32,
    quantum: u32,
)
    requires
        listening(worker),
        worker.matches_frames(b),
        0 < rate <= i32::MAX,
        0 < channels <= worker.max_channels,
        channels <= i32::MAX,
    ensures
        ({
            let start = worker.notified(b, announcing(worker, rate, channels, 0, quantum));
            let end = settled(start, seq![true, true]);
            &&& end.action is Acknowledge
            &&& end.worker.playback_format.rate == rate
            &&& end.worker.playback_format.channels == channels
            &&& end.worker.playback_format.quantum == quantum
            &&& end.worker.desired_playback_format == end.worker.playback_format
            &&& worker.streams ==> end.worker.capture_format == worker.capture_format && end.buffer
                == b
            &&& end.worker.desired_capture_format == worker.desired_capture_format
            &&& (end.worker.socket, end.worker.reader) == (worker.socket, worker.reader)
        }),
        ({
            let start = worker.notified(b, announcing(worker, rate, channels, 1, quantum));
            let end = settled(start, seq![true, true]);
            &&& end.action is Acknowledge
            &&& end.worker.capture_format.rate == rate
            &&& end.worker.capture_format.channels == channels
            &&& end.worker.capture_format.quantum == quantum
            &&& end.worker.desired_capture_format == end.worker.capture_format
            &&& end.buffer.stride == 2 * channels
            &&& worker.streams ==> end.worker.playback_format == worker.playback_format
            &&& end.worker.desired_playback_format == worker.desired_playback_format
            &&& (end.worker.socket, end.worker.reader) == (worker.socket, worker.reader)
        }),
{
    reveal_with_fuel(settled, 4);
    let p = seq![true, true];
    assert(p.skip(1)[0]);
}

/// A stream that exists is told of another rate or number of channels first, and then of its
/// latency; of another quantum alone it is told as its latency.
pub proof fn law_streams_are_told_of_their_format(
    worker: WorkerState,
    b: Captured,
    rate: u32,
    channels: u32,
    role: u32,
    quantum: u32,
)
    requires
        listening(worker),
        worker.streams,
        role == 0 || role == 1,
        0 < rate <= i32::MAX,
        0 < channels <= worker.max_channels,
        channels <= i32::MAX,
    ensures
        ({
            let current = if role == 0 {
                worker.playback_format
            } else {
                worker.capture_format
            };
            let first = worker.notified(b, announcing(worker, rate, channels, role, quantum));
            let second = first.worker.resumed(first.buffer, true);
            &&& current.rate != rate || current.channels != channels ==> {
                &&& first.action == (Action::UpdateFormat { playback: role == 0, rate, channels })
                &&& second.action == (Action::UpdateLatency { playback: role == 0, quantum, rate })
            }
            &&& current.rate == rate && current.channels == channels && current.quantum != quantum
                ==> first.action == (Action::UpdateLatency { playback: role == 0, quantum, rate })
            &&& current.rate == rate && current.channels == channels && current.quantum == quantum
                ==> first.action is Acknowledge && first.buffer == b
        }),
{
}

/// What an announcement leaves open is 48000 Hz, and two channels for playback or one for capture.
pub proof fn law_announcements_have_defaults(
    worker: WorkerState,
    b: Captured,
    rate: u32,
    channels: u32,
    quantum: u32,
)
    ensures
        worker.notified(b, announcing(worker, 0, channels, 0, quantum)) == worker.notified(
            b,
            announcing(worker, 48_000, channels, 0, quantum),
        ),
        worker.notified(b, announcing(worker, 0, channels, 1, quantum)) == worker.notified(
            b,
            announcing(worker, 48_000, channels, 1, quantum),
        ),
        worker.notified(b, announcing(worker, rate, 0, 0, quantum)) == worker.notified(
            b,
            announcing(worker, rate, 2, 0, quantum),
        ),
        worker.notified(b, announcing(worker, rate, 0, 1, quantum)) == worker.notified(
            b,
            announcing(worker, rate, 1, 1, quantum),
        ),
{
}

/// An announcement that no stream can have changes nothing, but is acknowledged: one of other
/// samples, for no role that there is, with too many channels or too high a rate.
pub proof fn law_impossible_announcements_change_nothing(
    worker: WorkerState,
    b: Captured,
    a: FormatAnnouncement,
)
    requires
        listening(worker),
        a.format != 0 || a.role > 1 || a.rate > i32::MAX || a.channels > worker.max_channels
            || a.channels > i32::MAX,
    ensures
        ({
            let event = WorkerEvent::Format {
                socket_generation: worker.socket_generation,
                format: a,
            };
            let turn = worker.notified(b, event);
            turn.worker == worker && turn.buffer == b && turn.action is Acknowledge
        }),
{
}

/// Only the reader that the worker has is listened to, and only while it runs.
pub proof fn law_only_the_present_reader_is_heard(
    worker: WorkerState,
    b: Captured,
    generation: u64,
    a: FormatAnnouncement,
)
    requires
        worker.awaiting is Nothing,
        generation != worker.socket_generation || worker.stopping,
    ensures
        ({
            let turn = worker.notified(
                b,
                WorkerEvent::Format { socket_generation: generation, format: a },
            );
            turn.worker == worker && turn.buffer == b && turn.action is Done
        }),
        ({
            let turn = worker.notified(b, WorkerEvent::ReaderClosed(generation));
            turn.worker == worker && turn.buffer == b && turn.action is Done
        }),
{
}

/// A new socket is read once the old reader has ended and the old socket is closed, in this order.
/// The new reader has the next number.
pub proof fn law_sockets_are_replaced_in_order(worker: WorkerState, b: Captured, socket: i32)
    requires
        worker.wf(),
        worker.awaiting is Nothing,
        !worker.stopping,
    ensures
        ({
            let t1 = worker.commanded(b, Command::SetSocket(Some(socket)));
            let t2 = t1.worker.resumed(t1.buffer, true);
            let t3 = t2.worker.resumed(t2.buffer, true);
            &&& worker.reader ==> {
                &&& t1.action is StopReader
                &&& t2.action == Action::Close(worker.socket->0)
                &&& t3.action matches Action::SpawnReader { socket: s, generation } && s == socket
                    && (generation - worker.socket_generation) % 0x1_0000_0000_0000_0000 == 1
            }
            &&& !worker.reader ==> (t1.action matches Action::SpawnReader { socket: s, generation }
                && s == socket && (generation - worker.socket_generation)
                % 0x1_0000_0000_0000_0000 == 1)
        }),
        ({
            let t1 = worker.commanded(b, Command::SetSocket(None));
            let t2 = t1.worker.resumed(t1.buffer, true);
            let t3 = t2.worker.resumed(t2.buffer, true);
            worker.reader ==> t1.action is StopReader && t2.action == Action::Close(
                worker.socket->0,
            ) && t3.action is Done
        }),
{
}

/// A missing connection is made, with the next number, and then the streams on it: the speaker in
/// the format that is wanted for playback and the microphone in the one for capture. What fails is
/// given up until the next time.
pub proof fn law_missing_streams_are_made(
    worker: WorkerState,
    b: Captured,
    acknowledge: bool,
)
    requires
        worker.wf(),
        worker.awaiting is Nothing,
        !worker.stopping,
    ensures
        !worker.core ==> ({
            let t1 = worker.maintained(b, acknowledge);
            let t2 = t1.worker.resumed(t1.buffer, true);
            let failed = t1.worker.resumed(t1.buffer, false);
            &&& t1.action matches Action::ConnectCore { generation } && (generation
                - worker.core_generation) % 0x1_0000_0000_0000_0000 == 1 && t2.action == (
            Action::CreateStreams {
                speaker: worker.desired_playback_format,
                microphone: worker.desired_capture_format,
                generation,
            })
            &&& !failed.worker.core && failed.worker.awaiting is Nothing
        }),
        worker.core && !worker.streams ==> ({
            let t1 = worker.maintained(b, acknowledge);
            let failed = t1.worker.resumed(t1.buffer, false);
            &&& t1.action == (Action::CreateStreams {
                speaker: worker.desired_playback_format,
                microphone: worker.desired_capture_format,
                generation: worker.core_generation,
            })
            &&& failed.action is DropPipewire && !failed.worker.core && !failed.worker.streams
        }),
        worker.core && worker.streams ==> ({
            let t1 = worker.maintained(b, acknowledge);
            t1.worker == worker && t1.buffer == b && t1.action == (if acknowledge {
                Action::Acknowledge
            } else {
                Action::Done
            })
        }),
{
}

/// A connection that broke is dropped and made again; a stream that refuses its format is, too, so
/// that it comes back in that format.
pub proof fn law_broken_streams_are_made_again(
    worker: WorkerState,
    b: Captured,
    rate: u32,
    channels: u32,
    role: u32,
    quantum: u32,
)
    requires
        listening(worker),
        worker.streams,
        role == 0 || role == 1,
        0 < rate <= i32::MAX,
        0 < channels <= worker.max_channels,
        channels <= i32::MAX,
    ensures
        ({
            let t1 = worker.notified(b, WorkerEvent::PipeWireBroken(worker.core_generation));
            let t2 = t1.worker.resumed(t1.buffer, true);
            t1.action is DropPipewire && t2.action is ConnectCore
        }),
        ({
            let current = if role == 0 {
                worker.playback_format
            } else {
                worker.capture_format
            };
            let start = worker.notified(b, announcing(worker, rate, channels, role, quantum));
            let end = settled(start, seq![false, true, true, true]);
            current.rate != rate || current.channels != channels ==> {
                &&& end.worker.streams && end.action is Acknowledge
                &&& role == 0 ==> end.worker.playback_format == (CurrentFormat {
                    rate,
                    channels,
                    quantum,
                })
                &&& role == 1 ==> end.worker.capture_format == (CurrentFormat {
                    rate,
                    channels,
                    quantum,
                })
            }
        }),
{
    reveal_with_fuel(settled, 6);
    let p = seq![false, true, true, true];
    assert(p.skip(1)[0] && p.skip(1).skip(1)[0] && p.skip(1).skip(1).skip(1)[0]);
}

/// A frame has two bytes for each of its channels.
pub proof fn law_frames_have_two_bytes_a_channel(channels: u32)
    ensures
        0 < channels <= i32::MAX ==> stride_of(channels) == Some((2 * channels) as u32),
        channels == 0 || channels > i32::MAX ==> stride_of(channels) is None,
{
}

/// A stream has its rate and its channels; with two channels or more the first is heard on the left
/// and the second on the right, with one it is heard in the middle.
pub proof fn law_stream_formats(rate: u32, channels: u32)
    ensures
        ({
            let f = stream_format(rate, channels);
            &&& f.rate == rate && f.channels == channels
            &&& channels >= 2 ==> f.first == ChannelPosition::FrontLeft && f.second
                == ChannelPosition::FrontRight
            &&& channels == 1 ==> f.first == ChannelPosition::Mono && f.second
                == ChannelPosition::Unknown
        }),
{
}

proof fn lemma_words(words: Seq<u32>, rest: Seq<u8>, k: int)
    requires
        0 <= k < words.len(),
    ensures
        words_bytes(words).len() == 4 * words.len(),
        le32(words_bytes(words) + rest, 4 * k) == words[k],
{
    lemma_words_at(words, k);
    assert(le32(words_bytes(words) + rest, 4 * k) == le32(words_bytes(words), 4 * k));
}

/// An announcement that the consumer sends is handed to the worker as it was sent: the rate, the
/// number of channels, the sample format, the role and the quantum, in that order.
pub proof fn law_announcements_come_through(
    reader: Reader,
    rate: u32,
    channels: u32,
    role: u32,
    quantum: u32,
    room: Seq<u8>,
    b: Captured,
    cap: int,
    stop: bool,
)
    requires
        role == 0 || role == 1,
    ensures
        ({
            let payload = words_bytes(seq![rate, channels, 0u32, role, quantum]);
            let datagram = words_bytes(seq![1u32, 20u32]) + payload;
            let (after, action) = reader.after_receiving(
                ReceiveOutcome::Received(28),
                datagram + room,
                b,
                cap,
                stop,
            );
            &&& action == ReaderAction::Announce(
                FormatAnnouncement { rate, channels, format: 0, role, quantum },
            )
            &&& after == b
        }),
{
    let words = seq![rate, channels, 0u32, role, quantum];
    let payload = words_bytes(words);
    let head = words_bytes(seq![1u32, 20u32]);
    let datagram = head + payload;
    lemma_words(words, Seq::empty(), 0);
    lemma_words(words, Seq::empty(), 1);
    lemma_words(words, Seq::empty(), 2);
    lemma_words(words, Seq::empty(), 3);
    lemma_words(words, Seq::empty(), 4);
    assert(payload + Seq::<u8>::empty() =~= payload);
    lemma_words(seq![1u32, 20u32], payload, 0);
    lemma_words(seq![1u32, 20u32], payload, 1);
    assert((datagram + room).take(28) =~= datagram);
    assert(datagram.skip(8) =~= payload);
    assert(le32(datagram, 0) == 1 && le32(datagram, 4) == 20);
    assert(datagram_parts(datagram) == Some((1u32, payload)));
    assert(le32(payload, 0) == rate && le32(payload, 4) == channels);
    assert(le32(payload, 8) == 0 && le32(payload, 12) == role);
    assert(le32(payload, 16) == quantum);
    assert(announcement_in(payload) == Some(
        FormatAnnouncement { rate, channels, format: 0, role, quantum },
    ));
}

/// The samples that go to the consumer are headed by the number 2 and their length in bytes.
pub proof fn law_samples_are_headed(len: u32)
    ensures
        datagram_header(2, len) == words_bytes(seq![2u32, len]),
        datagram_header(2, len).len() == 8,
{
    let words = seq![2u32, len];
    reveal_with_fuel(words_bytes, 3);
    assert(words.drop_last() =~= seq![2u32]);
    assert(seq![2u32].drop_last() =~= Seq::<u32>::empty());
    assert(datagram_header(2, len) =~= words_bytes(words));
}

/// The most bytes that the samples may take: as many whole frames as there is room for.
pub proof fn law_room_is_used_up(n: int, stride: int)
    requires
        stride > 0,
        n >= 0,
    ensures
        whole_frames(n, stride) % stride == 0,
        n - stride < whole_frames(n, stride) <= n,
{
    vstd::arithmetic::div_mod::lemma_fundamental_div_mod(n, stride);
    vstd::arithmetic::div_mod::lemma_mod_multiples_basic(n / stride, stride);
    assert(n / stride * stride == stride * (n / stride)) by (nonlinear_arith);
}

/// Samples that the consumer sends are kept after those that were there, byte for byte: all of them
/// if there is room, and otherwise the latest that fill the whole frames that there is room for.
/// What is no whole number of frames is left out.
pub proof fn law_samples_are_kept(
    reader: Reader,
    payload: Seq<u8>,
    room: Seq<u8>,
    b: Captured,
    cap: int,
    stop: bool,
)
    requires
        b.stride > 0,
        cap >= b.stride,
        b.held.len() <= cap,
        0 <= payload.len() <= 1_000_000,
    ensures
        ({
            let datagram = words_bytes(seq![2u32, payload.len() as u32]) + payload;
            let (after, action) = reader.after_receiving(
                ReceiveOutcome::Received((8 + payload.len()) as usize),
                datagram + room,
                b,
                cap,
                stop,
            );
            let all = b.held + payload;
            &&& after.stride == b.stride
            &&& action == reader.receiving(stop)
            &&& payload.len() % b.stride as nat != 0 ==> after == b
            &&& payload.len() % b.stride as nat == 0 ==> {
                &&& after.held == all.skip(all.len() - after.held.len())
                &&& all.len() <= cap - b.stride ==> after.held == all
                &&& after.held.len() <= cap
                &&& all.len() > cap ==> after.held.len() > cap - b.stride && after.held.len()
                    % b.stride as nat == 0
            }
        }),
{
    let words = seq![2u32, payload.len() as u32];
    let datagram = words_bytes(words) + payload;
    lemma_words(words, payload, 0);
    lemma_words(words, payload, 1);
    assert((datagram + room).take((8 + payload.len()) as int) =~= datagram);
    assert(datagram.skip(8) =~= payload);
    assert(le32(datagram, 0) == 2 && le32(datagram, 4) == payload.len());
    assert(datagram_parts(datagram) == Some((2u32, payload)));
    law_room_is_used_up(cap, b.stride as int);
    let all = b.held + payload;
    let most = whole_frames(cap, b.stride as int);
    assert(most > 0);
    assert(all.skip(0) =~= all);
    assert(latest(all, most) =~= all.skip(all.len() - latest(all, most).len()));
}

/// What the microphone stream is given: as many frames as its buffer has room for, but no more than
/// it asks for if it asks for any. Samples come in the order in which they were kept, and silence
/// after them.
pub proof fn law_capture_fills_its_buffer(len: int, stride: int, requested: int)
    requires
        stride > 0,
        len >= 0,
        requested >= 0,
    ensures
        ({
            let frames = capture_frames(len, stride, requested);
            &&& 0 <= frames && frames * stride <= len
            &&& requested == 0 || frames < requested ==> (frames + 1) * stride > len
            &&& requested > 0 ==> frames <= requested
        }),
        min(len, stride) <= len && min(len, stride) <= stride,
        min(len, stride) == len || min(len, stride) == stride,
{
    let room = len / stride;
    vstd::arithmetic::div_mod::lemma_fundamental_div_mod(len, stride);
    let frames = capture_frames(len, stride, requested);
    assert(frames * stride <= len) by (nonlinear_arith)
        requires
            0 <= frames <= room,
            stride > 0,
            len == stride * room + len % stride,
            0 <= len % stride < stride,
    ;
    assert((room + 1) * stride > len) by (nonlinear_arith)
        requires
            stride > 0,
            len == stride * room + len % stride,
            0 <= len % stride < stride,
    ;
}

/// The reader goes on receiving while there is input, ends when the other side is gone or receiving
/// fails, and lets what was cut off, is empty of meaning or came too early pass.
pub proof fn law_the_reader_goes_on(
    reader: Reader,
    len: usize,
    bytes: Seq<u8>,
    b: Captured,
    cap: int,
)
    ensures
        Reader::waiting(false) is Poll,
        reader.input ==> reader.reading(false) is Receive,
        !reader.input && !reader.hangup ==> reader.reading(false) is Poll,
        !reader.input && reader.hangup ==> reader.reading(false) is ReportClosed,
        reader.receiving(false) is Receive,
        reader.after_receiving(ReceiveOutcome::Interrupted, bytes, b, cap, false) == (
            b,
            ReaderAction::Receive,
        ),
        reader.after_receiving(ReceiveOutcome::WouldBlock, bytes, b, cap, false) == (
            b,
            if reader.hangup {
                ReaderAction::ReportClosed
            } else {
                ReaderAction::Poll
            },
        ),
        reader.after_receiving(ReceiveOutcome::Failed, bytes, b, cap, false) == (
            b,
            ReaderAction::ReportClosed,
        ),
        reader.after_receiving(ReceiveOutcome::Received(0), bytes, b, cap, false) == (
            b,
            ReaderAction::ReportClosed,
        ),
        len > bytes.len() ==> reader.after_receiving(
            ReceiveOutcome::Received(len),
            bytes,
            b,
            cap,
            false,
        ) == (b, ReaderAction::Receive),
        0 < len < 8 && len <= bytes.len() ==> reader.after_receiving(
            ReceiveOutcome::Received(len),
            bytes,
            b,
            cap,
            false,
        ) == (b, ReaderAction::Receive),
{
}

/// The microphone stream is given samples in the order in which they were kept, each once, and
/// silence where there are none; what it is not given stays. It is told the frames that it was
/// given from the start of its buffer, and how large they are.
pub proof fn law_the_microphone_is_heard(b: Captured, output: Seq<u8>, requested: u64, i: int)
    requires
        b.stride > 0,
        b.stride <= i32::MAX,
        output.len() <= u32::MAX,
        0 <= i < output.len(),
    ensures
        ({
            let (left, given, chunk) = captured_into(b, output, requested);
            let frames = capture_frames(output.len() as int, b.stride as int, requested as int);
            let size = frames * b.stride;
            &&& chunk matches Some(c) && c.offset == 0 && c.stride == b.stride && c.size == size
            &&& given.len() == output.len()
            &&& i < size && i < b.held.len() ==> given[i] == b.held[i]
            &&& b.held.len() <= i < size ==> given[i] == 0
            &&& i >= size ==> given[i] == output[i]
            &&& b.held.len() >= size ==> b.held == given.take(size) + left
            &&& b.held.len() < size ==> left.len() == 0
        }),
        captured_into(Captured { stride: 0, ..b }, output, requested) == (
            b.held,
            output,
            None::<Chunk>,
        ),
{
    let stride = b.stride as int;
    law_capture_fills_its_buffer(output.len() as int, stride, requested as int);
    let size = capture_frames(output.len() as int, stride, requested as int) * stride;
    assert(0 <= size) by (nonlinear_arith)
        requires
            size == capture_frames(output.len() as int, stride, requested as int) * stride,
            capture_frames(output.len() as int, stride, requested as int) >= 0,
            stride > 0,
    ;
    let (left, given, _) = captured_into(b, output, requested);
    if b.held.len() >= size {
        assert(b.held =~= given.take(size) + left);
    }
}

/// What is played is the chunk that the stream names, wherever it lies in the buffer.
pub proof fn law_chunks_are_played(before: Seq<u8>, samples: Seq<u8>, after: Seq<u8>)
    requires
        before.len() + samples.len() + after.len() <= usize::MAX,
        samples.len() > 0,
    ensures
        playback_chunk(
            before + samples + after,
            before.len() as usize,
            samples.len() as usize,
        ) == Some(samples),
        playback_chunk(before, before.len() as usize, samples.len() as usize) is None,
        playback_chunk(before + samples, before.len() as usize, 0) is None,
{
    let all = before + samples + after;
    assert(all.subrange(before.len() as int, (before.len() + samples.len()) as int) =~= samples);
}

/// What is sent to the consumer is read back as samples, and as these.
pub proof fn law_sent_samples_are_read_back(payload: Seq<u8>)
    ensures
        payload.len() <= u32::MAX ==> (pcm_header(payload.len()) matches Some(header) && header
            == words_bytes(seq![2u32, payload.len() as u32]) && datagram_parts(header + payload)
            == Some((2u32, payload))),
        payload.len() > u32::MAX ==> pcm_header(payload.len()) is None,
{
    if payload.len() <= u32::MAX {
        law_samples_are_headed(payload.len() as u32);
        crate::audio::datagram::law_datagram_round_trip(2, payload);
    }
}

/// A number is read where it stands, if all of it is there.
pub proof fn law_numbers_are_read(before: Seq<u8>, v: u32, rest: Seq<u8>, short: Seq<u8>)
    requires
        before.len() < usize::MAX - 4,
        short.len() < 4,
    ensures
        u32_in(before + u32_bytes(v) + rest, before.len() as usize) == Some(v),
        u32_in(before + short, before.len() as usize) is None,
{
    lemma_u32_at(before, v, rest);
}

/// The text is one number, a stroke, and another number.
pub open spec fn reads_as(text: Seq<char>, first: nat, second: nat) -> bool {
    exists|k: int|
        #![trigger text.take(k)]
        {
            &&& 0 < k < text.len() - 1
            &&& text[k] == '/'
            &&& value(text.take(k)) == Some(first)
            &&& value(text.skip(k + 1)) == Some(second)
        }
}

/// The latency of a stream is the number of its frames a period, a stroke, and its rate; without
/// such a number it has none.
pub proof fn law_latencies(quantum: u32, rate: u32)
    ensures
        quantum == 0 ==> latency_text(quantum, rate) is None,
        quantum > 0 ==> (latency_text(quantum, rate) matches Some(text) && reads_as(
            text,
            quantum as nat,
            rate as nat,
        )),
{
    if quantum > 0 {
        law_decimals_are_read_back(quantum as nat);
        law_decimals_are_read_back(rate as nat);
        let (q, r) = (decimal(quantum as nat), decimal(rate as nat));
        let text = q + seq!['/'] + r;
        let k = q.len() as int;
        assert(text.take(k) =~= q);
        assert(text.skip(k + 1) =~= r);
        assert(text[k] == '/');
        assert(reads_as(text, quantum as nat, rate as nat));
    }
}

/// A stream can be given a format with a rate that fits a signed number, and with as many channels
/// as there may be at most; and then it has that one.
pub proof fn law_given_formats(rate: u32, channels: u32, max_channels: usize)
    ensures
        rate <= i32::MAX && 0 < channels <= max_channels ==> (given_format(
            rate,
            channels,
            max_channels,
        ) matches Some(f) && f.rate == rate && f.channels == channels),
        rate > i32::MAX || channels == 0 || channels > max_channels ==> given_format(
            rate,
            channels,
            max_channels,
        ) is None,
{
}

/// A worker that runs is given a duplicate of a descriptor, or told to let the one before it go;
/// without a worker nothing is done. Where duplicating failed, the one before it goes, too.
pub proof fn law_descriptors_for_audio(fd: i32)
    ensures
        fd_use(false, fd) is Ignored,
        fd >= 0 ==> fd_use(true, fd) == SetFd::Duplicate(fd),
        fd < 0 ==> fd_use(true, fd) == SetFd::Send(Command::SetSocket(None)),
        fd >= 0 ==> duplicate_use(fd) == Command::SetSocket(Some(fd)),
        fd < 0 ==> duplicate_use(fd) == Command::SetSocket(None),
{
}

/// The connection is lost when the server reports a broken pipe for the connection itself.
pub proof fn law_lost_connections(id: u32, result: i32)
    ensures
        is_lost(id, result) <==> id == 0 && result == -32,
{
}

/// At first the streams are wanted in 48000 Hz, stereo for playback and mono for capture; there is
/// no connection and no socket yet.
pub proof fn law_workers_begin(max_channels: usize)
    ensures
        ({
            let w = WorkerState::initial(max_channels);
            &&& w.max_channels == max_channels
            &&& w.desired_playback_format == (CurrentFormat {
                rate: 48_000,
                channels: 2,
                quantum: 0,
            })
            &&& w.desired_capture_format == (CurrentFormat { rate: 48_000, channels: 1, quantum: 0 })
            &&& w.playback_format == w.desired_playback_format
            &&& w.capture_format == w.desired_capture_format
            &&& !w.core && !w.streams && !w.reader && !w.stopping
            &&& w.socket is None && w.awaiting is Nothing
            &&& w.core_generation == 0 && w.socket_generation == 0
        }),
{
}

/// A reader that waited takes in calls first and then what came. After an announcement it waits for
/// the worker, as long as that takes, and only then receives more. It ends when it is told to, when
/// waiting fails, and when the other side is gone and nothing is left.
pub proof fn law_the_reader_waits(reader: Reader, wake: bool, input: bool, hangup: bool)
    ensures
        ({
            let (after, action) = reader.after_poll(
                PollOutcome::Ready { wake, input, hangup },
                false,
            );
            &&& after.input == input && after.hangup == hangup
            &&& wake ==> action is DrainWake
            &&& !wake && input ==> action is Receive
            &&& !wake && !input && hangup ==> action is ReportClosed
            &&& !wake && !input && !hangup ==> action is Poll
        }),
        reader.after_poll(PollOutcome::Interrupted, false) == (reader, ReaderAction::Poll),
        reader.after_poll(PollOutcome::Failed, false).1 is ReportClosed,
        reader.after_calls(true) is ReportClosed,
        reader.input ==> reader.after_calls(false) is Receive,
        !reader.input && !reader.hangup ==> reader.after_calls(false) is Poll,
        reader.after_announcing(true, false) is AwaitApplied,
        reader.after_announcing(false, false) is Receive,
        reader.after_applying(false, false) is AwaitApplied,
        reader.after_applying(true, false) is Receive,
        reader.after_announcing(true, true) is ReportClosed,
        reader.after_applying(false, true) is ReportClosed,
{
}

/// Another socket, or none, changes nothing about the streams: the connection, the formats and the
/// size of the frames stay.
pub proof fn law_sockets_do_not_concern_streams(
    worker: WorkerState,
    b: Captured,
    socket: Option<i32>,
    outcomes: Seq<bool>,
)
    requires
        worker.wf(),
        worker.awaiting is Nothing,
        !worker.stopping,
    ensures
        ({
            let last = settled(worker.commanded(b, Command::SetSocket(socket)), outcomes);
            let end = last.worker;
            &&& last.buffer.stride == b.stride
            &&& end.core == worker.core && end.streams == worker.streams
            &&& end.core_generation == worker.core_generation
            &&& end.playback_format == worker.playback_format
            &&& end.capture_format == worker.capture_format
            &&& end.desired_playback_format == worker.desired_playback_format
            &&& end.desired_capture_format == worker.desired_capture_format
            &&& end.max_channels == worker.max_channels && !end.stopping
        }),
{
    reveal_with_fuel(settled, 6);
}

/// What becomes of the streams does not concern the socket: its reader goes on.
pub proof fn law_streams_do_not_concern_the_socket(
    worker: WorkerState,
    b: Captured,
    acknowledge: bool,
    outcomes: Seq<bool>,
)
    requires
        worker.wf(),
        worker.awaiting is Nothing,
    ensures
        ({
            let end = settled(worker.maintained(b, acknowledge), outcomes).worker;
            &&& (end.socket, end.reader) == (worker.socket, worker.reader)
            &&& end.socket_generation == worker.socket_generation
            &&& end.desired_playback_format == worker.desired_playback_format
            &&& end.desired_capture_format == worker.desired_capture_format
        }),
        ({
            let end = settled(
                worker.notified(b, WorkerEvent::PipeWireBroken(worker.core_generation)),
                outcomes,
            ).worker;
            &&& (end.socket, end.reader) == (worker.socket, worker.reader)
            &&& end.socket_generation == worker.socket_generation
            &&& end.desired_playback_format == worker.desired_playback_format
            &&& end.desired_capture_format == worker.desired_capture_format
        }),
{
    reveal_with_fuel(settled, 6);
}

} // verus!
