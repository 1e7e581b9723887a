use anland::audio::datagram::{
    audio_datagram_payload, frame_stride, make_format_pod, parse_audio_datagram,
    parse_format_announcement, playback_process, read_u32, send_pcm, update_latency,
    ChannelPosition, Datagram, FormatAnnouncement, StreamFormat, AUDIO_FORMAT_BYTES,
    AUDIO_FORMAT_S16LE, AUDIO_HEADER_BYTES, AUDIO_MSG_FORMAT, AUDIO_MSG_PCM, AUDIO_ROLE_CAPTURE,
    AUDIO_ROLE_PLAYBACK, DEFAULT_CAP_CHANNELS, DEFAULT_RATE, MAX_DGRAM,
};
use anland::audio::reader::{Reader, ReaderAction, ReceiveOutcome};
use anland::audio::ring::{write_pcm_payload, ByteRing, CaptureBuffer, Chunk, MIC_RING_BYTES};
use anland::audio::streams::{connect_stream, create_streams, update_stream_format, Direction};
use anland::audio::worker::{
    core_is_broken, Action, Command, CurrentFormat, WorkerEvent, WorkerState,
};
use anland::audio::{duplicated, set_fd, start, stop, SetFd};
use anland::engine::{Engine, EngineAction};
use anland::poll::PollOutcome;

const MAX_CHANNELS: usize = 64;

fn datagram(message_type: u32, declared_size: usize, payload: &[u8]) -> Vec<u8> {
    let mut datagram = Vec::with_capacity(AUDIO_HEADER_BYTES + payload.len());
    datagram.extend_from_slice(&message_type.to_le_bytes());
    datagram.extend_from_slice(&(declared_size as u32).to_le_bytes());
    datagram.extend_from_slice(payload);
    datagram
}

fn format_payload(format: u32, role: u32) -> Vec<u8> {
    [DEFAULT_RATE, DEFAULT_CAP_CHANNELS, format, role, 240]
        .into_iter()
        .flat_map(u32::to_le_bytes)
        .collect()
}

#[test]
fn datagram_requires_exact_declared_payload_size() {
    let payload = [1, 2, 3, 4];
    assert!(audio_datagram_payload(&datagram(AUDIO_MSG_PCM, 4, &payload)).is_some());
    assert!(audio_datagram_payload(&datagram(AUDIO_MSG_PCM, 3, &payload)).is_none());
    assert!(audio_datagram_payload(&datagram(AUDIO_MSG_PCM, 5, &payload)).is_none());
}

#[test]
fn format_requires_exact_size_s16le_and_known_role() {
    let playback = format_payload(AUDIO_FORMAT_S16LE, AUDIO_ROLE_PLAYBACK);
    let capture = format_payload(AUDIO_FORMAT_S16LE, AUDIO_ROLE_CAPTURE);
    assert!(parse_format_announcement(&playback).is_some());
    assert!(parse_format_announcement(&capture).is_some());
    assert!(parse_format_announcement(&playback[..AUDIO_FORMAT_BYTES - 1]).is_none());
    assert!(parse_format_announcement(&[playback.as_slice(), &[0]].concat()).is_none());
    assert!(parse_format_announcement(&format_payload(1, AUDIO_ROLE_CAPTURE)).is_none());
    assert!(parse_format_announcement(&format_payload(AUDIO_FORMAT_S16LE, 2)).is_none());
}

#[test]
fn pcm_requires_capture_frame_alignment() {
    let mut ring = ByteRing::new(16);
    write_pcm_payload(&mut ring, 4, &[1, 2, 3]);
    assert_eq!(ring.fill, 0);
    write_pcm_payload(&mut ring, 4, &[1, 2, 3, 4]);
    assert_eq!(ring.fill, 4);
}

#[test]
fn ring_keeps_latest_bytes_and_wraps() {
    let mut ring = ByteRing::new(5);
    ring.write(&[1, 2, 3]);
    let mut first = [0; 2];
    assert_eq!(ring.read(&mut first), 2);
    assert_eq!(first, [1, 2]);

    ring.write(&[4, 5, 6, 7, 8, 9]);
    let mut latest = [0; 8];
    assert_eq!(ring.read(&mut latest), 5);
    assert_eq!(&latest[..5], &[5, 6, 7, 8, 9]);
}

#[test]
fn ring_underrun_can_be_silence_padded() {
    let mut ring = ByteRing::new(8);
    ring.write(&[1, 2, 3]);
    let mut output = [9; 6];
    let got = ring.read(&mut output);
    output[got..].fill(0);
    assert_eq!(output, [1, 2, 3, 0, 0, 0]);
}

#[test]
fn a_datagram_is_taken_apart_as_it_was_put_together() {
    let bytes = datagram(7, 3, &[9, 8, 7]);
    assert_eq!(audio_datagram_payload(&bytes), Some((7, &[9u8, 8, 7][..])));
    assert_eq!(audio_datagram_payload(&bytes[..7]), None);
    assert_eq!(audio_datagram_payload(&[]), None);
    assert_eq!(
        audio_datagram_payload(&datagram(2, 0, &[])),
        Some((2, &[][..]))
    );
}

#[test]
fn datagrams_are_sorted_by_type() {
    let announcement = datagram(AUDIO_MSG_FORMAT, 20, &format_payload(0, 1));
    match parse_audio_datagram(&announcement) {
        Datagram::Announce(format) => assert_eq!(
            format,
            FormatAnnouncement { rate: 48_000, channels: 1, format: 0, role: 1, quantum: 240 }
        ),
        _ => panic!("an announcement"),
    }
    match parse_audio_datagram(&datagram(AUDIO_MSG_PCM, 2, &[5, 6])) {
        Datagram::Samples(samples) => assert_eq!(samples, &[5, 6]),
        _ => panic!("samples"),
    }
    assert!(matches!(parse_audio_datagram(&datagram(3, 2, &[5, 6])), Datagram::Ignored));
    let bad = datagram(AUDIO_MSG_FORMAT, 20, &format_payload(9, 1));
    assert!(matches!(parse_audio_datagram(&bad), Datagram::Ignored));
}

#[test]
fn numbers_are_read_as_far_as_the_bytes_reach() {
    let bytes = [1, 2, 3, 4, 5];
    assert_eq!(read_u32(&bytes, 1), Some(0x0504_0302));
    assert_eq!(read_u32(&bytes, 2), None);
}

#[test]
fn a_frame_takes_two_bytes_for_each_channel() {
    assert_eq!(frame_stride(0), None);
    assert_eq!(frame_stride(1), Some(2));
    assert_eq!(frame_stride(6), Some(12));
    assert_eq!(frame_stride(u32::MAX / 2), Some(u32::MAX - 1));
    assert_eq!(frame_stride(u32::MAX / 2 + 1), None);
}

#[test]
fn playback_is_sent_with_its_length() {
    assert_eq!(send_pcm(&[1, 2, 3]), Some(vec![2, 0, 0, 0, 3, 0, 0, 0]));
    assert_eq!(playback_process(&[1, 2, 3, 4], 1, 2), Some(&[2u8, 3][..]));
    assert_eq!(playback_process(&[1, 2, 3, 4], 1, 4), None);
    assert_eq!(playback_process(&[1, 2, 3, 4], 1, 0), None);
    assert_eq!(playback_process(&[1, 2, 3, 4], usize::MAX, 2), None);
}

#[test]
fn streams_take_only_formats_that_fit() {
    assert_eq!(
        make_format_pod(48_000, 2, MAX_CHANNELS),
        Some(StreamFormat {
            rate: 48_000,
            channels: 2,
            first: ChannelPosition::FrontLeft,
            second: ChannelPosition::FrontRight,
        })
    );
    assert_eq!(
        make_format_pod(8_000, 1, MAX_CHANNELS),
        Some(StreamFormat {
            rate: 8_000,
            channels: 1,
            first: ChannelPosition::Mono,
            second: ChannelPosition::Unknown,
        })
    );
    assert_eq!(make_format_pod(48_000, 0, MAX_CHANNELS), None);
    assert_eq!(make_format_pod(48_000, 65, MAX_CHANNELS), None);
    assert_eq!(make_format_pod(0x8000_0000, 2, MAX_CHANNELS), None);
    assert_eq!(update_stream_format(44_100, 3, 2), None);
}

#[test]
fn latency_is_a_fraction_or_nothing() {
    assert_eq!(update_latency(240, 48_000), Some("240/48000".to_string()));
    assert_eq!(update_latency(4_294_967_295, 10), Some("4294967295/10".to_string()));
    assert_eq!(update_latency(0, 48_000), None);
}

#[test]
fn both_streams_are_planned() {
    let playback = CurrentFormat { rate: 48_000, channels: 2, quantum: 480 };
    let capture = CurrentFormat::new(16_000, 1);
    let (speaker, mic) = create_streams(playback, capture, MAX_CHANNELS);
    assert_eq!(speaker.name, "anland-speaker");
    assert_eq!(speaker.media_class, "Audio/Sink");
    assert_eq!(speaker.description, "Anland remote speaker");
    assert_eq!(speaker.connection.direction, Direction::Input);
    assert_eq!(speaker.connection.latency.as_deref(), Some("480/48000"));
    assert_eq!(mic.name, "anland-mic");
    assert_eq!(mic.media_class, "Audio/Source");
    assert_eq!(mic.description, "Anland remote microphone");
    assert_eq!(mic.connection.direction, Direction::Output);
    assert_eq!(mic.connection.latency, None);
    assert_eq!(mic.connection.format.map(|f| (f.rate, f.channels)), Some((16_000, 1)));
    assert!(connect_stream(Direction::Input, CurrentFormat::new(1, 100), MAX_CHANNELS)
        .format
        .is_none());
}

#[test]
fn a_ring_without_room_holds_nothing() {
    let mut ring = ByteRing::new(0);
    ring.write(&[1, 2]);
    assert_eq!(ring.read(&mut [0; 2]), 0);
    let mut small = ByteRing::new(3);
    write_pcm_payload(&mut small, 4, &[1, 2, 3, 4]);
    assert_eq!(small.fill, 0);
    write_pcm_payload(&mut small, 0, &[]);
    assert_eq!(small.fill, 0);
}

#[test]
fn samples_stay_framed_when_the_ring_is_full() {
    let mut ring = ByteRing::new(10);
    write_pcm_payload(&mut ring, 4, &[1, 2, 3, 4]);
    write_pcm_payload(&mut ring, 4, &[5, 6, 7, 8, 9, 10, 11, 12]);
    assert_eq!(ring.fill, 8);
    let mut out = [0; 10];
    assert_eq!(ring.read(&mut out), 8);
    assert_eq!(&out[..8], &[5, 6, 7, 8, 9, 10, 11, 12]);
}

#[test]
fn two_writes_leave_what_one_would() {
    let mut twice = ByteRing::new(4);
    twice.write(&[1, 2, 3]);
    twice.write(&[4, 5]);
    let mut once = ByteRing::new(4);
    once.write(&[1, 2, 3, 4, 5]);
    let (mut a, mut b) = ([0; 4], [0; 4]);
    assert_eq!(twice.read(&mut a), 4);
    assert_eq!(once.read(&mut b), 4);
    assert_eq!(a, [2, 3, 4, 5]);
    assert_eq!(a, b);
}

#[test]
fn capture_takes_whole_frames_and_pads_with_silence() {
    let mut buffer = CaptureBuffer::new();
    assert_eq!(buffer.ring.bytes.len(), MIC_RING_BYTES);
    buffer.accept(&[1, 2, 3, 4]);
    buffer.accept(&[5]);
    let mut out = [9u8; 7];
    assert_eq!(
        buffer.capture_process(&mut out, 0),
        Some(Chunk { offset: 0, stride: 2, size: 6 })
    );
    assert_eq!(out, [1, 2, 3, 4, 0, 0, 9]);
    buffer.accept(&[1, 2, 3, 4]);
    let mut out = [9u8; 7];
    assert_eq!(
        buffer.capture_process(&mut out, 1),
        Some(Chunk { offset: 0, stride: 2, size: 2 })
    );
    assert_eq!(out, [1, 2, 9, 9, 9, 9, 9]);
    assert_eq!(buffer.ring.fill, 2);
    buffer.restart(0);
    assert_eq!(buffer.capture_process(&mut out, 1), None);
}

/// Runs a worker until nothing more is to be done; every action goes as `ok` says.
fn settle(
    worker: &mut WorkerState,
    buffer: &mut CaptureBuffer,
    first: Action,
    ok: bool,
) -> Vec<Action> {
    let mut actions = vec![first];
    let mut action = first;
    while !matches!(action, Action::Done | Action::Acknowledge) {
        action = worker.resume(buffer, ok);
        actions.push(action);
    }
    actions
}

fn running() -> (WorkerState, CaptureBuffer) {
    let mut worker = WorkerState::new(MAX_CHANNELS);
    let mut buffer = CaptureBuffer::new();
    let first = worker.maintain_pipewire(false);
    settle(&mut worker, &mut buffer, first, true);
    (worker, buffer)
}

fn format_event(generation: u64, rate: u32, channels: u32, role: u32, quantum: u32) -> WorkerEvent {
    WorkerEvent::Format {
        socket_generation: generation,
        format: FormatAnnouncement { rate, channels, format: 0, role, quantum },
    }
}

#[test]
fn the_worker_connects_and_creates_streams() {
    let mut worker = WorkerState::new(MAX_CHANNELS);
    let mut buffer = CaptureBuffer::new();
    let first = worker.maintain_pipewire(false);
    let actions = settle(&mut worker, &mut buffer, first, true);
    assert_eq!(
        actions,
        vec![
            Action::ConnectCore { generation: 1 },
            Action::CreateStreams {
                speaker: CurrentFormat::new(48_000, 2),
                microphone: CurrentFormat::new(48_000, 1),
                generation: 1,
            },
            Action::Done,
        ]
    );
    assert!(worker.core && worker.streams);
    assert_eq!(worker.maintain_pipewire(false), Action::Done);
}

#[test]
fn streams_that_cannot_be_created_drop_the_connection() {
    let mut worker = WorkerState::new(MAX_CHANNELS);
    let mut buffer = CaptureBuffer::new();
    assert_eq!(worker.maintain_pipewire(false), Action::ConnectCore { generation: 1 });
    assert!(matches!(worker.resume(&mut buffer, true), Action::CreateStreams { .. }));
    assert_eq!(worker.resume(&mut buffer, false), Action::DropPipewire);
    assert_eq!(worker.resume(&mut buffer, true), Action::Done);
    assert!(!worker.core && !worker.streams);
    assert_eq!(worker.maintain_pipewire(false), Action::ConnectCore { generation: 2 });
    assert_eq!(worker.resume(&mut buffer, false), Action::Done);
}

#[test]
fn a_new_socket_replaces_the_old_one() {
    let (mut worker, mut buffer) = running();
    let first = worker.handle_command(&mut buffer, Command::SetSocket(Some(5)));
    assert_eq!(
        settle(&mut worker, &mut buffer, first, true),
        vec![Action::SpawnReader { socket: 5, generation: 1 }, Action::Done]
    );
    buffer.accept(&[1, 2]);
    let first = worker.handle_command(&mut buffer, Command::SetSocket(Some(6)));
    assert_eq!(
        settle(&mut worker, &mut buffer, first, true),
        vec![
            Action::StopReader,
            Action::Close(5),
            Action::SpawnReader { socket: 6, generation: 2 },
            Action::Done,
        ]
    );
    assert_eq!(worker.socket, Some(6));
    assert_eq!(buffer.ring.fill, 0);
    let first = worker.handle_command(&mut buffer, Command::SetSocket(None));
    assert_eq!(
        settle(&mut worker, &mut buffer, first, true),
        vec![Action::StopReader, Action::Close(6), Action::Done]
    );
    assert_eq!(worker.socket, None);
}

#[test]
fn a_socket_whose_reader_does_not_start_is_closed() {
    let (mut worker, mut buffer) = running();
    let first = worker.handle_command(&mut buffer, Command::SetSocket(Some(5)));
    assert_eq!(
        settle(&mut worker, &mut buffer, first, false),
        vec![Action::SpawnReader { socket: 5, generation: 1 }, Action::Close(5), Action::Done]
    );
    assert!(worker.socket.is_none() && !worker.reader);
}

#[test]
fn an_announcement_changes_the_stream_and_the_frames() {
    let (mut worker, mut buffer) = running();
    let first = worker.handle_command(&mut buffer, Command::SetSocket(Some(5)));
    settle(&mut worker, &mut buffer, first, true);
    buffer.accept(&[1, 2, 3, 4]);
    let first = worker.handle_event(&mut buffer, format_event(1, 44_100, 2, 1, 64));
    assert_eq!(
        settle(&mut worker, &mut buffer, first, true),
        vec![
            Action::UpdateFormat { playback: false, rate: 44_100, channels: 2 },
            Action::UpdateLatency { playback: false, quantum: 64, rate: 44_100 },
            Action::Acknowledge,
        ]
    );
    assert_eq!(worker.capture_format, CurrentFormat { rate: 44_100, channels: 2, quantum: 64 });
    assert_eq!((buffer.stride, buffer.ring.fill), (4, 0));
    // Another period alone leaves the samples.
    buffer.accept(&[1, 2, 3, 4]);
    let first = worker.handle_event(&mut buffer, format_event(1, 44_100, 2, 1, 128));
    assert_eq!(
        settle(&mut worker, &mut buffer, first, true),
        vec![
            Action::UpdateLatency { playback: false, quantum: 128, rate: 44_100 },
            Action::Acknowledge,
        ]
    );
    assert_eq!(buffer.ring.fill, 4);
    // The same again does nothing, and zeros stand for the defaults.
    assert_eq!(
        worker.handle_event(&mut buffer, format_event(1, 44_100, 2, 1, 128)),
        Action::Acknowledge
    );
    let first = worker.handle_event(&mut buffer, format_event(1, 0, 0, 0, 0));
    assert_eq!(first, Action::Acknowledge);
    assert_eq!(worker.playback_format, CurrentFormat::new(48_000, 2));
}

#[test]
fn an_announcement_that_no_stream_can_have_is_ignored() {
    let (mut worker, mut buffer) = running();
    let first = worker.handle_command(&mut buffer, Command::SetSocket(Some(5)));
    settle(&mut worker, &mut buffer, first, true);
    for event in [
        format_event(1, 48_000, 65, 0, 0),
        format_event(1, 0x8000_0000, 2, 0, 0),
        format_event(1, 48_000, 0x8000_0000, 1, 0),
        format_event(1, 48_000, 2, 7, 0),
    ] {
        let before = worker;
        assert_eq!(worker.handle_event(&mut buffer, event), Action::Acknowledge);
        assert_eq!(worker, before);
    }
}

#[test]
fn a_stream_that_refuses_a_format_is_made_again_with_it() {
    let (mut worker, mut buffer) = running();
    let first = worker.handle_command(&mut buffer, Command::SetSocket(Some(5)));
    settle(&mut worker, &mut buffer, first, true);
    let wanted = CurrentFormat { rate: 32_000, channels: 2, quantum: 0 };
    let action = worker.handle_event(&mut buffer, format_event(1, 32_000, 2, 1, 0));
    assert!(matches!(action, Action::UpdateFormat { .. }));
    assert_eq!(worker.resume(&mut buffer, false), Action::DropPipewire);
    assert_eq!(worker.resume(&mut buffer, true), Action::ConnectCore { generation: 2 });
    match worker.resume(&mut buffer, true) {
        Action::CreateStreams { microphone, .. } => assert_eq!(microphone, wanted),
        other => panic!("{other:?}"),
    }
    assert_eq!(worker.resume(&mut buffer, true), Action::Acknowledge);
    assert_eq!(worker.capture_format, wanted);
    assert_eq!(buffer.stride, 4);
}

#[test]
fn late_events_change_nothing() {
    let (mut worker, mut buffer) = running();
    let first = worker.handle_command(&mut buffer, Command::SetSocket(Some(5)));
    settle(&mut worker, &mut buffer, first, true);
    let before = worker;
    for event in [
        WorkerEvent::ReaderClosed(0),
        WorkerEvent::PipeWireBroken(0),
        format_event(0, 8_000, 1, 0, 0),
    ] {
        assert_eq!(worker.handle_event(&mut buffer, event), Action::Done);
        assert_eq!(worker, before);
    }
    let first = worker.handle_event(&mut buffer, WorkerEvent::ReaderClosed(1));
    assert_eq!(
        settle(&mut worker, &mut buffer, first, true),
        vec![Action::StopReader, Action::Close(5), Action::Done]
    );
    let first = worker.handle_event(&mut buffer, WorkerEvent::PipeWireBroken(1));
    assert_eq!(first, Action::DropPipewire);
    settle(&mut worker, &mut buffer, first, true);
    assert!(worker.core && worker.streams);
}

#[test]
fn shutdown_releases_everything_for_good() {
    let (mut worker, mut buffer) = running();
    let first = worker.handle_command(&mut buffer, Command::SetSocket(Some(5)));
    settle(&mut worker, &mut buffer, first, true);
    let first = worker.handle_command(&mut buffer, Command::Shutdown);
    assert_eq!(
        settle(&mut worker, &mut buffer, first, false),
        vec![Action::StopReader, Action::Close(5), Action::DropPipewire, Action::Done]
    );
    assert!(worker.stopping && !worker.core && !worker.streams && worker.socket.is_none());
    assert_eq!(worker.handle_event(&mut buffer, WorkerEvent::PipeWireBroken(1)), Action::Done);
    assert_eq!(worker.maintain_pipewire(false), Action::Done);
    assert_eq!(worker.shutdown(&mut buffer), Action::Done);
    let first = worker.handle_command(&mut buffer, Command::SetSocket(Some(9)));
    assert_eq!(
        settle(&mut worker, &mut buffer, first, true),
        vec![Action::Close(9), Action::Done]
    );
}

#[test]
fn only_a_lost_connection_breaks_the_core() {
    assert!(core_is_broken(0, -32));
    assert!(!core_is_broken(1, -32));
    assert!(!core_is_broken(0, -5));
}

#[test]
fn the_reader_takes_in_samples_and_hands_on_announcements() {
    let mut buffer = CaptureBuffer::new();
    let (mut reader, action) = Reader::start(false);
    assert_eq!(action, ReaderAction::Poll);
    let ready = PollOutcome::Ready { wake: true, input: true, hangup: false };
    assert_eq!(reader.polled(ready, false), ReaderAction::DrainWake);
    assert_eq!(reader.woken(false), ReaderAction::Receive);
    let mut bytes = vec![0u8; MAX_DGRAM];
    let samples = datagram(AUDIO_MSG_PCM, 4, &[1, 2, 3, 4]);
    bytes[..12].copy_from_slice(&samples);
    let got = ReceiveOutcome::Received(12);
    assert_eq!(reader.received(got, &bytes, &mut buffer, false), ReaderAction::Receive);
    assert_eq!(buffer.ring.fill, 4);
    let announcement = datagram(AUDIO_MSG_FORMAT, 20, &format_payload(0, 0));
    bytes[..28].copy_from_slice(&announcement);
    let got = ReceiveOutcome::Received(28);
    assert!(matches!(
        reader.received(got, &bytes, &mut buffer, false),
        ReaderAction::Announce(_)
    ));
    assert_eq!(reader.announced(true, false), ReaderAction::AwaitApplied);
    assert_eq!(reader.applied(false, false), ReaderAction::AwaitApplied);
    assert_eq!(reader.applied(true, false), ReaderAction::Receive);
    let cut = ReceiveOutcome::Received(MAX_DGRAM + 1);
    assert_eq!(reader.received(cut, &bytes, &mut buffer, false), ReaderAction::Receive);
    let none = ReceiveOutcome::WouldBlock;
    assert_eq!(reader.received(none, &bytes, &mut buffer, false), ReaderAction::Poll);
}

#[test]
fn the_reader_reports_that_it_ended() {
    let mut buffer = CaptureBuffer::new();
    let (mut reader, _) = Reader::start(false);
    assert_eq!(Reader::start(true).1, ReaderAction::ReportClosed);
    assert_eq!(reader.polled(PollOutcome::Failed, false), ReaderAction::ReportClosed);
    assert_eq!(reader.polled(PollOutcome::Interrupted, false), ReaderAction::Poll);
    assert_eq!(reader.polled(PollOutcome::Interrupted, true), ReaderAction::ReportClosed);
    let gone = PollOutcome::Ready { wake: false, input: false, hangup: true };
    assert_eq!(reader.polled(gone, false), ReaderAction::ReportClosed);
    for outcome in [ReceiveOutcome::Received(0), ReceiveOutcome::Failed] {
        assert_eq!(
            reader.received(outcome, &[], &mut buffer, false),
            ReaderAction::ReportClosed
        );
    }
    assert_eq!(reader.woken(true), ReaderAction::ReportClosed);
    assert_eq!(reader.announced(true, true), ReaderAction::ReportClosed);
}

#[test]
fn starting_and_stopping_are_idempotent() {
    let mut engine = Engine::new();
    assert_eq!(stop(&mut engine), EngineAction::Done);
    assert_eq!(start(&mut engine, false), EngineAction::Spawn);
    assert_eq!(engine.resume(true), EngineAction::AwaitReady);
    assert_eq!(engine.resume(true), EngineAction::Return(0));
    assert_eq!(start(&mut engine, false), EngineAction::Return(0));
    // A worker that ended by itself is replaced.
    assert_eq!(start(&mut engine, true), EngineAction::Join);
    assert_eq!(engine.resume(true), EngineAction::Spawn);
    assert_eq!(engine.resume(true), EngineAction::AwaitReady);
    assert_eq!(engine.resume(true), EngineAction::Return(0));
    assert_eq!(stop(&mut engine), EngineAction::SendShutdown);
    assert_eq!(engine.resume(false), EngineAction::Join);
    assert_eq!(engine.resume(true), EngineAction::Done);
    assert!(!engine.running);
}

#[test]
fn a_worker_that_cannot_start_is_told() {
    let mut engine = Engine::new();
    assert_eq!(start(&mut engine, false), EngineAction::Spawn);
    assert_eq!(engine.resume(false), EngineAction::Return(-1));
    assert_eq!(start(&mut engine, false), EngineAction::Spawn);
    assert_eq!(engine.resume(true), EngineAction::AwaitReady);
    assert_eq!(engine.resume(false), EngineAction::Join);
    assert_eq!(engine.resume(true), EngineAction::Return(-1));
    assert!(!engine.running);
}

#[test]
fn a_descriptor_is_duplicated_for_the_worker() {
    let mut engine = Engine::new();
    assert_eq!(set_fd(&engine, 4), SetFd::Ignored);
    start(&mut engine, false);
    engine.resume(true);
    engine.resume(true);
    assert_eq!(set_fd(&engine, 4), SetFd::Duplicate(4));
    assert_eq!(set_fd(&engine, -1), SetFd::Send(Command::SetSocket(None)));
    assert_eq!(duplicated(11), Command::SetSocket(Some(11)));
    assert_eq!(duplicated(-1), Command::SetSocket(None));
}
