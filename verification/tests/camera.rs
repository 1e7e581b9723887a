use anland::camera::adopt::Adoption;
use anland::camera::frame::{
    camera_format, frame_size, is_camera_format, make_buffer_pod, make_format_pod, video_format,
    BufferOffer, FormatOffer, VideoFormat, FORMAT_I420, FORMAT_NV12, FORMAT_NV21, MAX_DIMENSION,
};
use anland::camera::info::{
    info_wait_timeout, wait_for_info_data, InfoAction, InfoQuery, InfoReply, SocketType, WaitNext,
    WaitOutcome,
};
use anland::camera::mapping::{Mapping, SlotRead, CAMERA_SLOTS};
use anland::camera::model::{
    node_state_changed, Action, Command, NodeState, Resources, WorkerEvent, WorkerState,
};
use anland::camera::node::{node_plan, CameraData, Negotiation, NodeOutput};
use anland::camera::reader::{
    Mailbox, ReadOutcome, Reader, ReaderAction, ReaderCommand, ReaderFrame, ReaderStep,
};
use anland::camera::wire::{
    declared_info_payload, get_info_message, receive_stream_message, rights_count, send_control,
    send_exact, send_stream, start_record_message, stop_record_message, validate_info_header,
    validate_info_payload, ReceiveResult, StreamMessage, StreamOutcome, CTRL_INFO_REPLY,
    MAX_CAMERAS, STREAM_DONE, STREAM_GET_SHM, STREAM_READY, STREAM_SHM_OFFER,
};
use anland::camera::{
    clear, deliver_resources, no_sizes, set_resources, start, stop, undelivered, Delivery,
};
use anland::engine::{Engine, EngineAction};
use anland::poll::PollOutcome;

#[test]
fn frame_size_rejects_invalid_and_oversized_frames() {
    assert_eq!(frame_size(1280, 720), Some(1_382_400));
    assert_eq!(frame_size(0, 720), None);
    assert_eq!(frame_size(1281, 720), None);
    assert_eq!(frame_size(MAX_DIMENSION + 1, 720), None);
    assert_eq!(frame_size(MAX_DIMENSION, MAX_DIMENSION), None);
    assert_eq!(
        frame_size(MAX_DIMENSION, MAX_DIMENSION / 2),
        Some(50_331_648)
    );
}

#[test]
fn info_layout_validation_is_strict_and_bounded() {
    assert_eq!(validate_info_header(&[CTRL_INFO_REPLY, 0, 5, 0]), Some(5));
    assert_eq!(validate_info_payload(&[1, 0, 5, 208, 2], 5), Some(()));
    assert_eq!(validate_info_header(&[0, 0, 5, 0]), None);
    assert_eq!(validate_info_header(&[CTRL_INFO_REPLY, 0, 0, 0]), None);
    assert_eq!(validate_info_payload(&[2, 0, 5, 208, 2], 5), None);
    assert_eq!(validate_info_payload(&[MAX_CAMERAS as u8 + 1], 1), None);
}

#[test]
fn mapping_requires_two_slots_and_reads_exact_slot() {
    let short = make_memfd(15, &[]);
    assert!(Mapping::new(short.0, 8, Some(short.1.len() as i64)).is_none());

    let bytes = [0, 1, 2, 3, 4, 5, 6, 7, 8, 9, 10, 11, 12, 13, 14, 15];
    let fd = make_memfd(bytes.len(), &bytes);
    let mapping =
        Mapping::new(fd.0, 8, Some(fd.1.len() as i64)).expect("valid two-slot backing");
    assert_eq!(copy_slot(&mapping, &fd.1, 1, 8).as_deref(), Some(&bytes[8..]));
    assert!(copy_slot(&mapping, &fd.1, CAMERA_SLOTS, 8).is_none());
    assert!(copy_slot(&mapping, &fd.1, 0, 9).is_none());
}

/// A descriptor, and what is in its file.
fn make_memfd(len: usize, contents: &[u8]) -> (i32, Vec<u8>) {
    let mut file = vec![0; len];
    file[..contents.len()].copy_from_slice(contents);
    (9, file)
}

/// What a reader copies out of a slot of the file.
fn copy_slot(mapping: &Mapping, file: &[u8], slot: u8, requested: usize) -> Option<Vec<u8>> {
    let read = mapping.copy_slot(slot, requested)?;
    assert_eq!(read.fd, 9);
    Some(file[read.offset..read.offset + read.len].to_vec())
}

#[test]
fn a_file_of_unknown_size_is_no_mapping() {
    assert_eq!(Mapping::new(9, 8, None), None);
    assert_eq!(Mapping::new(9, 8, Some(-1)), None);
    assert_eq!(Mapping::new(9, 0, Some(100)), None);
    assert_eq!(Mapping::new(9, 67_108_865, Some(i64::MAX)), None);
    assert_eq!(
        Mapping::new(9, 67_108_864, Some(134_217_728)),
        Some(Mapping { len: 134_217_728, slot_bytes: 67_108_864, fd: 9 })
    );
}

#[test]
fn formats_come_through_a_node() {
    for format in [FORMAT_I420, FORMAT_NV12, FORMAT_NV21] {
        assert!(is_camera_format(format));
        assert_eq!(camera_format(video_format(format)), Some(format));
    }
    assert!(!is_camera_format(3));
    assert_eq!(video_format(3), VideoFormat::I420);
    assert_eq!(camera_format(VideoFormat::Other), None);
}

#[test]
fn nodes_offer_what_they_have() {
    assert_eq!(
        make_format_pod(1280, 720, FORMAT_NV12),
        Some(FormatOffer { format: VideoFormat::NV12, width: 1280, height: 720, rate: 30 })
    );
    assert_eq!(make_format_pod(1280, 721, FORMAT_NV12), None);
    assert_eq!(make_format_pod(1280, 720, 7), None);
    assert_eq!(
        make_buffer_pod(1280, 720, 1, 2),
        Some(BufferOffer {
            buffers: 4,
            min_buffers: 2,
            max_buffers: 8,
            blocks: 1,
            size: 1_382_400,
            stride: 1280,
            data_types: 6,
        })
    );
    assert_eq!(make_buffer_pod(1280, 720, 32, 2), None);
    assert_eq!(make_buffer_pod(0, 720, 1, 2), None);
    let plan = node_plan(7, 1280, 720, FORMAT_NV21);
    assert_eq!(plan.name, "anland-camera-7");
    assert_eq!(plan.description, "Anland remote camera 7");
    assert_eq!(plan.offer.map(|o| o.format), Some(VideoFormat::NV21));
    assert_eq!(node_plan(10, 3, 3, 0).name, "anland-camera-10");
    assert!(node_plan(10, 3, 3, 0).offer.is_none());
}

#[test]
fn messages_have_their_bytes() {
    assert_eq!(get_info_message(), vec![1, 0, 0, 0]);
    assert_eq!(start_record_message(3, 1280, 720), vec![2, 0, 5, 0, 3, 0, 5, 208, 2]);
    assert_eq!(stop_record_message(7), vec![3, 0, 1, 0, 7]);
    assert_eq!(send_control(9, &[5, 6]), Some(vec![9, 0, 2, 0, 5, 6]));
    assert_eq!(send_control(9, &vec![0; 65_536]), None);
    assert_eq!(send_stream(STREAM_DONE, 1), [4, 1, 0, 0, 0, 0, 0, 0, 0, 0, 0, 0]);
    assert!(send_exact(12, 12));
    assert!(!send_exact(11, 12));
    assert!(!send_exact(-1, 12));
    let message = StreamMessage::from_bytes(&[3, 1, 2, 1, 4, 3, 2, 1, 8, 7, 6, 5]);
    assert_eq!(
        message,
        StreamMessage { kind: 3, slot: 1, format: 0x0102, a: 0x0102_0304, b: 0x0506_0708 }
    );
    assert_eq!(
        StreamMessage::from_bytes(&send_stream(STREAM_DONE, 1)),
        StreamMessage { kind: 4, slot: 1, format: 0, a: 0, b: 0 }
    );
    assert_eq!(declared_info_payload(&[0, 0, 33, 0]), Some(33));
    assert_eq!(declared_info_payload(&[0, 0, 34, 0]), None);
    assert_eq!(declared_info_payload(&[0, 0, 5]), None);
    assert_eq!(validate_info_header(&[]), None);
    assert_eq!(validate_info_payload(&[], 0), None);
    assert_eq!(validate_info_payload(&[0], 1), Some(()));
}

#[test]
fn stream_messages_are_whole_or_nothing() {
    let bytes = send_stream(STREAM_READY, 1);
    let whole = StreamOutcome::Received { len: 12, truncated: false };
    match receive_stream_message(whole, &bytes, &[4, -1, 5]) {
        ReceiveResult::Message(message, fds) => {
            assert_eq!((message.kind, message.slot), (STREAM_READY, 1));
            assert_eq!(fds, vec![4, 5]);
        }
        other => panic!("{other:?}"),
    }
    for outcome in [
        StreamOutcome::Received { len: 11, truncated: false },
        StreamOutcome::Received { len: 12, truncated: true },
    ] {
        match receive_stream_message(outcome, &bytes, &[4]) {
            ReceiveResult::Again(fds) => assert_eq!(fds, vec![4]),
            other => panic!("{other:?}"),
        }
    }
    let closed = StreamOutcome::Received { len: 0, truncated: false };
    assert!(matches!(receive_stream_message(closed, &bytes, &[]), ReceiveResult::Closed));
    for outcome in [StreamOutcome::WouldBlock, StreamOutcome::Interrupted] {
        assert!(matches!(receive_stream_message(outcome, &bytes, &[]), ReceiveResult::Again(_)));
    }
    let failed = receive_stream_message(StreamOutcome::Failed, &bytes, &[]);
    assert!(matches!(failed, ReceiveResult::Error));
    assert_eq!(rights_count(true, 28, 16, 20), 3);
    assert_eq!(rights_count(true, 19, 16, 20), 0);
    assert_eq!(rights_count(false, 28, 16, 20), 0);
}

fn list(sizes: &[(u16, u16)]) -> Vec<u8> {
    let mut reply = vec![CTRL_INFO_REPLY, 0, (1 + 4 * sizes.len()) as u8, 0, sizes.len() as u8];
    for (w, h) in sizes {
        reply.extend_from_slice(&w.to_le_bytes());
        reply.extend_from_slice(&h.to_le_bytes());
    }
    reply
}

fn data(bytes: &[u8]) -> InfoReply {
    InfoReply::Data { len: bytes.len(), data: bytes.to_vec() }
}

#[test]
fn sizes_are_asked_for_on_a_stream() {
    let reply = list(&[(1280, 720), (3, 3), (640, 480)]);
    let (mut query, action) = InfoQuery::new(2);
    assert_eq!(action, InfoAction::SendGetInfo);
    assert_eq!(query.resume(InfoReply::Sent(true)), InfoAction::GetSocketType);
    assert_eq!(
        query.resume(InfoReply::Kind(Some(SocketType::Stream))),
        InfoAction::Peek { len: 4, packet: false }
    );
    assert_eq!(query.resume(InfoReply::Again), InfoAction::Wait);
    assert_eq!(
        query.resume(InfoReply::Waited(true)),
        InfoAction::Peek { len: 4, packet: false }
    );
    assert_eq!(query.resume(data(&reply[..2])), InfoAction::Wait);
    query.resume(InfoReply::Waited(true));
    assert_eq!(query.resume(data(&reply[..4])), InfoAction::GetAvailable);
    assert_eq!(query.resume(InfoReply::Available(Some(16))), InfoAction::Wait);
    assert_eq!(query.resume(InfoReply::Waited(true)), InfoAction::GetAvailable);
    assert_eq!(
        query.resume(InfoReply::Available(Some(17))),
        InfoAction::Peek { len: 17, packet: false }
    );
    assert_eq!(query.resume(data(&reply)), InfoAction::Receive { len: 17 });
    assert_eq!(query.resume(InfoReply::Moved(10)), InfoAction::Receive { len: 7 });
    assert_eq!(query.resume(InfoReply::Again), InfoAction::Wait);
    assert_eq!(query.resume(InfoReply::Waited(true)), InfoAction::Receive { len: 7 });
    assert_eq!(query.resume(InfoReply::Moved(7)), InfoAction::Finish);
    assert_eq!(query.query_initial_sizes(), vec![(1280, 720), (0, 0)]);
}

#[test]
fn sizes_are_asked_for_in_packets() {
    let reply = list(&[(1280, 720)]);
    let (mut query, _) = InfoQuery::new(3);
    query.resume(InfoReply::Sent(true));
    assert_eq!(
        query.resume(InfoReply::Kind(Some(SocketType::SeqPacket))),
        InfoAction::Peek { len: 37, packet: true }
    );
    assert_eq!(query.resume(InfoReply::Again), InfoAction::Wait);
    query.resume(InfoReply::Waited(true));
    assert_eq!(query.resume(data(&reply)), InfoAction::Receive { len: 9 });
    assert_eq!(query.resume(InfoReply::Moved(9)), InfoAction::Finish);
    assert_eq!(query.query_initial_sizes(), vec![(1280, 720), (0, 0), (0, 0)]);
}

#[test]
fn what_is_no_list_is_thrown_away() {
    // A packet that is too long, too short, or malformed.
    let mut malformed = list(&[(1280, 720)]);
    malformed[4] = 2;
    for (len, bytes) in [(38, vec![0; 37]), (3, vec![0x81, 0, 1]), (9, malformed.clone())] {
        let (mut query, _) = InfoQuery::new(1);
        query.resume(InfoReply::Sent(true));
        query.resume(InfoReply::Kind(Some(SocketType::SeqPacket)));
        assert_eq!(
            query.resume(InfoReply::Data { len, data: bytes }),
            InfoAction::DiscardPacket
        );
        assert_eq!(query.resume(InfoReply::Discarded), InfoAction::Finish);
        assert_eq!(query.query_initial_sizes(), vec![(0, 0)]);
    }
    // A message of 600 bytes on a stream, in stretches.
    let (mut query, _) = InfoQuery::new(1);
    query.resume(InfoReply::Sent(true));
    query.resume(InfoReply::Kind(Some(SocketType::Stream)));
    query.resume(data(&[0x81, 0, 0x54, 2]));
    assert_eq!(
        query.resume(InfoReply::Available(Some(600))),
        InfoAction::Receive { len: 256 }
    );
    assert_eq!(query.resume(InfoReply::Moved(256)), InfoAction::Receive { len: 256 });
    assert_eq!(query.resume(InfoReply::Moved(256)), InfoAction::Receive { len: 88 });
    assert_eq!(query.resume(InfoReply::Moved(88)), InfoAction::Finish);
    assert!(!query.found);
    // A malformed message of the right length is taken in, and not used.
    let (mut query, _) = InfoQuery::new(1);
    query.resume(InfoReply::Sent(true));
    query.resume(InfoReply::Kind(Some(SocketType::Stream)));
    query.resume(data(&malformed[..4]));
    query.resume(InfoReply::Available(Some(9)));
    assert_eq!(query.resume(data(&malformed)), InfoAction::Receive { len: 9 });
    assert_eq!(query.resume(InfoReply::Moved(9)), InfoAction::Finish);
    assert_eq!(query.query_initial_sizes(), vec![(0, 0)]);
}

#[test]
fn a_service_that_does_not_answer_is_given_up() {
    let (mut query, _) = InfoQuery::new(1);
    assert_eq!(query.resume(InfoReply::Sent(false)), InfoAction::Finish);
    for kind in [None, Some(SocketType::Other)] {
        let (mut query, _) = InfoQuery::new(1);
        query.resume(InfoReply::Sent(true));
        assert_eq!(query.resume(InfoReply::Kind(kind)), InfoAction::Finish);
    }
    for reply in [InfoReply::Closed, InfoReply::Failed, data(&[])] {
        let (mut query, _) = InfoQuery::new(1);
        query.resume(InfoReply::Sent(true));
        query.resume(InfoReply::Kind(Some(SocketType::Stream)));
        assert_eq!(query.resume(reply), InfoAction::Finish);
    }
    let (mut query, _) = InfoQuery::new(1);
    query.resume(InfoReply::Sent(true));
    query.resume(InfoReply::Kind(Some(SocketType::Stream)));
    query.resume(InfoReply::Again);
    assert_eq!(query.resume(InfoReply::Waited(false)), InfoAction::Finish);
    assert_eq!(info_wait_timeout(None), None);
    assert_eq!(info_wait_timeout(Some(0)), Some(1));
    assert_eq!(info_wait_timeout(Some(299)), Some(299));
    assert_eq!(info_wait_timeout(Some(u128::MAX)), Some(i32::MAX));
    assert_eq!(wait_for_info_data(WaitOutcome::Interrupted), WaitNext::CheckDeadline);
    assert_eq!(wait_for_info_data(WaitOutcome::TimedOut), WaitNext::GiveUp);
    assert_eq!(wait_for_info_data(WaitOutcome::Failed), WaitNext::GiveUp);
    assert_eq!(wait_for_info_data(WaitOutcome::Ready { broken: true }), WaitNext::GiveUp);
    assert_eq!(
        wait_for_info_data(WaitOutcome::Ready { broken: false }),
        WaitNext::SleepThenCheckDeadline
    );
}

fn message(kind: u8, slot: u8, format: u16, a: u32, b: u32) -> StreamMessage {
    StreamMessage { kind, slot, format, a, b }
}

fn acts(step: ReaderStep) -> ReaderAction {
    assert_eq!(step.close, Vec::<i32>::new());
    step.action
}

/// A reader that is about to receive.
fn receiving() -> Reader {
    let (mut reader, step) = Reader::start(4);
    assert_eq!(acts(step), ReaderAction::TryCommand);
    assert_eq!(acts(reader.commanded(None)), ReaderAction::Poll);
    let ready = PollOutcome::Ready { wake: false, input: true, hangup: false };
    assert_eq!(acts(reader.polled(ready)), ReaderAction::Receive);
    reader
}

fn with_memory() -> Reader {
    let mut reader = receiving();
    let step =
        reader.received(ReceiveResult::Message(message(STREAM_SHM_OFFER, 0, 0, 8, 0), vec![30, 31]));
    assert_eq!(step.close, vec![31]);
    assert_eq!(step.action, ReaderAction::GetSize(30));
    assert_eq!(acts(reader.measured(Some(16))), ReaderAction::TryCommand);
    assert_eq!(acts(reader.commanded(None)), ReaderAction::Receive);
    reader
}

#[test]
fn memory_is_asked_for_once() {
    let (mut reader, _) = Reader::start(4);
    let request = Some(ReaderCommand::RequestShm);
    let ask = ReaderAction::SendStream { kind: STREAM_GET_SHM, slot: 0 };
    assert_eq!(acts(reader.commanded(request)), ask);
    assert_eq!(acts(reader.sent(true)), ReaderAction::TryCommand);
    assert_eq!(acts(reader.commanded(request)), ReaderAction::TryCommand);
    let (mut reader, _) = Reader::start(4);
    reader.commanded(request);
    reader.sent(false);
    assert_eq!(acts(reader.commanded(request)), ask);
}

#[test]
fn memory_is_replaced_and_closed() {
    let mut reader = with_memory();
    reader.received(ReceiveResult::Message(message(STREAM_SHM_OFFER, 0, 0, 8, 0), vec![40]));
    let step = reader.measured(Some(16));
    assert_eq!(step.close, vec![30]);
    assert_eq!(reader.mapping.map(|m| m.fd), Some(40));
    reader.commanded(None);
    // An offer that is too small is turned down.
    reader.received(ReceiveResult::Message(message(STREAM_SHM_OFFER, 0, 0, 8, 0), vec![50]));
    let step = reader.measured(Some(15));
    assert_eq!(step.close, vec![50]);
    assert!(reader.needs_shm);
    assert_eq!(reader.mapping.map(|m| m.fd), Some(40));
    let step = reader.commanded(Some(ReaderCommand::Stop));
    assert_eq!(step.close, vec![40]);
    assert_eq!(step.action, ReaderAction::ReportClosed);
}

#[test]
fn a_frame_is_copied_released_and_delivered() {
    let mut reader = with_memory();
    let mut mailbox = Mailbox::new();
    let ready = message(STREAM_READY, 1, FORMAT_NV12, 2, 2);
    for notify in [true, false] {
        let step = reader.received(ReceiveResult::Message(ready, vec![]));
        assert_eq!(acts(step), ReaderAction::Read(SlotRead { fd: 30, offset: 8, len: 6 }));
        assert_eq!(
            acts(reader.copied(ReadOutcome::Data(vec![1, 2]))),
            ReaderAction::Read(SlotRead { fd: 30, offset: 10, len: 4 })
        );
        assert_eq!(
            acts(reader.copied(ReadOutcome::Interrupted)),
            ReaderAction::Read(SlotRead { fd: 30, offset: 10, len: 4 })
        );
        assert_eq!(
            acts(reader.copied(ReadOutcome::Data(vec![3, 4, 5, 6]))),
            ReaderAction::SendStream { kind: STREAM_DONE, slot: 1 }
        );
        assert_eq!(acts(reader.sent(true)), ReaderAction::Deliver);
        let (told, step) = reader.deliver(&mut mailbox);
        assert_eq!(told, notify);
        assert_eq!(acts(step), ReaderAction::TryCommand);
        assert_eq!(acts(reader.commanded(None)), ReaderAction::Receive);
    }
    let frame = mailbox.take().unwrap();
    assert_eq!(frame.pixels, vec![1, 2, 3, 4, 5, 6]);
    assert_eq!((frame.width, frame.height, frame.format), (2, 2, FORMAT_NV12));
    assert_eq!(frame.stream_generation, 4);
    assert!(mailbox.take().is_none());
}

#[test]
fn a_slot_is_released_whatever_is_in_it() {
    let done = ReaderAction::SendStream { kind: STREAM_DONE, slot: 1 };
    // Another format, no frame, too large for a slot, no such slot, or nothing to read from.
    for (slot, format, w, h) in [(1, 9, 2, 2), (1, 0, 3, 2), (1, 0, 4, 2), (7, 0, 2, 2)] {
        let mut reader = with_memory();
        let step = reader
            .received(ReceiveResult::Message(message(STREAM_READY, slot, format, w, h), vec![]));
        assert_eq!(acts(step), ReaderAction::SendStream { kind: STREAM_DONE, slot });
        assert_eq!(acts(reader.sent(true)), ReaderAction::TryCommand);
        assert!(reader.needs_shm && !reader.shm_requested);
    }
    let ready = message(STREAM_READY, 1, 0, 2, 2);
    let mut reader = receiving();
    assert_eq!(acts(reader.received(ReceiveResult::Message(ready, vec![]))), done);
    for outcome in [ReadOutcome::Failed, ReadOutcome::Data(vec![])] {
        let mut reader = with_memory();
        reader.received(ReceiveResult::Message(ready, vec![]));
        assert_eq!(acts(reader.copied(outcome)), done);
        assert_eq!(acts(reader.sent(false)), ReaderAction::TryCommand);
    }
}

#[test]
fn a_batch_has_a_limit() {
    let mut reader = receiving();
    let other = message(99, 0, 0, 0, 0);
    for n in 1..=32 {
        let step = reader.received(ReceiveResult::Message(other, vec![n]));
        assert_eq!(step.close, vec![n]);
        let next = acts(reader.commanded(None));
        if n < 32 {
            assert_eq!(next, ReaderAction::Receive);
        } else {
            assert_eq!(next, ReaderAction::TryCommand);
        }
    }
    assert_eq!(acts(reader.commanded(None)), ReaderAction::Poll);
}

#[test]
fn a_reader_ends_when_it_is_told_or_alone() {
    let mut reader = receiving();
    let step = reader.received(ReceiveResult::Again(vec![5]));
    assert_eq!((step.close, step.action), (vec![5], ReaderAction::TryCommand));
    for result in [ReceiveResult::Closed, ReceiveResult::Error] {
        let mut reader = receiving();
        assert_eq!(acts(reader.received(result)), ReaderAction::ReportClosed);
    }
    let (mut reader, _) = Reader::start(0);
    reader.commanded(None);
    assert_eq!(acts(reader.polled(PollOutcome::Interrupted)), ReaderAction::TryCommand);
    reader.commanded(None);
    let ready = PollOutcome::Ready { wake: true, input: false, hangup: false };
    assert_eq!(acts(reader.polled(ready)), ReaderAction::DrainWake);
    assert_eq!(acts(reader.woken(true)), ReaderAction::TryCommand);
    assert_eq!(acts(reader.commanded(None)), ReaderAction::ReportClosed);
    let (mut reader, _) = Reader::start(0);
    reader.commanded(None);
    assert_eq!(acts(reader.polled(PollOutcome::Failed)), ReaderAction::ReportClosed);
    let (mut reader, _) = Reader::start(0);
    reader.commanded(None);
    let gone = PollOutcome::Ready { wake: false, input: false, hangup: true };
    assert_eq!(acts(reader.polled(gone)), ReaderAction::ReportClosed);
}

#[test]
fn a_whole_run_gives_everything_back() {
    let memory: Vec<u8> = (0..16).collect();
    // Two frames, two that do not lie in the memory, and one from new memory.
    let mut messages = vec![
        (message(STREAM_SHM_OFFER, 0, 0, 8, 0), vec![30, 31]),
        (message(STREAM_READY, 1, FORMAT_NV12, 2, 2), vec![]),
        (message(STREAM_READY, 0, FORMAT_NV12, 2, 2), vec![32]),
        (message(STREAM_READY, 7, FORMAT_NV12, 2, 2), vec![]),
        (message(STREAM_READY, 1, FORMAT_NV12, 4, 4), vec![]),
        (message(STREAM_SHM_OFFER, 0, 0, 8, 0), vec![33]),
        (message(STREAM_READY, 1, FORMAT_NV12, 2, 2), vec![]),
    ];
    messages.reverse();
    let mut mailbox = Mailbox::new();
    let (mut released, mut closed, mut found) = (vec![], vec![], vec![]);
    let (mut told, mut delivered, mut reports) = (0, 0, 0);
    let (mut reader, mut step) = Reader::start(9);
    loop {
        closed.extend(step.close);
        step = match step.action {
            ReaderAction::TryCommand => reader.commanded(None),
            ReaderAction::SendStream { kind, slot } => {
                assert_eq!(kind, STREAM_DONE);
                released.push(slot);
                reader.sent(true)
            }
            ReaderAction::Poll => {
                reader.polled(PollOutcome::Ready { wake: false, input: true, hangup: false })
            }
            ReaderAction::Receive => match messages.pop() {
                Some((message, fds)) => reader.received(ReceiveResult::Message(message, fds)),
                None => reader.received(ReceiveResult::Closed),
            },
            ReaderAction::GetSize(_) => reader.measured(Some(16)),
            // Memory comes in pieces of at most four bytes.
            ReaderAction::Read(read) => {
                let end = read.offset + read.len.min(4);
                reader.copied(ReadOutcome::Data(memory[read.offset..end].to_vec()))
            }
            ReaderAction::Deliver => {
                let was_empty = mailbox.latest.is_none();
                let (notify, next) = reader.deliver(&mut mailbox);
                assert_eq!(notify, was_empty);
                told += notify as i32;
                delivered += 1;
                // The worker comes after the second frame.
                if delivered == 2 {
                    found.extend(mailbox.take());
                }
                next
            }
            ReaderAction::ReportClosed => {
                reports += 1;
                break;
            }
            ReaderAction::DrainWake => unreachable!(),
        };
    }
    assert_eq!(released, vec![1, 0, 7, 1, 1]);
    closed.sort();
    assert_eq!(closed, vec![30, 31, 32, 33]);
    assert_eq!((told, delivered, reports), (2, 3, 1));
    assert_eq!(found.len(), 1);
    assert_eq!(found[0].pixels, memory[0..6]);
    let newest = mailbox.take().unwrap();
    assert_eq!(newest.pixels, memory[8..14]);
    assert_eq!((newest.stream_generation, newest.width, newest.height), (9, 2, 2));
}

/// Runs a worker until nothing more is to be done; every action goes as `ok` says.
fn run(worker: &mut WorkerState, ok: bool) -> Vec<Action> {
    let mut actions = vec![];
    while worker.busy() {
        let action = worker.step(ok);
        if action != Action::Nothing {
            actions.push(action);
        }
    }
    actions
}

fn resources(ctrl: Option<i32>, streams: &[Option<i32>], sizes: &[(u32, u32)]) -> Command {
    Command::SetResources(Resources {
        ctrl,
        streams: streams.to_vec(),
        initial_sizes: sizes.to_vec(),
    })
}

fn with_camera() -> WorkerState {
    let mut worker = WorkerState::new();
    worker.maintain_pipewire();
    assert_eq!(run(&mut worker, true), vec![Action::ConnectCore { generation: 1 }]);
    worker.handle_command(resources(Some(5), &[Some(6)], &[(640, 480)]));
    assert_eq!(
        run(&mut worker, true),
        vec![
            Action::CreateNode {
                camera: 0,
                generation: 1,
                width: 640,
                height: 480,
                format: FORMAT_NV21,
            },
            Action::ClearMailbox(0),
            Action::SpawnReader { camera: 0, generation: 1, stream: 6 },
        ]
    );
    worker
}

fn watched() -> WorkerState {
    let mut worker = with_camera();
    worker.handle_event(WorkerEvent::Streaming { camera: 0, node_generation: 1, streaming: true });
    assert_eq!(
        run(&mut worker, true),
        vec![
            Action::StartRecord { ctrl: 5, index: 0, record_width: 640, record_height: 480 },
            Action::RequestShm(0),
        ]
    );
    worker
}

#[test]
fn a_camera_is_recorded_while_it_is_watched() {
    let mut worker = watched();
    // Nothing new.
    worker.handle_event(WorkerEvent::Streaming { camera: 0, node_generation: 1, streaming: true });
    assert!(!worker.busy());
    worker.maintain_pipewire();
    assert_eq!(run(&mut worker, true), vec![Action::RequestShm(0)]);
    worker.handle_event(WorkerEvent::Streaming { camera: 0, node_generation: 1, streaming: false });
    assert_eq!(run(&mut worker, true), vec![Action::StopRecord { ctrl: 5, index: 0 }]);
    assert!(!worker.cameras[0].data.recording);
}

#[test]
fn a_service_that_could_not_be_told_is_told_again() {
    let mut worker = with_camera();
    worker.handle_event(WorkerEvent::Streaming { camera: 0, node_generation: 1, streaming: true });
    assert_eq!(run(&mut worker, false).len(), 1);
    assert!(!worker.cameras[0].data.recording);
    worker.maintain_pipewire();
    assert_eq!(run(&mut worker, true).len(), 2);
    assert!(worker.cameras[0].data.recording);
}

#[test]
fn a_reader_that_ends_stops_the_recording() {
    let mut worker = watched();
    worker.handle_event(WorkerEvent::ReaderClosed { camera: 0, stream_generation: 0 });
    assert!(!worker.busy());
    worker.handle_event(WorkerEvent::ReaderClosed { camera: 0, stream_generation: 1 });
    assert_eq!(run(&mut worker, true), vec![Action::StopRecord { ctrl: 5, index: 0 }]);
    assert!(!worker.cameras[0].data.live);
}

#[test]
fn clearing_keeps_the_node() {
    let mut worker = watched();
    worker.handle_command(Command::Clear);
    assert_eq!(
        run(&mut worker, true),
        vec![
            Action::StopReader(0),
            Action::ClearMailbox(0),
            Action::StopRecord { ctrl: 5, index: 0 },
            Action::Close(5),
        ]
    );
    let camera = &worker.cameras[0];
    assert!(camera.node && !camera.reader && camera.data.streaming && !camera.data.live);
    assert_eq!(worker.ctrl, None);
    assert_eq!(worker.active_cameras, 1);
    // The node shows grey.
    let mut output = vec![0u8; 460_800];
    assert_eq!(
        camera.data.node_process(true, &mut output),
        NodeOutput::Frame { stride: 640, size: 460_800 }
    );
    assert!(output.iter().all(|&b| b == 128));
}

#[test]
fn new_resources_replace_the_old_ones() {
    let mut worker = watched();
    worker.handle_command(resources(Some(15), &[Some(16), None], &[(1280, 720)]));
    assert_eq!(
        run(&mut worker, true),
        vec![
            Action::StopReader(0),
            Action::ClearMailbox(0),
            Action::StopRecord { ctrl: 5, index: 0 },
            Action::Close(5),
            Action::ClearMailbox(0),
            Action::SpawnReader { camera: 0, generation: 3, stream: 16 },
            Action::StartRecord { ctrl: 15, index: 0, record_width: 640, record_height: 480 },
            Action::RequestShm(0),
            Action::CreateNode {
                camera: 1,
                generation: 1,
                width: 1280,
                height: 720,
                format: FORMAT_NV21,
            },
            Action::ClearMailbox(1),
        ]
    );
    assert_eq!(worker.active_cameras, 2);
    // One camera less.
    worker.handle_command(resources(None, &[Some(17)], &[]));
    let actions = run(&mut worker, true);
    assert!(actions.contains(&Action::DropNode(1)));
    assert!(actions.contains(&Action::Close(15)));
    assert!(!worker.cameras[1].node && worker.cameras[0].node);
}

#[test]
fn a_camera_without_a_size_has_the_default() {
    let mut worker = WorkerState::new();
    worker.core = true;
    worker.handle_command(resources(None, &[None], &[(3, 3)]));
    let actions = run(&mut worker, true);
    assert!(matches!(actions[0], Action::CreateNode { width: 1280, height: 720, .. }));
}

#[test]
fn a_node_that_fails_is_made_again() {
    let mut worker = watched();
    worker.handle_event(WorkerEvent::NodeFailed { camera: 0, node_generation: 0 });
    assert!(!worker.busy());
    worker.handle_event(WorkerEvent::NodeFailed { camera: 9, node_generation: 1 });
    assert!(!worker.busy());
    worker.handle_event(WorkerEvent::NodeFailed { camera: 0, node_generation: 1 });
    assert_eq!(
        run(&mut worker, true),
        vec![Action::StopRecord { ctrl: 5, index: 0 }, Action::DropNode(0)]
    );
    worker.maintain_pipewire();
    assert!(matches!(
        run(&mut worker, true)[0],
        Action::CreateNode { camera: 0, generation: 3, .. }
    ));
}

#[test]
fn a_lost_connection_is_made_again() {
    let mut worker = watched();
    worker.handle_event(WorkerEvent::PipeWireBroken(0));
    assert!(!worker.busy());
    worker.handle_event(WorkerEvent::PipeWireBroken(1));
    assert_eq!(
        run(&mut worker, true),
        vec![
            Action::StopRecord { ctrl: 5, index: 0 },
            Action::DropNode(0),
            Action::DropCore,
        ]
    );
    assert!(!worker.core);
    worker.maintain_pipewire();
    assert_eq!(run(&mut worker, false), vec![Action::ConnectCore { generation: 2 }]);
    worker.maintain_pipewire();
    assert_eq!(run(&mut worker, true).len(), 2);
    assert!(worker.core && worker.cameras[0].node);
}

fn frame(generation: u64, w: u32, h: u32, format: u16) -> Option<ReaderFrame> {
    Some(ReaderFrame {
        stream_generation: generation,
        width: w,
        height: h,
        format,
        pixels: vec![7; (w * h * 3 / 2) as usize],
    })
}

#[test]
fn frames_are_stored_once_the_node_has_their_format() {
    let mut worker = watched();
    assert_eq!(worker.handle_frame(0, frame(1, 640, 480, FORMAT_NV21)), Action::Nothing);
    assert!(worker.cameras[0].data.have_frame);
    assert_eq!(
        worker.handle_frame(0, frame(1, 320, 240, FORMAT_NV12)),
        Action::UpdateFormat { camera: 0, width: 320, height: 240, format: FORMAT_NV12 }
    );
    assert_eq!(worker.cameras[0].data.width, 640);
    assert_eq!(run(&mut worker, true), vec![]);
    assert_eq!(worker.cameras[0].data.width, 320);
    assert_eq!(worker.cameras[0].data.frame.len(), 115_200);
    // A node that does not take the format failed.
    worker.handle_frame(0, frame(1, 640, 480, FORMAT_NV21));
    assert_eq!(
        run(&mut worker, false),
        vec![Action::ReportNodeFailed { camera: 0, node_generation: 1 }]
    );
    assert_eq!(worker.cameras[0].data.width, 320);
}

#[test]
fn frames_that_do_not_fit_are_dropped() {
    let mut worker = watched();
    let mut short = frame(1, 640, 480, FORMAT_NV21).unwrap();
    short.pixels.pop();
    for f in [
        frame(0, 640, 480, FORMAT_NV21),
        frame(1, 641, 480, FORMAT_NV21),
        frame(1, 640, 480, 9),
        Some(short),
        None,
    ] {
        assert_eq!(worker.handle_frame(0, f), Action::Nothing);
        assert!(!worker.cameras[0].data.have_frame);
    }
    assert_eq!(worker.handle_frame(8, frame(1, 640, 480, 2)), Action::Nothing);
    // Without a node there is nobody to take another format.
    worker.cameras[0].node = false;
    assert_eq!(worker.handle_frame(0, frame(1, 320, 240, 2)), Action::Nothing);
    assert!(!worker.busy());
}

#[test]
fn shutdown_releases_everything() {
    let mut worker = watched();
    worker.handle_command(Command::Shutdown);
    let actions = run(&mut worker, true);
    assert_eq!(actions[0], Action::StopReader(0));
    assert_eq!(actions[2], Action::StopRecord { ctrl: 5, index: 0 });
    assert!(actions.contains(&Action::Close(5)));
    assert_eq!(actions[actions.len() - 2..], [Action::DropNode(0), Action::DropCore]);
    assert!(worker.cameras.iter().all(|c| !c.node && !c.reader && !c.data.live));
    worker.handle_event(WorkerEvent::PipeWireBroken(1));
    worker.maintain_pipewire();
    worker.shutdown();
    assert!(!worker.busy());
    // What still comes is closed.
    worker.handle_command(resources(Some(1), &[Some(2), None, Some(3)], &[]));
    assert_eq!(
        run(&mut worker, true),
        vec![Action::Close(1), Action::Close(2), Action::Close(3)]
    );
}

#[test]
fn a_reader_that_does_not_start_leaves_no_stream() {
    let mut worker = WorkerState::new();
    worker.core = true;
    worker.handle_command(resources(Some(5), &[Some(6)], &[(640, 480)]));
    run(&mut worker, false);
    assert!(!worker.cameras[0].reader && !worker.cameras[0].data.live && !worker.cameras[0].node);
}

#[test]
fn a_node_shows_the_frame_or_nothing() {
    let mut data = CameraData::new();
    assert!(data.note_process());
    assert!(!data.note_process());
    assert_eq!(data.node_process(true, &mut [0; 8]), NodeOutput::Empty);
    data.width = 2;
    data.height = 2;
    data.live = true;
    data.have_frame = true;
    data.frame = vec![1, 2, 3, 4, 5, 6];
    let mut output = [9u8; 8];
    assert_eq!(data.node_process(false, &mut output), NodeOutput::Untouched);
    assert_eq!(data.node_process(true, &mut output), NodeOutput::Frame { stride: 2, size: 6 });
    assert_eq!(output, [1, 2, 3, 4, 5, 6, 9, 9]);
    assert_eq!(data.node_process(true, &mut [0; 5]), NodeOutput::Empty);
    data.frame.pop();
    assert_eq!(data.node_process(true, &mut output), NodeOutput::Empty);
    data.have_frame = false;
    assert_eq!(data.node_process(true, &mut output), NodeOutput::Frame { stride: 2, size: 6 });
    assert_eq!(output, [128, 128, 128, 128, 128, 128, 9, 9]);
}

#[test]
fn a_node_takes_the_format_that_was_agreed_on() {
    let mut data = CameraData::new();
    data.width = 640;
    data.height = 480;
    let agreed = Negotiation { raw_video: true, format: VideoFormat::I420, width: 0, height: 240 };
    let result = data.node_param_changed(agreed, 1, 2).unwrap();
    assert_eq!((result.width, result.height, result.format), (640, 240, FORMAT_I420));
    assert_eq!(result.buffers.map(|b| (b.size, b.data_types)), Some((230_400, 6)));
    assert!(data.finish_negotiation(result, false));
    assert_eq!(data.height, 480);
    assert!(!data.finish_negotiation(result, true));
    assert_eq!((data.width, data.height, data.format), (640, 240, FORMAT_I420));
    for bad in [
        Negotiation { raw_video: false, ..agreed },
        Negotiation { format: VideoFormat::Other, ..agreed },
        Negotiation { width: 3, ..agreed },
    ] {
        assert_eq!(data.node_param_changed(bad, 1, 2), None);
    }
}

#[test]
fn descriptors_are_taken_over_once() {
    let adoption = set_resources(4, Some(&[5, -1, 4, 5, 6]), 5);
    assert_eq!(adoption.ctrl, Some(4));
    assert_eq!(adoption.streams, vec![Some(5), None, None, None, Some(6)]);
    assert_eq!(adoption.close, Vec::<i32>::new());
    let many: Vec<i32> = (10..20).collect();
    let adoption = set_resources(-1, Some(&many), 10);
    assert_eq!(adoption.ctrl, None);
    assert_eq!(adoption.streams.len(), 8);
    assert_eq!(adoption.close, vec![18, 19]);
    assert!(!adoption.refused);
    let adoption = set_resources(4, None, 2);
    assert_eq!((adoption.ctrl, adoption.streams.len()), (None, 0));
    assert_eq!(adoption.close, vec![4]);
    assert!(adoption.refused);
    let adoption = set_resources(4, None, -3);
    assert!(!adoption.refused);
    assert_eq!((adoption.ctrl, adoption.streams.len()), (Some(4), 0));
    assert_eq!(adoption.close, Vec::<i32>::new());
}

#[test]
fn cameras_start_stop_and_clear() {
    let mut engine = Engine::new();
    assert!(clear(&engine).is_none());
    assert_eq!(start(&mut engine), EngineAction::Spawn);
    assert_eq!(engine.resume(true), EngineAction::AwaitReady);
    assert_eq!(engine.resume(true), EngineAction::Return(0));
    assert_eq!(start(&mut engine), EngineAction::Return(0));
    assert!(matches!(clear(&engine), Some(Command::Clear)));
    let adoption = || Adoption {
        ctrl: Some(1),
        streams: vec![Some(2), None],
        close: vec![],
        refused: false,
    };
    match deliver_resources(&engine, 0, adoption(), no_sizes(2)) {
        Delivery::Send(Command::SetResources(r)) => {
            assert_eq!((r.ctrl, r.streams), (Some(1), vec![Some(2), None]));
            assert_eq!(r.initial_sizes, vec![(0, 0), (0, 0)]);
        }
        _ => panic!("resources"),
    }
    match deliver_resources(&engine, -1, adoption(), no_sizes(2)) {
        Delivery::Close(fds) => assert_eq!(fds, vec![2, 1]),
        _ => panic!("descriptors"),
    }
    // Cameras without a list of streams are not handed on, no cameras are.
    match deliver_resources(&engine, 0, set_resources(4, None, 2), vec![]) {
        Delivery::Close(fds) => assert_eq!(fds, Vec::<i32>::new()),
        _ => panic!("a request that was refused"),
    }
    assert!(matches!(
        deliver_resources(&engine, 0, set_resources(-1, None, 0), vec![]),
        Delivery::Send(_)
    ));
    assert_eq!(stop(&mut engine), EngineAction::SendShutdown);
    assert_eq!(engine.resume(true), EngineAction::Join);
    assert_eq!(engine.resume(true), EngineAction::Done);
    assert_eq!(stop(&mut engine), EngineAction::Done);
    assert!(matches!(deliver_resources(&engine, 0, adoption(), vec![]), Delivery::Close(_)));
    let unsent = Resources { ctrl: None, streams: vec![None, Some(3), Some(3)], initial_sizes: vec![] };
    assert_eq!(undelivered(&unsent), vec![3, 3]);
}

#[test]
fn a_node_tells_its_state() {
    let streaming = |streaming| WorkerEvent::Streaming { camera: 1, node_generation: 2, streaming };
    assert_eq!(node_state_changed(1, 2, NodeState::Streaming), (streaming(true), None));
    assert_eq!(node_state_changed(1, 2, NodeState::Other), (streaming(false), None));
    assert_eq!(
        node_state_changed(1, 2, NodeState::Failed),
        (streaming(false), Some(WorkerEvent::NodeFailed { camera: 1, node_generation: 2 }))
    );
}
