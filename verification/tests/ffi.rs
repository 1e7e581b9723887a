use anland::bytes::{le16_at, le32_at, le64_at, push_u16, push_u32};
use anland::ffi::context::{
    connect_to_deamon, disconnect, display_ctx, get_audio_fd, get_buf_count, get_buffer_ready_fd,
    get_data_fd, get_dmabuf_fd_at, get_dmabuf_info_at, get_screen_info, get_selected_idx,
    is_fallback, poll_input_event, poll_input_event_extend_data, poll_input_event_extend_fds,
    push_output_event, push_resources_request, resume, set_fallback_callback, set_render_fence,
    trigger_refresh, try_exit_fallback, Reply, Request, Step,
};
use anland::ffi::model::Effect;
use anland::ffi::protocol::{
    buf_info, decode_header, encode_header, InputEvent, InputEventData, KeyEvent, OutputEvent,
    OutputEventData, SetConsumerVarEvent, TouchEvent, OUTPUT_TYPE_SET_CONSUMER_VAR,
    SERVICE_TYPE_CAMERA,
};
use anland::ffi::transfer::{
    connect_unix, recv_fds, send_fds, ControlMessage, IoOutcome, Transfer, TransferStatus,
};

fn words(words: &[u32]) -> Vec<u8> {
    words.iter().flat_map(|w| w.to_le_bytes()).collect()
}

fn code(step: Step) -> i32 {
    assert_eq!(step.effects, vec![]);
    match step.next {
        Request::Return { code, .. } => code,
        _ => panic!("a result"),
    }
}

fn connected() -> display_ctx {
    let (mut ctx, step) = connect_to_deamon(b"/run/display.sock");
    match step.next {
        Request::Connect { path } => assert_eq!(path, b"/run/display.sock"),
        _ => panic!("a connection"),
    }
    match resume(&mut ctx, Reply::Connected(3)).next {
        Request::SendAll { fd, bytes } => {
            assert_eq!((fd, bytes), (3, words(&[2, 0])));
        }
        _ => panic!("a greeting"),
    }
    match resume(&mut ctx, Reply::Sent(true)).next {
        Request::RecvAll { fd, len } => assert_eq!((fd, len), (3, 24)),
        _ => panic!("a screen"),
    }
    let screen = words(&[7, 16, 1920, 1080, 1, 60_000]);
    assert_eq!(code(resume(&mut ctx, Reply::Received(Some(screen)))), 0);
    ctx
}

fn infos(count: u32) -> Vec<u8> {
    (0..count).flat_map(|i| words(&[7680 + i, 1920, 1080, 1, 5, 6, 7])).collect()
}

fn with_consumer() -> display_ctx {
    let mut ctx = connected();
    match try_exit_fallback(&mut ctx).next {
        Request::SendAll { fd, bytes } => assert_eq!((fd, bytes), (3, words(&[9, 0]))),
        _ => panic!("a pickup"),
    }
    match resume(&mut ctx, Reply::Sent(true)).next {
        Request::Poll { fd, timeout_ms, .. } => assert_eq!((fd, timeout_ms), (3, 100)),
        _ => panic!("a wait"),
    }
    match resume(&mut ctx, Reply::Polled { ready: true, broken: false }).next {
        Request::RecvFds { fd, len, limit } => assert_eq!((fd, len, limit), (3, 8, 5)),
        _ => panic!("descriptors"),
    }
    let fds = Reply::Fds { count: 8, bytes: words(&[10, 0]), fds: vec![20, 21, 22, 23, 24] };
    match resume(&mut ctx, fds).next {
        Request::MapIndex { fd } => assert_eq!(fd, 23),
        _ => panic!("a mapping"),
    }
    match resume(&mut ctx, Reply::Mapped(true)).next {
        Request::Poll { fd, .. } => assert_eq!(fd, 22),
        _ => panic!("a wait"),
    }
    match resume(&mut ctx, Reply::Polled { ready: true, broken: false }).next {
        Request::RecvFds { fd, limit, .. } => assert_eq!((fd, limit), (22, 8)),
        _ => panic!("buffers"),
    }
    let bufs = Reply::Fds { count: 8, bytes: words(&[200, 56]), fds: vec![30, 31] };
    match resume(&mut ctx, bufs).next {
        Request::RecvAll { fd, len } => assert_eq!((fd, len), (22, 56)),
        _ => panic!("descriptions"),
    }
    assert_eq!(code(resume(&mut ctx, Reply::Received(Some(infos(2))))), 0);
    ctx
}

#[test]
fn connecting_learns_the_screen() {
    let ctx = connected();
    assert_eq!(get_screen_info(&ctx), (1920, 1080, 1, 60_000));
    assert!(is_fallback(&ctx));
    assert_eq!(get_audio_fd(&ctx), -1);
    assert_eq!(disconnect(ctx), vec![Effect::Close(3)]);
}

#[test]
fn a_connection_that_fails_leaves_nothing_open() {
    let (mut ctx, _) = connect_to_deamon(b"x");
    assert_eq!(code(resume(&mut ctx, Reply::Connected(-1))), -1);
    let (mut ctx, _) = connect_to_deamon(b"x");
    resume(&mut ctx, Reply::Connected(3));
    let step = resume(&mut ctx, Reply::Sent(false));
    assert_eq!(step.effects, vec![Effect::Close(3)]);
    for reply in [None, Some(words(&[8, 16, 0, 0, 0, 0])), Some(words(&[7, 15, 0, 0, 0, 0]))] {
        let (mut ctx, _) = connect_to_deamon(b"x");
        resume(&mut ctx, Reply::Connected(3));
        resume(&mut ctx, Reply::Sent(true));
        let step = resume(&mut ctx, Reply::Received(reply));
        assert_eq!(step.effects, vec![Effect::Close(3)]);
        assert!(matches!(step.next, Request::Return { code: -1, .. }));
        assert_eq!(disconnect(ctx), vec![]);
    }
}

#[test]
fn a_long_path_is_cut() {
    assert_eq!(connect_unix(&[b'a'; 107]).len(), 107);
    assert_eq!(connect_unix(&[b'a'; 300]).len(), 107);
}

#[test]
fn picking_up_a_consumer_leaves_fallback() {
    let ctx = with_consumer();
    assert!(!is_fallback(&ctx));
    assert_eq!((get_data_fd(&ctx), get_buffer_ready_fd(&ctx), get_audio_fd(&ctx)), (22, 20, 24));
    assert_eq!(get_buf_count(&ctx), 2);
    assert_eq!(get_dmabuf_fd_at(&ctx, 1), 31);
    assert_eq!(get_dmabuf_fd_at(&ctx, 2), -1);
    assert_eq!(get_dmabuf_fd_at(&ctx, -1), -1);
    assert_eq!(
        get_dmabuf_info_at(&ctx, 1),
        Some(buf_info {
            stride: 7681,
            width: 1920,
            height: 1080,
            format: 1,
            modifier: 0x6_0000_0005,
            offset: 7,
        })
    );
    assert_eq!(get_dmabuf_info_at(&ctx, 2), None);
    assert_eq!(get_selected_idx(&ctx, 1), 1);
    assert_eq!(get_selected_idx(&ctx, 2), 0);
    assert_eq!(
        disconnect(ctx),
        vec![
            Effect::Close(30),
            Effect::Close(31),
            Effect::Close(22),
            Effect::Close(20),
            Effect::Close(21),
            Effect::Close(24),
            Effect::Unmap,
            Effect::Close(23),
            Effect::Close(3),
        ]
    );
}

#[test]
fn a_pickup_that_fails_closes_what_came() {
    let mut ctx = connected();
    try_exit_fallback(&mut ctx);
    resume(&mut ctx, Reply::Sent(true));
    resume(&mut ctx, Reply::Polled { ready: true, broken: false });
    let few = Reply::Fds { count: 8, bytes: words(&[10, 0]), fds: vec![20, 21] };
    let step = resume(&mut ctx, few);
    assert_eq!(step.effects, vec![Effect::Close(20), Effect::Close(21)]);
    assert!(is_fallback(&ctx));
    try_exit_fallback(&mut ctx);
    assert_eq!(code(resume(&mut ctx, Reply::Sent(false))), -1);
    try_exit_fallback(&mut ctx);
    resume(&mut ctx, Reply::Sent(true));
    assert_eq!(code(resume(&mut ctx, Reply::Polled { ready: false, broken: false })), -1);
}

#[test]
fn input_is_read_without_losing_its_place() {
    let mut ctx = with_consumer();
    match poll_input_event(&mut ctx, 0).next {
        Request::Poll { fd, timeout_ms, .. } => assert_eq!((fd, timeout_ms), (22, 0)),
        _ => panic!("a wait"),
    }
    match resume(&mut ctx, Reply::Polled { ready: true, broken: false }).next {
        Request::Peek { fd, len } => assert_eq!((fd, len), (22, 28)),
        _ => panic!("a look"),
    }
    let message = words(&[102, 20, 2, 1, 30, 0, 0]);
    match resume(&mut ctx, Reply::Peeked { count: 28, bytes: message.clone() }).next {
        Request::RecvAll { len, .. } => assert_eq!(len, 28),
        _ => panic!("an event"),
    }
    match resume(&mut ctx, Reply::Received(Some(message))).next {
        Request::Return { code, event } => {
            let event = event.unwrap();
            assert_eq!((code, event.type_), (1, 2));
            assert_eq!(event.data.key(), KeyEvent { action: 1, keycode: 30 });
        }
        _ => panic!("an event"),
    }
    poll_input_event(&mut ctx, 0);
    assert_eq!(code(resume(&mut ctx, Reply::Polled { ready: false, broken: false })), 0);
}

#[test]
fn a_consumer_that_goes_is_given_up() {
    let mut ctx = with_consumer();
    assert_eq!(set_fallback_callback(&mut ctx, Some(77), 88), 0);
    poll_input_event(&mut ctx, 0);
    let step = resume(&mut ctx, Reply::Polled { ready: true, broken: true });
    assert_eq!(step.effects.len(), 9);
    assert_eq!(step.effects[8], Effect::Notify { callback: 77, userdata: 88 });
    assert!(matches!(step.next, Request::Return { code: -1, .. }));
    assert!(is_fallback(&ctx));
    assert_eq!(code(poll_input_event(&mut ctx, 0)), 0);
    let event = OutputEvent {
        type_: OUTPUT_TYPE_SET_CONSUMER_VAR,
        data: OutputEventData::SetConsumerVar(SetConsumerVarEvent { var: 1, value: 2 }),
    };
    assert_eq!(code(push_output_event(&mut ctx, &event)), 0);
    assert_eq!(disconnect(ctx), vec![Effect::Close(3)]);
}

#[test]
fn new_buffers_replace_the_old_ones() {
    let mut ctx = with_consumer();
    poll_input_event(&mut ctx, 0);
    resume(&mut ctx, Reply::Polled { ready: true, broken: false });
    let mut head = words(&[200, 28]);
    head.extend_from_slice(&[0; 20]);
    resume(&mut ctx, Reply::Peeked { count: 8, bytes: head });
    resume(&mut ctx, Reply::Polled { ready: true, broken: false });
    resume(&mut ctx, Reply::Fds { count: 8, bytes: words(&[200, 28]), fds: vec![40] });
    let step = resume(&mut ctx, Reply::Received(Some(infos(1))));
    assert_eq!(step.effects, vec![Effect::Close(30), Effect::Close(31)]);
    assert!(matches!(step.next, Request::Return { code: -2, .. }));
    assert_eq!((get_buf_count(&ctx), get_dmabuf_fd_at(&ctx, 0)), (1, 40));
}

#[test]
fn payloads_and_descriptors_follow_an_event() {
    let mut ctx = with_consumer();
    poll_input_event_extend_data(&mut ctx, 5, 100);
    match resume(&mut ctx, Reply::Polled { ready: true, broken: false }).next {
        Request::RecvAll { fd, len } => assert_eq!((fd, len), (22, 5)),
        _ => panic!("a payload"),
    }
    assert_eq!(code(resume(&mut ctx, Reply::Received(Some(vec![0; 5])))), 1);
    poll_input_event_extend_data(&mut ctx, 5, 100);
    resume(&mut ctx, Reply::Polled { ready: true, broken: false });
    assert_eq!(code(resume(&mut ctx, Reply::Received(None))), -1);
    poll_input_event_extend_fds(&mut ctx, 9, 5000);
    match resume(&mut ctx, Reply::Polled { ready: true, broken: false }).next {
        Request::RecvFds { limit, .. } => assert_eq!(limit, 9),
        _ => panic!("descriptors"),
    }
    let fds = Reply::Fds { count: 8, bytes: words(&[104, 0]), fds: vec![50, 51] };
    assert_eq!(code(resume(&mut ctx, fds)), 2);
    poll_input_event_extend_fds(&mut ctx, 9, 5000);
    resume(&mut ctx, Reply::Polled { ready: true, broken: false });
    let other = Reply::Fds { count: 8, bytes: words(&[105, 0]), fds: vec![50] };
    assert_eq!(resume(&mut ctx, other).effects, vec![Effect::Close(50)]);
}

#[test]
fn a_frame_is_handed_over_with_its_fence() {
    let mut ctx = with_consumer();
    assert_eq!(set_render_fence(&mut ctx, 60), vec![]);
    assert_eq!(set_render_fence(&mut ctx, 61), vec![Effect::Close(60)]);
    match trigger_refresh(&mut ctx).next {
        Request::SendFence { fd, fence } => assert_eq!((fd, fence), (21, Some(61))),
        _ => panic!("a fence"),
    }
    let step = resume(&mut ctx, Reply::Sent(true));
    assert_eq!(step.effects, vec![Effect::Close(61)]);
    match trigger_refresh(&mut ctx).next {
        Request::SendFence { fence, .. } => assert_eq!(fence, None),
        _ => panic!("no fence"),
    }
}

#[test]
fn services_are_asked_for() {
    let mut ctx = with_consumer();
    match push_resources_request(&mut ctx, SERVICE_TYPE_CAMERA, None).next {
        Request::SendAll { fd, bytes } => {
            assert_eq!((fd, bytes), (22, words(&[103, 20, 2, 1, 0, 0, 0])));
        }
        _ => panic!("a request"),
    }
    assert_eq!(code(resume(&mut ctx, Reply::Sent(true))), 0);
    match push_resources_request(&mut ctx, 4, Some([5, 6, 7])).next {
        Request::SendAll { bytes, .. } => assert_eq!(bytes, words(&[103, 20, 2, 4, 5, 6, 7])),
        _ => panic!("a request"),
    }
    // A message that does not go out loses the consumer.
    resume(&mut ctx, Reply::Sent(false));
    assert!(is_fallback(&ctx));
}

#[test]
fn numbers_and_headers_have_their_bytes() {
    let mut out = vec![];
    push_u16(&mut out, 0x0201);
    push_u32(&mut out, 0x0605_0403);
    out.extend_from_slice(&[7, 8]);
    assert_eq!(out, vec![1, 2, 3, 4, 5, 6, 7, 8]);
    assert_eq!(le16_at(&out, 1), 0x0302);
    assert_eq!(le32_at(&out, 1), 0x0504_0302);
    assert_eq!(le64_at(&out, 0), 0x0807_0605_0403_0201);
    let header = decode_header(&encode_header(103, 20));
    assert_eq!((header.type_, header.size), (103, 20));
    let event = InputEvent { type_: 1, data: InputEventData { w0: 2, w1: 3, w2: 4, w3: 5 } };
    assert_eq!(
        event.data.touch(),
        TouchEvent { action: 2, x_bits: 3, y_bits: 4, pointer_id: 5 }
    );
}

#[test]
fn transfers_end_with_the_last_byte() {
    assert_eq!(Transfer::begin(0).1, TransferStatus::Complete);
    let (mut transfer, status) = Transfer::begin(10);
    assert_eq!(status, TransferStatus::Pending);
    assert_eq!(transfer.advance(IoOutcome::Moved(4)), TransferStatus::Pending);
    assert_eq!(transfer.advance(IoOutcome::Interrupted), TransferStatus::Pending);
    assert_eq!(transfer.advance(IoOutcome::Moved(6)), TransferStatus::Complete);
    assert_eq!(transfer.off, 10);
    for lost in [IoOutcome::Failed, IoOutcome::Moved(0)] {
        let (mut transfer, _) = Transfer::begin(10);
        assert_eq!(transfer.advance(lost), TransferStatus::Failed);
    }
    assert_eq!(send_fds(1, 1), 0);
    assert_eq!(send_fds(-1, 1), -1);
    let rights = Some(ControlMessage { rights: true, len: 36 });
    assert_eq!(recv_fds(rights, 16, 8), 5);
    assert_eq!(recv_fds(rights, 16, 3), 3);
    assert_eq!(recv_fds(Some(ControlMessage { rights: false, len: 36 }), 16, 8), 0);
    assert_eq!(recv_fds(None, 16, 8), 0);
}
