use std::time::Duration;

use anland::backend::anland::{
    choose_fence, hand_over, handle_resource_reply, polls_again, Anland, ConsumerPlan, Fence,
    InputPlan, RedrawState, ResourcePlan,
};
use anland::backend::clipboard::{
    payload_read, send_clipboard_to_consumer, set_compositor_clipboard, ClipboardAction,
    ClipboardReader, ClipboardUpdate,
};
use anland::backend::clock::{
    duration_to_micros, next_interval, pending_size_is_stable, poll_interval,
    FALLBACK_POLL_INTERVAL_NS,
};
use anland::backend::output::{
    clamp_u16, egl_device_for_env, path_is_valid, protocol_format_to_fourcc, socket_path,
    DevicePaths, Fourcc,
};
use anland::backend::tick::{Tick, TickAction, TickPhase, TickReply};
use anland::ffi::context::{connect_to_deamon, display_ctx, resume, Reply, Request};
use anland::ffi::model::{Effect, Phase};
use anland::ffi::protocol::{
    buf_info, InputEvent, InputEventData, INPUT_TYPE_CLIPBOARD, INPUT_TYPE_KEY,
    INPUT_TYPE_RESOURCE, INPUT_TYPE_TEXT_INPUT,
};

#[test]
fn pending_size_requires_continuous_stability() {
    let stability = Duration::from_millis(500).as_micros();
    let mut pending = None;

    assert!(!pending_size_is_stable(
        &mut pending,
        (2376, 1080),
        1_000_000,
        stability,
    ));
    assert_eq!(pending, Some((2376, 1080, 1_000_000)));
    assert!(!pending_size_is_stable(
        &mut pending,
        (2376, 1080),
        1_499_999,
        stability,
    ));
    assert!(pending_size_is_stable(
        &mut pending,
        (2376, 1080),
        1_500_000,
        stability,
    ));

    // A different orientation starts a fresh stability window.
    assert!(!pending_size_is_stable(
        &mut pending,
        (1080, 2376),
        1_500_001,
        stability,
    ));
    assert!(pending_size_is_stable(
        &mut pending,
        (1080, 2376),
        2_000_001,
        stability,
    ));
}

#[test]
fn a_clock_that_goes_back_is_not_stable() {
    let mut pending = Some((1, 2, 900));
    assert!(!pending_size_is_stable(&mut pending, (1, 2), 100, 1));
    assert!(pending_size_is_stable(&mut pending, (1, 2), 100, 0));
}

#[test]
fn durations_saturate() {
    assert_eq!(duration_to_micros(Duration::from_millis(500).as_micros()), 500_000);
    assert_eq!(duration_to_micros(u64::MAX as u128 + 1), u64::MAX);
}

#[test]
fn the_poll_interval_is_half_a_frame_within_bounds() {
    assert_eq!(poll_interval(60_000), 8_000_000);
    assert_eq!(poll_interval(90_000), 5_555_556);
    assert_eq!(poll_interval(120_000), 4_166_667);
    assert_eq!(poll_interval(144_000), 3_472_222);
    assert_eq!(poll_interval(102_400), 4_882_812);
    assert_eq!(poll_interval(500_000), 2_000_000);
    assert_eq!(poll_interval(0), 8_000_000);
    assert_eq!(poll_interval(1), 8_000_000);
    assert_eq!(poll_interval(u32::MAX), 2_000_000);
    assert_eq!(next_interval(true, 4_166_667), FALLBACK_POLL_INTERVAL_NS);
    assert_eq!(next_interval(false, 4_166_667), 4_166_667);
}

#[test]
fn the_poll_interval_is_that_of_floating_point() {
    for refresh in 60_000u32..260_000 {
        let half = Duration::from_secs_f64(0.5 / (refresh as f64 / 1000.0));
        let expected = half.clamp(Duration::from_millis(2), Duration::from_millis(8));
        assert_eq!(poll_interval(refresh) as u128, expected.as_nanos(), "{refresh} mHz");
    }
}

#[test]
fn pixel_formats_and_paths() {
    assert_eq!(protocol_format_to_fourcc(1), Fourcc::Abgr8888);
    assert_eq!(protocol_format_to_fourcc(0), Fourcc::Xrgb8888);
    assert_eq!(protocol_format_to_fourcc(2), Fourcc::Xrgb8888);
    assert_eq!(socket_path(None), "/run/display.sock");
    assert_eq!(socket_path(Some("/tmp/x".to_string())), "/tmp/x");
    assert!(path_is_valid(b"/tmp/x"));
    assert!(!path_is_valid(b"/tmp\0x"));
    assert_eq!(clamp_u16(-1), 0);
    assert_eq!(clamp_u16(65_535), 65_535);
    assert_eq!(clamp_u16(65_536), 65_535);
}

#[test]
fn the_first_device_that_fits_is_used() {
    let devices = vec![
        DevicePaths { drm: Some("/dev/dri/card0".to_string()), render: None },
        DevicePaths {
            drm: Some("/dev/dri/card1".to_string()),
            render: Some("/dev/dri/renderD129".to_string()),
        },
    ];
    assert_eq!(egl_device_for_env(&None, &devices), Some(0));
    assert_eq!(egl_device_for_env(&Some(String::new()), &devices), Some(0));
    assert_eq!(egl_device_for_env(&Some("/dev/dri/renderD129".to_string()), &devices), Some(1));
    assert_eq!(egl_device_for_env(&Some("/dev/dri/card1".to_string()), &devices), Some(1));
    assert_eq!(egl_device_for_env(&Some("/dev/dri/card7".to_string()), &devices), None);
    assert_eq!(egl_device_for_env(&None, &vec![]), None);
}

fn published(update: ClipboardUpdate) -> Option<String> {
    match update {
        ClipboardUpdate::Publish(text) => Some(text),
        _ => None,
    }
}

#[test]
fn an_empty_clipboard_clears() {
    assert!(matches!(set_compositor_clipboard(String::new()), ClipboardUpdate::Clear));
    assert_eq!(published(set_compositor_clipboard("a".to_string())), Some("a".to_string()));
    let mut state = Anland::new(0, 1920, 1080, 60_000, true).unwrap();
    assert_eq!(
        state.poll_input(1, event(INPUT_TYPE_CLIPBOARD, 0)),
        InputPlan::ClearClipboard
    );
}

#[test]
fn only_whole_text_reaches_the_clipboard() {
    let text = "gr\u{fc}\u{df} \u{1f980}";
    let bytes = text.as_bytes().to_vec();
    assert_eq!(published(payload_read(true, 1, bytes.clone())), Some(text.to_string()));
    assert!(matches!(payload_read(true, 0, bytes.clone()), ClipboardUpdate::Keep));
    assert!(matches!(payload_read(true, -1, bytes.clone()), ClipboardUpdate::Keep));
    assert!(matches!(payload_read(false, 1, bytes), ClipboardUpdate::Keep));
    for invalid in [vec![0xff], vec![0xc0, 0x80], vec![0xed, 0xa0, 0x80], vec![0xe2, 0x82]] {
        assert!(matches!(payload_read(true, 1, invalid), ClipboardUpdate::Keep));
    }
}

#[test]
fn a_clients_text_is_read_within_bounds() {
    let mut reader = ClipboardReader::new();
    assert_eq!(reader.next(0), ClipboardAction::Poll);
    assert_eq!(reader.polled(false, 1), ClipboardAction::Poll);
    assert_eq!(reader.polled(true, 1), ClipboardAction::Read);
    assert_eq!(reader.read(b"h\xc3", 1), ClipboardAction::Poll);
    assert_eq!(reader.read(b"\xa9!", 2_000_000_000), ClipboardAction::Poll);
    assert_eq!(reader.next(2_000_000_001), ClipboardAction::Finish);
    assert_eq!(reader.read(b"", 1), ClipboardAction::Finish);
    assert_eq!(reader.finish(), Some("h\u{e9}!".to_string()));

    let mut reader = ClipboardReader::new();
    let chunk = vec![b'x'; 4096];
    let mut reads = 0;
    while reader.next(0) == ClipboardAction::Poll {
        reader.read(&chunk, 0);
        reads += 1;
    }
    assert_eq!(reads, 513);
    let mut broken = ClipboardReader::new();
    broken.read(&[0xff], 0);
    assert_eq!(broken.finish(), None);
}

fn consumer() -> display_ctx {
    let (mut ctx, _) = connect_to_deamon(b"/run/display.sock");
    ctx.phase = Phase::Idle;
    ctx.fallback = false;
    ctx.ctrl_fd = 3;
    ctx.data_fd = 10;
    ctx.buf_ready_efd = 11;
    ctx.fence_fd = 12;
    ctx.shm_fd = 13;
    ctx.audio_fd = 14;
    ctx.shm_mapped = true;
    ctx.buf_count = 2;
    for i in 0..2 {
        ctx.dmabuf_fds[i] = 20 + i as i32;
        ctx.dmabuf_infos[i] = buf_info {
            stride: 7680,
            width: 1920,
            height: 1080,
            format: 1,
            modifier: 0,
            offset: 0,
        };
    }
    ctx
}

fn event(type_: u32, w0: u32) -> InputEvent {
    InputEvent { type_, data: InputEventData { w0, w1: 0, w2: 0, w3: 0 } }
}

#[test]
fn text_is_sent_with_its_length() {
    let mut ctx = consumer();
    let step = send_clipboard_to_consumer(&mut ctx, "h\u{e9}").unwrap();
    match step.next {
        Request::SendAll { fd, bytes } => {
            assert_eq!(fd, 10);
            let mut expected = vec![103, 0, 0, 0, 20, 0, 0, 0, 1, 0, 0, 0, 3, 0, 0, 0];
            expected.extend_from_slice(&[0; 12]);
            expected.extend_from_slice("h\u{e9}".as_bytes());
            assert_eq!(bytes, expected);
        }
        _ => panic!("a message"),
    }
    let mut ctx = consumer();
    ctx.fallback = true;
    assert!(send_clipboard_to_consumer(&mut ctx, "x").is_none());
}

#[test]
fn a_backend_needs_a_connection() {
    assert!(Anland::new(-1, 0, 0, 0, false).is_none());
    let state = Anland::new(0, 1920, 1080, 60_000, false).unwrap();
    assert_eq!(state.seat_name(), "anland");
    let plan = state.add_output();
    assert_eq!(plan.connector, "anland-0");
    assert_eq!((plan.make, plan.model, plan.serial), ("niri", "anland", "0"));
    assert_eq!((plan.width, plan.height, plan.refresh), (1920, 1080, 60_000));
    assert_eq!((plan.ipc_width, plan.ipc_height, plan.ipc_refresh), (1920, 1080, 60_000));
    let large = Anland::new(0, 65_537, 1, 1, false).unwrap();
    assert_eq!(large.add_output().ipc_width, 1);
}

#[test]
fn polling_looks_for_the_consumer_or_for_its_signal() {
    let mut state = Anland::new(0, 1920, 1080, 60_000, true).unwrap();
    let mut ctx = consumer();
    assert_eq!(state.check_consumer(&ctx), ConsumerPlan::CheckBufferReady(11));
    assert!(!state.is_in_fallback(&ctx));
    ctx.buf_ready_efd = -1;
    assert_eq!(state.check_consumer(&ctx), ConsumerPlan::Nothing);
    ctx.fallback = true;
    assert_eq!(state.check_consumer(&ctx), ConsumerPlan::Reconnect { detach: true });
    assert!(state.is_in_fallback(&ctx));
    assert!(state.dispose());
    assert!(!state.dispose());
    assert!(!state.is_in_fallback(&ctx));
}

#[test]
fn input_events_are_told_apart() {
    let mut state = Anland::new(0, 1920, 1080, 60_000, true).unwrap();
    assert_eq!(state.poll_input(0, event(INPUT_TYPE_KEY, 1)), InputPlan::Nothing);
    assert_eq!(state.poll_input(-1, event(INPUT_TYPE_KEY, 1)), InputPlan::Nothing);
    assert_eq!(state.poll_input(1, event(INPUT_TYPE_KEY, 1)), InputPlan::Translate);
    assert_eq!(
        state.poll_input(1, event(INPUT_TYPE_CLIPBOARD, 5)),
        InputPlan::ReadPayload { size: 5, clipboard: true }
    );
    assert_eq!(
        state.poll_input(1, event(INPUT_TYPE_TEXT_INPUT, 7)),
        InputPlan::ReadPayload { size: 7, clipboard: false }
    );
    assert_eq!(state.poll_input(1, event(INPUT_TYPE_TEXT_INPUT, 0)), InputPlan::Translate);
    assert_eq!(
        state.poll_input(1, event(INPUT_TYPE_RESOURCE, 1)),
        InputPlan::ReceiveResources { service: 1 }
    );
    let mut bare = Anland::new(0, 1920, 1080, 60_000, false).unwrap();
    assert_eq!(bare.poll_input(1, event(INPUT_TYPE_RESOURCE, 1)), InputPlan::Translate);
    state.consumer_dmabufs[1] = true;
    state.buffer_last_rendered_frame[1] = 4;
    assert_eq!(state.poll_input(-2, event(0, 0)), InputPlan::Redraw);
    assert_eq!(state.consumer_dmabufs, [false; 8]);
    assert_eq!(state.buffer_last_rendered_frame, [u64::MAX; 8]);
}

#[test]
fn the_descriptors_of_a_service_are_used_or_closed() {
    match handle_resource_reply(1, 3, &[7, 8, 9, 0]) {
        ResourcePlan::Cameras { ctrl, streams } => {
            assert_eq!(ctrl, 7);
            assert_eq!(streams, vec![8, 9]);
        }
        other => panic!("{other:?}"),
    }
    match handle_resource_reply(1, 1, &[7, 0]) {
        ResourcePlan::Close(fds) => assert_eq!(fds, vec![7]),
        other => panic!("{other:?}"),
    }
    match handle_resource_reply(2, 2, &[7, 8]) {
        ResourcePlan::Close(fds) => assert_eq!(fds, vec![7, 8]),
        other => panic!("{other:?}"),
    }
    assert!(matches!(handle_resource_reply(1, 0, &[]), ResourcePlan::Nothing));
    assert!(matches!(handle_resource_reply(1, -1, &[]), ResourcePlan::Nothing));
}

#[test]
fn a_frame_is_drawn_and_shown_before_the_next() {
    let mut state = Anland::new(0, 1920, 1080, 60_000, true).unwrap();
    let mut ctx = consumer();
    // The consumer did not ask for a frame yet.
    assert_eq!(state.render(&ctx, 0, (1920, 1080), 0, true).target, None);
    let plan = state.on_reconnect(&ctx, true);
    assert_eq!(plan.audio, Some(14));
    assert!(plan.request_cameras && plan.queue_redraw);
    for (n, buffer) in [(0u64, 0usize), (1, 1), (2, 0), (3, 0)] {
        let start = state.render(&ctx, buffer as u32, (1920, 1080), 0, true);
        let target = start.target.unwrap();
        assert_eq!((target.idx, target.fd), (buffer, 20 + buffer as i32));
        assert_eq!(target.imported, n > 1);
        let age = state.begin_frame(target.idx);
        assert_eq!(age, [0, 0, 2, 1][n as usize]);
        let fence = choose_fence(Some(40 + n as i32));
        let frame = state.finish_frame(&mut ctx, target.idx, fence, RedrawState::Queued);
        let next = frame.redraw;
        assert_eq!(next, RedrawState::WaitingForVBlank { redraw_needed: false });
        assert_eq!(frame.timer, None);
        assert!(frame.step.effects.is_empty());
        match frame.step.next {
            Request::SendFence { fd, fence } => {
                assert_eq!((fd, fence), (ctx.fence_fd, Some(40 + n as i32)));
            }
            _ => panic!("a frame without its fence"),
        }
        let told = resume(&mut ctx, Reply::Sent(true));
        assert_eq!(told.effects, vec![Effect::Close(40 + n as i32)]);
        assert!(matches!(told.next, Request::Return { code: 0, .. }));
        assert!(!state.consumer_ready && state.pending_feedback);
        assert_eq!(state.frame_seq, n + 1);
        assert_eq!(state.buffer_last_rendered_frame[buffer], n);
        assert!(state.consumer_dmabufs[buffer]);
        assert_eq!(state.render(&ctx, 0, (1920, 1080), 0, true).target, None);
        let shown = state.on_buffer_ready(Some(next), 1_000_000_000 * n as u128).unwrap();
        assert!(!shown.unexpected);
        assert_eq!(shown.presented, Some(n + 1));
        assert_eq!((shown.redraw, shown.queue_redraw), (RedrawState::Idle, true));
        assert_eq!(shown.stats.map(|s| (s.frames, s.elapsed_ns)), match n {
            2 => Some((3, 2_000_000_000)),
            _ => None,
        });
    }
    let again = state.on_buffer_ready(Some(RedrawState::Idle), 0).unwrap();
    assert!(again.unexpected);
    assert_eq!(again.presented, None);
    assert_eq!(state.on_buffer_ready(None, 0), None);
}

#[test]
fn a_timer_that_stood_for_the_display_is_ended() {
    let mut state = Anland::new(0, 1920, 1080, 60_000, true).unwrap();
    let queued = RedrawState::WaitingForEstimatedVBlankAndQueued(77);
    let frame = state.finish_frame(&mut consumer(), 3, choose_fence(None), queued);
    assert_eq!(frame.timer, Some(77));
}

#[test]
fn a_buffer_that_failed_is_imported_again() {
    let mut state = Anland::new(0, 1920, 1080, 60_000, true).unwrap();
    let mut ctx = consumer();
    state.on_reconnect(&ctx, false);
    let target = state.render(&ctx, 0, (1920, 1080), 0, true).target.unwrap();
    state.begin_frame(target.idx);
    state.finish_frame(&mut ctx, target.idx, choose_fence(None), RedrawState::Queued);
    state.on_buffer_ready(None, 0);
    assert!(state.render(&ctx, 0, (1920, 1080), 0, true).target.unwrap().imported);
    // That frame was not finished.
    assert!(!state.render(&ctx, 0, (1920, 1080), 0, true).target.unwrap().imported);
}

#[test]
fn buffers_that_are_not_there_are_skipped() {
    let mut state = Anland::new(0, 1920, 1080, 60_000, true).unwrap();
    let mut ctx = consumer();
    state.on_reconnect(&ctx, false);
    assert_eq!(state.render(&ctx, 9, (1920, 1080), 0, true).target.unwrap().idx, 0);
    assert_eq!(state.render(&ctx, 1, (1920, 1080), 0, false).target, None);
    ctx.dmabuf_fds[0] = -1;
    assert_eq!(state.render(&ctx, 0, (1920, 1080), 0, true).target, None);
    ctx.fallback = true;
    assert_eq!(state.render(&ctx, 1, (1920, 1080), 0, true).target, None);
}

#[test]
fn a_size_that_lasts_is_taken_over() {
    let mut state = Anland::new(0, 1080, 1920, 60_000, true).unwrap();
    let ctx = consumer();
    state.on_reconnect(&ctx, false);
    let size = (1080, 1920);
    assert_eq!(state.render(&ctx, 0, size, 1_000_000, true).adapt, None);
    assert_eq!(state.render(&ctx, 0, size, 1_499_999, true).adapt, None);
    let mode = state.render(&ctx, 0, size, 1_500_000, true).adapt.unwrap();
    assert_eq!((mode.width, mode.height, mode.refresh), (1920, 1080, 60_000));
    assert_eq!((mode.ipc_width, mode.ipc_height), (1920, 1080));
    assert_eq!((mode.logical_width, mode.logical_height), (1920, 1080));
    assert_eq!((state.screen_w, state.native_h), (1920, 1080));
    assert_eq!(state.pending_size, None);
    assert_eq!(state.size_adapt_cooldown_until, 2_000_000);
    // The same size again is nothing new.
    assert_eq!(state.render(&ctx, 0, (1920, 1080), 3_000_000, true).adapt, None);
    // A clock at its end does not run over.
    state.pending_size = Some((1920, 1080, 0));
    assert!(state.render(&ctx, 0, size, u64::MAX, true).adapt.is_some());
    assert_eq!(state.size_adapt_cooldown_until, u64::MAX);
}

#[test]
fn alternating_sizes_are_not_taken_over() {
    let mut state = Anland::new(0, 1080, 1920, 60_000, true).unwrap();
    let mut ctx = consumer();
    ctx.dmabuf_infos[1].width = 1280;
    state.on_reconnect(&ctx, false);
    for n in 0..20u64 {
        let now = n * 600_000;
        assert_eq!(state.render(&ctx, (n % 2) as u32, (1080, 1920), now, true).adapt, None);
    }
}

#[test]
fn a_consumer_is_looked_for_only_when_it_is_gone() {
    let state = Anland::new(0, 1920, 1080, 60_000, true).unwrap();
    let mut ctx = consumer();
    assert!(state.try_reconnect(&mut ctx).is_none());
    ctx.fallback = true;
    match state.try_reconnect(&mut ctx).unwrap().next {
        Request::SendAll { fd, bytes } => {
            assert_eq!((fd, bytes), (3, vec![9, 0, 0, 0, 0, 0, 0, 0]));
        }
        _ => panic!("a pickup"),
    }
}

#[test]
fn a_frame_without_a_fence_is_waited_for() {
    assert_eq!(choose_fence(Some(4)), Fence { fd: 4, wait: false });
    assert_eq!(choose_fence(None), Fence { fd: -1, wait: true });
}

#[test]
fn a_fence_replaces_the_one_before_it() {
    let mut ctx = consumer();
    ctx.pending_render_fence = 30;
    let step = hand_over(&mut ctx, Fence { fd: 31, wait: false });
    assert_eq!(step.effects, vec![Effect::Close(30)]);
    assert!(matches!(step.next, Request::SendFence { fence: Some(31), .. }));
    let mut ctx = consumer();
    ctx.fallback = true;
    ctx.pending_render_fence = 30;
    let step = hand_over(&mut ctx, Fence { fd: 31, wait: false });
    assert_eq!(step.effects, vec![Effect::Close(30), Effect::Close(31)]);
    assert!(matches!(step.next, Request::Return { code: 0, .. }));
    assert_eq!(ctx.pending_render_fence, -1);
}

#[test]
fn the_count_of_frames_stops_at_its_largest() {
    let mut state = Anland::new(0, 1920, 1080, 60_000, true).unwrap();
    state.frame_stats_count = u32::MAX;
    state.frame_stats_start_ns = 1;
    let shown = state.on_buffer_ready(Some(RedrawState::Idle), 1).unwrap();
    assert_eq!(shown.stats, None);
    assert_eq!(state.frame_stats_count, u32::MAX);
}

#[test]
fn input_is_polled_for_until_there_is_none() {
    for plan in [
        InputPlan::Translate,
        InputPlan::ClearClipboard,
        InputPlan::ReadPayload { size: 1, clipboard: true },
    ] {
        assert!(polls_again(plan, true));
        assert!(!polls_again(plan, false));
    }
    for plan in
        [InputPlan::Nothing, InputPlan::Redraw, InputPlan::ReceiveResources { service: 1 }]
    {
        assert!(!polls_again(plan, true));
    }
}

fn exchanged(code: i32, event: Option<InputEvent>) -> TickReply {
    TickReply::Exchanged { code, event, bytes: vec![], fds: vec![] }
}

/// A turn in which text was forwarded.
fn asking() -> Tick {
    Tick { active_interval: 8_000_000, has_output: true, phase: TickPhase::Asking }
}

/// Runs the exchange of an action to its end, and hands the reply on.
fn after_exchange(
    tick: &mut Tick,
    state: &mut Anland,
    ctx: &mut display_ctx,
    reply: TickReply,
) -> TickAction {
    ctx.phase = Phase::Idle;
    tick.resume(state, ctx, reply)
}

#[test]
fn a_turn_forwards_text_first() {
    let mut state = Anland::new(0, 1920, 1080, 60_000, true).unwrap();
    let mut ctx = consumer();
    let (mut tick, action) = state.poll(8_000_000, true);
    assert!(matches!(action, TickAction::FetchText));
    match tick.resume(&mut state, &mut ctx, TickReply::Text(Some("hi".to_string()))) {
        TickAction::Exchange(step) => match step.next {
            Request::SendAll { fd, bytes } => {
                assert_eq!(fd, ctx.data_fd);
                assert_eq!(&bytes[bytes.len() - 2..], b"hi");
            }
            _ => panic!("text that is not sent"),
        },
        _ => panic!("text that is not sent"),
    }
    let action = after_exchange(&mut tick, &mut state, &mut ctx, exchanged(0, None));
    assert!(matches!(action, TickAction::FetchText));
    // Without a consumer the text is dropped.
    ctx.fallback = true;
    let action = tick.resume(&mut state, &mut ctx, TickReply::Text(Some("hi".to_string())));
    assert!(matches!(action, TickAction::FetchText));
    let action = tick.resume(&mut state, &mut ctx, TickReply::Text(None));
    assert!(matches!(action, TickAction::AskClients));
    assert_eq!(tick, asking());
}

#[test]
fn a_turn_looks_for_a_lost_consumer_once() {
    let mut state = Anland::new(0, 1920, 1080, 60_000, true).unwrap();
    let mut ctx = consumer();
    ctx.fallback = true;
    let mut tick = asking();
    let action = tick.resume(&mut state, &mut ctx, TickReply::Done);
    assert!(matches!(action, TickAction::Detach));
    let action = tick.resume(&mut state, &mut ctx, TickReply::Done);
    match action {
        TickAction::Exchange(step) => {
            assert!(matches!(step.next, Request::SendAll { fd, .. } if fd == ctx.ctrl_fd));
        }
        _ => panic!("nobody is looked for"),
    }
    assert_eq!(tick.phase, TickPhase::Reconnecting);
    // Nobody came: there is no input either, and the next turn is a long way off.
    let mut lost = tick;
    let action = after_exchange(&mut lost, &mut state, &mut ctx, exchanged(-1, None));
    match action {
        TickAction::Exchange(step) => assert!(matches!(step.next, Request::Return { code: 0, .. })),
        _ => panic!("no input is polled for"),
    }
    let action = after_exchange(&mut lost, &mut state, &mut ctx, exchanged(0, None));
    assert!(matches!(action, TickAction::Flush));
    let action = lost.resume(&mut state, &mut ctx, TickReply::Done);
    assert!(matches!(action, TickAction::Wait(500_000_000)));
    // The consumer came.
    ctx.fallback = false;
    match after_exchange(&mut tick, &mut state, &mut ctx, exchanged(0, None)) {
        TickAction::Recover(plan) => {
            assert_eq!(plan.audio, Some(14));
            assert!(plan.request_cameras && plan.queue_redraw);
        }
        _ => panic!("a consumer that nobody greets"),
    }
    assert!(state.consumer_ready);
    let action = tick.resume(&mut state, &mut ctx, TickReply::Done);
    assert!(matches!(action, TickAction::Exchange(_)));
    assert_eq!(tick.phase, TickPhase::Requesting);
    let action = after_exchange(&mut tick, &mut state, &mut ctx, exchanged(0, None));
    assert!(matches!(action, TickAction::Exchange(_)));
    assert_eq!(tick.phase, TickPhase::Polling);
    let action = after_exchange(&mut tick, &mut state, &mut ctx, exchanged(0, None));
    assert!(matches!(action, TickAction::Flush));
    let action = tick.resume(&mut state, &mut ctx, TickReply::Done);
    assert!(matches!(action, TickAction::Wait(8_000_000)));
}

#[test]
fn a_turn_completes_the_frame_that_was_shown() {
    let mut state = Anland::new(0, 1920, 1080, 60_000, true).unwrap();
    let mut ctx = consumer();
    assert_eq!(state.drain_buffer_ready(&ctx), Some(11));
    let mut tick = asking();
    let action = tick.resume(&mut state, &mut ctx, TickReply::Done);
    assert!(matches!(action, TickAction::CheckBufferReady(11)));
    for (result, readable) in [(0, true), (-1, true), (1, false)] {
        let mut unseen = tick;
        let reply = TickReply::Looked { result, readable };
        let action = unseen.resume(&mut state, &mut ctx, reply);
        assert!(matches!(action, TickAction::Exchange(_)));
        assert_eq!(unseen.phase, TickPhase::Polling);
        ctx.phase = Phase::Idle;
    }
    let reply = TickReply::Looked { result: 1, readable: true };
    let action = tick.resume(&mut state, &mut ctx, reply);
    assert!(matches!(action, TickAction::DrainBufferReady(11)));
    let output = Some(RedrawState::WaitingForVBlank { redraw_needed: true });
    match tick.resume(&mut state, &mut ctx, TickReply::Drained { output, now_ns: 5 }) {
        TickAction::Show(plan) => {
            assert!(!plan.unexpected && plan.queue_redraw);
            assert_eq!(plan.redraw, RedrawState::Idle);
        }
        _ => panic!("a frame that was shown"),
    }
    assert!(state.consumer_ready);
    let action = tick.resume(&mut state, &mut ctx, TickReply::Done);
    assert!(matches!(action, TickAction::Exchange(_)));
    assert_eq!(tick.phase, TickPhase::Polling);
    // Without a descriptor there is no signal.
    ctx.phase = Phase::Idle;
    ctx.buf_ready_efd = -1;
    assert_eq!(state.drain_buffer_ready(&ctx), None);
    let mut tick = asking();
    tick.resume(&mut state, &mut ctx, TickReply::Done);
    assert_eq!(tick.phase, TickPhase::Polling);
}

#[test]
fn a_turn_takes_all_input() {
    let mut state = Anland::new(0, 1920, 1080, 60_000, true).unwrap();
    let mut ctx = consumer();
    let mut tick = Tick { phase: TickPhase::Polling, ..asking() };
    // A key.
    let key = Some(event(INPUT_TYPE_KEY, 1));
    let action = tick.resume(&mut state, &mut ctx, exchanged(1, key));
    assert!(matches!(action, TickAction::Translate(e) if e.type_ == INPUT_TYPE_KEY));
    let action = tick.resume(&mut state, &mut ctx, TickReply::Translated(true));
    assert!(matches!(action, TickAction::Exchange(_)));
    assert_eq!(tick.phase, TickPhase::Polling);
    // A clipboard.
    let clipboard = Some(event(INPUT_TYPE_CLIPBOARD, 2));
    let action = after_exchange(&mut tick, &mut state, &mut ctx, exchanged(1, clipboard));
    match action {
        TickAction::Exchange(step) => {
            assert!(matches!(step.next, Request::Poll { timeout_ms: 100, .. }));
        }
        _ => panic!("a payload that is not read"),
    }
    let payload =
        TickReply::Exchanged { code: 1, event: None, bytes: b"hi".to_vec(), fds: vec![] };
    match after_exchange(&mut tick, &mut state, &mut ctx, payload) {
        TickAction::UpdateClipboard(ClipboardUpdate::Publish(text)) => assert_eq!(text, "hi"),
        _ => panic!("text that is not published"),
    }
    let action = tick.resume(&mut state, &mut ctx, TickReply::Done);
    assert!(matches!(action, TickAction::Translate(e) if e.type_ == INPUT_TYPE_CLIPBOARD));
    let mut untranslated = tick;
    let action = untranslated.resume(&mut state, &mut ctx, TickReply::Translated(false));
    assert!(matches!(action, TickAction::Flush));
    tick.resume(&mut state, &mut ctx, TickReply::Translated(true));
    // A clipboard without text.
    let mut cleared = tick;
    let nothing = Some(event(INPUT_TYPE_CLIPBOARD, 0));
    let action = after_exchange(&mut cleared, &mut state, &mut ctx, exchanged(1, nothing));
    assert!(matches!(action, TickAction::UpdateClipboard(ClipboardUpdate::Clear)));
    // New buffers.
    let mut renewed = tick;
    let action = after_exchange(&mut renewed, &mut state, &mut ctx, exchanged(-2, None));
    assert!(matches!(action, TickAction::Redraw));
    let action = renewed.resume(&mut state, &mut ctx, TickReply::Done);
    assert!(matches!(action, TickAction::Flush));
    // Cameras.
    let cameras = Some(event(INPUT_TYPE_RESOURCE, 1));
    let action = after_exchange(&mut tick, &mut state, &mut ctx, exchanged(1, cameras));
    match action {
        TickAction::Exchange(step) => {
            assert!(matches!(step.next, Request::Poll { timeout_ms: 5000, .. }));
        }
        _ => panic!("descriptors that are not received"),
    }
    let fds = TickReply::Exchanged { code: 3, event: None, bytes: vec![], fds: vec![7, 8, 9] };
    match after_exchange(&mut tick, &mut state, &mut ctx, fds) {
        TickAction::UseResources(ResourcePlan::Cameras { ctrl, streams }) => {
            assert_eq!((ctrl, streams), (7, vec![8, 9]));
        }
        _ => panic!("cameras that are not used"),
    }
    let action = tick.resume(&mut state, &mut ctx, TickReply::Done);
    assert!(matches!(action, TickAction::Flush));
}

#[test]
fn a_reply_to_something_else_ends_a_turn() {
    let mut state = Anland::new(0, 1920, 1080, 60_000, true).unwrap();
    let mut ctx = consumer();
    let mut tick = asking();
    let action = tick.resume(&mut state, &mut ctx, TickReply::Translated(true));
    assert!(matches!(action, TickAction::Wait(8_000_000)));
    assert_eq!(tick.phase, TickPhase::Ended);
}
