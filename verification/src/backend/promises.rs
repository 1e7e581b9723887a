//! What the backend is for, in terms of what comes in and what goes out.
use vstd::prelude::*;
use vstd::utf8::{decode_utf8, encode_utf8, valid_utf8};

use crate::backend::anland::{
    consumer_plan, fence_of, handed_over, output_mode, resource_plan, told_mode, AnlandModel,
    ConsumerPlan, InputPlan, RedrawState, ResourcePlanModel,
};
use crate::backend::clipboard::{
    clipboard_sending, payload_update, ClipboardAction, ClipboardReader, ClipboardUpdateModel,
};
use crate::backend::clock::{active_interval, rounded_quotient};
use crate::backend::output::{device_fits, fourcc_of, mode_for, DevicePaths, Fourcc};
use crate::bytes::le32;
use crate::counter::following;
use crate::ffi::message_laws::law_output_events_round_trip;
use crate::ffi::model::{CtxModel, Effect, RequestModel};
use crate::ffi::protocol::{InputEvent, InputEventData};

verus! {

/// The frame is drawn into the buffer that the consumer selected: its place, its descriptor and
/// its layout are those of the selected one, wherever it stands among the buffers.
pub proof fn law_the_selected_buffer_is_drawn_into(
    s: AnlandModel,
    ctx: CtxModel,
    shared_idx: u32,
    size: (i32, i32),
    now_usec: u64,
)
    requires
        ctx.wf(),
        !ctx.fallback,
        s.consumer_ready,
        ctx.shm_mapped,
        shared_idx < ctx.buf_count,
        ctx.dmabuf_fds[shared_idx as int] >= 0,
    ensures
        s.rendering(ctx, shared_idx, size, now_usec, true).1.target matches Some(t) && {
            &&& t.idx == shared_idx
            &&& t.fd == ctx.dmabuf_fds[shared_idx as int]
            &&& t.info == ctx.dmabuf_infos[shared_idx as int]
            &&& t.imported == s.imported[shared_idx as int]
        },
{
}

/// An index that is not mapped, or that names no buffer, counts as the first buffer.
pub proof fn law_without_a_selection_the_first_buffer_is_drawn_into(
    s: AnlandModel,
    ctx: CtxModel,
    shared_idx: u32,
    size: (i32, i32),
    now_usec: u64,
)
    requires
        ctx.wf(),
        !ctx.fallback,
        s.consumer_ready,
        !ctx.shm_mapped || shared_idx >= ctx.buf_count,
        ctx.buf_count > 0,
        ctx.dmabuf_fds[0] >= 0,
    ensures
        s.rendering(ctx, shared_idx, size, now_usec, true).1.target matches Some(t) && {
            &&& t.idx == 0
            &&& t.fd == ctx.dmabuf_fds[0]
            &&& t.info == ctx.dmabuf_infos[0]
            &&& t.imported == s.imported[0]
        },
{
}

/// Nothing is drawn, and nothing changes, unless the consumer is there, waits for a frame and has
/// a buffer for it. Without a renderer nothing is drawn either.
pub proof fn law_frames_are_skipped_without_a_buffer(
    s: AnlandModel,
    ctx: CtxModel,
    shared_idx: u32,
    size: (i32, i32),
    now_usec: u64,
    renderer: bool,
)
    requires
        ctx.wf(),
    ensures
        ctx.fallback || !s.consumer_ready || ctx.buf_count == 0 ==> ({
            let (after, start) = s.rendering(ctx, shared_idx, size, now_usec, renderer);
            after == s && start.target is None && start.adapt is None
        }),
        ctx.shm_mapped && shared_idx < ctx.buf_count && ctx.dmabuf_fds[shared_idx as int] < 0 ==> ({
            let (after, start) = s.rendering(ctx, shared_idx, size, now_usec, renderer);
            after == s && start.target is None && start.adapt is None
        }),
        s.rendering(ctx, shared_idx, size, now_usec, false).1.target is None,
        s.rendering(ctx, shared_idx, size, now_usec, false).0.imported == s.imported,
{
}

/// While a buffer is drawn into, it alone counts as not imported; a buffer of the output's own
/// size changes nothing else but that no other size is waited for.
pub proof fn law_drawing_concerns_one_buffer(
    s: AnlandModel,
    ctx: CtxModel,
    shared_idx: u32,
    now_usec: u64,
    i: int,
)
    requires
        ctx.wf(),
        !ctx.fallback,
        s.consumer_ready,
        ctx.shm_mapped,
        shared_idx < ctx.buf_count,
        ctx.dmabuf_fds[shared_idx as int] >= 0,
        s.imported.len() == 8,
        s.rendered.len() == 8,
        0 <= i < 8,
    ensures
        ({
            let info = ctx.dmabuf_infos[shared_idx as int];
            let size = (info.width as i32, info.height as i32);
            let (after, start) = s.rendering(ctx, shared_idx, size, now_usec, true);
            &&& start.adapt is None
            &&& after.imported[i] == (if i == shared_idx {
                false
            } else {
                s.imported[i]
            })
            &&& after.rendered == s.rendered
            &&& after.pending_size is None
            &&& (after.screen_w, after.screen_h) == (s.screen_w, s.screen_h)
            &&& (after.native_w, after.native_h) == (s.native_w, s.native_h)
            &&& after.frame_seq == s.frame_seq && after.consumer_ready == s.consumer_ready
            &&& after.size_adapt_cooldown_until == s.size_adapt_cooldown_until
        }),
{
}

/// A size that lasts is taken over: when the consumer's buffers have another size than the output,
/// and have had it for half a second, and half a second has passed since the last change, then the
/// output takes it, whatever it is.
pub proof fn law_lasting_sizes_are_taken_over(
    s: AnlandModel,
    ctx: CtxModel,
    shared_idx: u32,
    size: (i32, i32),
    since_usec: u64,
    now_usec: u64,
    renderer: bool,
)
    requires
        ctx.wf(),
        !ctx.fallback,
        s.consumer_ready,
        ctx.shm_mapped,
        shared_idx < ctx.buf_count,
        ctx.dmabuf_fds[shared_idx as int] >= 0,
        ({
            let info = ctx.dmabuf_infos[shared_idx as int];
            let (w, h) = (info.width as i32, info.height as i32);
            (w != size.0 || h != size.1) && s.pending_size == Some((w, h, since_usec))
        }),
        now_usec - since_usec >= 500_000,
        now_usec >= s.size_adapt_cooldown_until,
    ensures
        ({
            let info = ctx.dmabuf_infos[shared_idx as int];
            let (w, h) = (info.width as i32, info.height as i32);
            let (after, start) = s.rendering(ctx, shared_idx, size, now_usec, renderer);
            &&& start.adapt matches Some(mode) && mode.width == w && mode.height == h
                && mode.refresh == s.screen_refresh as i32 && mode.logical_width == info.width
                && mode.logical_height == info.height
            &&& after.screen_w == info.width && after.screen_h == info.height
            &&& after.native_w == info.width && after.native_h == info.height
            &&& after.screen_refresh == s.screen_refresh
            &&& after.pending_size is None
            &&& now_usec + 500_000 <= u64::MAX ==> after.size_adapt_cooldown_until == now_usec
                + 500_000
            &&& now_usec + 500_000 > u64::MAX ==> after.size_adapt_cooldown_until == u64::MAX
        }),
{
    let info = ctx.dmabuf_infos[shared_idx as int];
    let (w, h) = (info.width, info.height);
    assert((w as i32) as u32 == w) by (bit_vector);
    assert((h as i32) as u32 == h) by (bit_vector);
}

/// Two frames are enough: a new size that is seen once, and again half a second later, is taken
/// over, if no change came shortly before.
pub proof fn law_a_rotated_screen_is_followed(
    s: AnlandModel,
    ctx: CtxModel,
    shared_idx: u32,
    size: (i32, i32),
    first_usec: u64,
    now_usec: u64,
    renderer: bool,
)
    requires
        ctx.wf(),
        !ctx.fallback,
        s.consumer_ready,
        ctx.shm_mapped,
        shared_idx < ctx.buf_count,
        ctx.dmabuf_fds[shared_idx as int] >= 0,
        ({
            let info = ctx.dmabuf_infos[shared_idx as int];
            let (w, h) = (info.width as i32, info.height as i32);
            &&& w != size.0 || h != size.1
            &&& s.pending_size matches Some((pw, ph, _)) ==> pw != w || ph != h
        }),
        now_usec - first_usec >= 500_000,
        now_usec >= s.size_adapt_cooldown_until,
    ensures
        ({
            let info = ctx.dmabuf_infos[shared_idx as int];
            let (w, h) = (info.width as i32, info.height as i32);
            let (seen, first) = s.rendering(ctx, shared_idx, size, first_usec, renderer);
            let (after, second) = seen.rendering(ctx, shared_idx, size, now_usec, renderer);
            &&& first.adapt is None
            &&& (seen.screen_w, seen.screen_h) == (s.screen_w, s.screen_h)
            &&& second.adapt matches Some(mode) && mode.width == w && mode.height == h
            &&& after.screen_w == info.width && after.screen_h == info.height
        }),
{
    let info = ctx.dmabuf_infos[shared_idx as int];
    let (w, h) = (info.width, info.height);
    assert((w as i32) as u32 == w) by (bit_vector);
    assert((h as i32) as u32 == h) by (bit_vector);
}

/// A size that does not last is not taken over: not before half a second has passed since it was
/// first seen, nor before the last change is half a second old. What was first seen stays noted.
pub proof fn law_sizes_are_not_taken_over_early(
    s: AnlandModel,
    ctx: CtxModel,
    shared_idx: u32,
    size: (i32, i32),
    since_usec: u64,
    now_usec: u64,
    renderer: bool,
)
    requires
        ctx.wf(),
        ctx.shm_mapped,
        shared_idx < ctx.buf_count,
        ({
            let info = ctx.dmabuf_infos[shared_idx as int];
            let (w, h) = (info.width as i32, info.height as i32);
            (w != size.0 || h != size.1) && s.pending_size == Some((w, h, since_usec))
        }),
        now_usec - since_usec < 500_000 || now_usec < s.size_adapt_cooldown_until,
    ensures
        ({
            let (after, start) = s.rendering(ctx, shared_idx, size, now_usec, renderer);
            &&& start.adapt is None
            &&& after.pending_size == s.pending_size
            &&& (after.screen_w, after.screen_h) == (s.screen_w, s.screen_h)
            &&& (after.native_w, after.native_h) == (s.native_w, s.native_h)
            &&& after.size_adapt_cooldown_until == s.size_adapt_cooldown_until
        }),
{
}

/// A mode has the size and the refresh rate that it is made from; where only 16 bits without a sign
/// are told, the nearest number is.
pub proof fn law_modes_have_their_size(width: i32, height: i32, refresh: u32)
    ensures
        ({
            let mode = mode_for(width, height, refresh);
            &&& mode.width == width && mode.height == height && mode.refresh == refresh as i32
            &&& 0 <= width <= 65_535 ==> mode.ipc_width == width
            &&& width < 0 ==> mode.ipc_width == 0
            &&& width > 65_535 ==> mode.ipc_width == 65_535
            &&& 0 <= height <= 65_535 ==> mode.ipc_height == height
            &&& height < 0 ==> mode.ipc_height == 0
            &&& height > 65_535 ==> mode.ipc_height == 65_535
            &&& width >= 0 ==> mode.logical_width == width
            &&& height >= 0 ==> mode.logical_height == height
        }),
{
}

/// The pixel format 1 has red first and alpha, every other one is taken as blue first without
/// alpha.
pub proof fn law_pixel_formats(format: u32)
    ensures
        fourcc_of(format) == Fourcc::Abgr8888 <==> format == 1,
        fourcc_of(format) == Fourcc::Xrgb8888 <==> format != 1,
{
}

/// A fence that could be exported is what the consumer waits for, and nobody else does. Without one
/// the frame is waited for before it is handed over, and no fence is sent.
pub proof fn law_every_frame_is_waited_for(ctx: CtxModel, exported: Option<i32>)
    requires
        ctx.wf(),
        !ctx.fallback,
        exported matches Some(fd) ==> fd >= 0,
    ensures
        ({
            let fence = fence_of(exported);
            let (_, step) = handed_over(ctx, fence.fd);
            &&& fence.wait == exported is None
            &&& step.next matches RequestModel::SendFence { fd, fence: sent } && fd == ctx.fence_fd
                && sent == exported
            &&& ctx.pending_render_fence < 0 ==> step.effects.len() == 0
            &&& ctx.pending_render_fence >= 0 ==> step.effects == seq![
                Effect::Close(ctx.pending_render_fence),
            ]
        }),
{
    let (_, step) = handed_over(ctx, fence_of(exported).fd);
    assert(ctx.pending_render_fence < 0 ==> step.effects =~= Seq::empty());
    assert(ctx.pending_render_fence >= 0 ==> step.effects =~= seq![
        Effect::Close(ctx.pending_render_fence),
    ]);
}

/// A frame that is submitted has its number noted for its buffer and no other; the next frame has
/// the next number, or the first after the last. Nothing is drawn until the consumer answers.
pub proof fn law_submitting_counts_the_frame(s: AnlandModel, idx: int, i: int)
    requires
        s.rendered.len() == 8,
        s.imported.len() == 8,
        0 <= idx < 8,
        0 <= i < 8,
    ensures
        ({
            let after = s.drawing(idx).submitted(idx);
            &&& (after.frame_seq - s.frame_seq) % 0x1_0000_0000_0000_0000 == 1
            &&& after.rendered[i] == (if i == idx {
                s.frame_seq
            } else {
                s.rendered[i]
            })
            &&& after.imported[i] == (if i == idx {
                true
            } else {
                s.imported[i]
            })
            &&& !after.consumer_ready && after.pending_feedback
            &&& (after.screen_w, after.screen_h) == (s.screen_w, s.screen_h)
            &&& (after.native_w, after.native_h) == (s.native_w, s.native_h)
            &&& after.pending_size == s.pending_size
            &&& after.size_adapt_cooldown_until == s.size_adapt_cooldown_until
            &&& after.frame_stats_count == s.frame_stats_count
            &&& after.frame_stats_start_ns == s.frame_stats_start_ns
            &&& after.services == s.services && after.disposed == s.disposed
        }),
{
}

/// A number is followed by the next one.
pub proof fn law_numbers_follow_each_other(n: u64)
    ensures
        (following(n) - n) % 0x1_0000_0000_0000_0000 == 1,
{
}

/// The age of a buffer is how many frames ago it was drawn into, and 0 if it never was.
pub proof fn law_ages(s: AnlandModel, idx: int)
    requires
        0 <= idx < s.rendered.len(),
    ensures
        s.rendered[idx] == u64::MAX ==> s.age(idx) == 0,
        s.rendered[idx] != u64::MAX && 0 <= s.frame_seq - s.rendered[idx] <= u32::MAX ==> s.age(idx)
            == s.frame_seq - s.rendered[idx],
        s.rendered[idx] != u64::MAX && s.frame_seq < s.rendered[idx] && s.frame_seq
            + 0x1_0000_0000_0000_0000 - s.rendered[idx] <= u32::MAX ==> s.age(idx) == s.frame_seq
            + 0x1_0000_0000_0000_0000 - s.rendered[idx],
{
}

/// With a new consumer everything starts over: it waits for a frame, its buffers are new, no other
/// size is waited for and the input has the size of the output. The numbers of frames go on. Audio
/// goes to its socket and its cameras are asked for, if that is supported, and the output is drawn.
pub proof fn law_a_new_consumer_starts_over(
    s: AnlandModel,
    ctx: CtxModel,
    has_output: bool,
    i: int,
)
    requires
        0 <= i < 8,
    ensures
        ({
            let after = s.reconnected();
            &&& after.consumer_ready && !after.pending_feedback
            &&& after.rendered.len() == 8 && after.rendered[i] == u64::MAX
            &&& after.imported.len() == 8 && !after.imported[i]
            &&& after.pending_size is None && after.size_adapt_cooldown_until == 0
            &&& after.native_w == s.screen_w && after.native_h == s.screen_h
            &&& after.screen_w == s.screen_w && after.screen_h == s.screen_h
            &&& after.screen_refresh == s.screen_refresh
            &&& after.frame_seq == s.frame_seq
            &&& after.frame_stats_count == s.frame_stats_count
            &&& after.frame_stats_start_ns == s.frame_stats_start_ns
            &&& after.services == s.services && after.disposed == s.disposed
        }),
        ({
            let plan = s.reconnect_plan(ctx, has_output);
            &&& plan.queue_redraw == has_output
            &&& plan.request_cameras == s.services
            &&& s.services && !ctx.fallback ==> plan.audio == Some(ctx.audio_fd)
            &&& s.services && ctx.fallback ==> plan.audio == Some(-1i32)
            &&& !s.services ==> plan.audio is None
        }),
{
}

/// A consumer that is gone is looked for, after the services let go of it; of one that is there,
/// the signal is looked at, if it has one.
pub proof fn law_the_consumer_is_looked_after(s: AnlandModel, ctx: CtxModel)
    ensures
        ctx.fallback ==> consumer_plan(s, ctx) == (ConsumerPlan::Reconnect { detach: s.services }),
        !ctx.fallback && ctx.buf_ready_efd >= 0 ==> consumer_plan(s, ctx)
            == ConsumerPlan::CheckBufferReady(ctx.buf_ready_efd),
        !ctx.fallback && ctx.buf_ready_efd < 0 ==> consumer_plan(s, ctx) is Nothing,
{
}

/// What each input event leads to. Touches, keys, the pointer and everything else that is no
/// clipboard, no text and no service is handed on.
pub proof fn law_input_events_are_told_apart(
    s: AnlandModel,
    code: i32,
    type_: u32,
    data: InputEventData,
)
    ensures
        ({
            let plan = s.input(code, InputEvent { type_, data });
            &&& code == -2 ==> plan is Redraw
            &&& code != 1 && code != -2 ==> plan is Nothing
            &&& code == 1 && type_ == 8 && data.w0 == 0 ==> plan is ClearClipboard
            &&& code == 1 && type_ == 8 && data.w0 > 0 ==> plan == (InputPlan::ReadPayload {
                size: data.w0,
                clipboard: true,
            })
            &&& code == 1 && type_ == 9 && data.w0 > 0 ==> plan == (InputPlan::ReadPayload {
                size: data.w0,
                clipboard: false,
            })
            &&& code == 1 && type_ == 9 && data.w0 == 0 ==> plan is Translate
            &&& code == 1 && type_ == 11 && s.services ==> plan == (InputPlan::ReceiveResources {
                service: data.w0,
            })
            &&& code == 1 && type_ == 11 && !s.services ==> plan is Translate
            &&& code == 1 && type_ != 8 && type_ != 9 && type_ != 11 ==> plan is Translate
        }),
        ({
            let new = s.with_new_buffers();
            &&& new.rendered.len() == 8 && new.imported.len() == 8
            &&& forall|i: int| 0 <= i < 8 ==> #[trigger] new.rendered[i] == u64::MAX
            &&& forall|i: int| 0 <= i < 8 ==> !#[trigger] new.imported[i]
            &&& new.consumer_ready == s.consumer_ready && new.pending_feedback == s.pending_feedback
            &&& new.frame_seq == s.frame_seq && new.pending_size == s.pending_size
        }),
{
}

/// A frame that was shown: the consumer is ready for the next, feedback is given for the frame that
/// was submitted, with its number, and the output is idle and drawn again. An output that did not
/// wait for a frame is told apart. Without an output only the consumer is noted.
pub proof fn law_shown_frames_are_answered(
    s: AnlandModel,
    state: RedrawState,
    now_ns: u128,
)
    ensures
        ({
            let (after, plan) = s.shown(Some(state), now_ns);
            &&& after.consumer_ready && !after.pending_feedback
            &&& plan matches Some(p) && {
                &&& p.redraw is Idle && p.queue_redraw
                &&& s.pending_feedback ==> p.presented == Some(s.frame_seq)
                &&& !s.pending_feedback ==> p.presented is None
                &&& p.unexpected == !(state is WaitingForVBlank)
            }
            &&& after.frame_seq == s.frame_seq
            &&& after.rendered == s.rendered && after.imported == s.imported
        }),
        ({
            let (after, plan) = s.shown(None, now_ns);
            after == (AnlandModel { consumer_ready: true, ..s }) && plan is None
        }),
{
}

/// Frames are counted from the first one on. When two seconds have passed since that one, their
/// number and the time that they took are told, and counting starts over; before that nothing is.
pub proof fn law_frames_are_counted(s: AnlandModel, state: RedrawState, now_ns: u128)
    requires
        s.frame_stats_count < u32::MAX,
    ensures
        ({
            let (after, plan) = s.shown(Some(state), now_ns);
            &&& s.frame_stats_count == 0 ==> {
                &&& plan matches Some(p) && p.stats is None
                &&& after.frame_stats_count == 1 && after.frame_stats_start_ns == now_ns
            }
            &&& s.frame_stats_count > 0 && now_ns - s.frame_stats_start_ns >= 2_000_000_000 ==> {
                &&& plan matches Some(p) && p.stats matches Some(stats) && stats.frames
                    == s.frame_stats_count + 1 && stats.elapsed_ns == now_ns
                    - s.frame_stats_start_ns
                &&& after.frame_stats_count == 0 && after.frame_stats_start_ns == 0
            }
            &&& s.frame_stats_count > 0 && now_ns - s.frame_stats_start_ns < 2_000_000_000 ==> {
                &&& plan matches Some(p) && p.stats is None
                &&& after.frame_stats_count == s.frame_stats_count + 1
                &&& after.frame_stats_start_ns == s.frame_stats_start_ns
            }
        }),
{
}

/// Of the descriptors of the camera service, the first is its control socket and the others are
/// streams, in order. A control socket without streams, and descriptors of any other service, are
/// all closed.
pub proof fn law_services_get_their_descriptors(service: u32, fds: Seq<i32>)
    requires
        fds.len() > 0,
    ensures
        ({
            let plan = resource_plan(service, fds.len() as int, fds);
            &&& service == 1 && fds.len() >= 2 ==> {
                &&& plan matches ResourcePlanModel::Cameras { ctrl, streams } && seq![ctrl]
                    + streams == fds
            }
            &&& service != 1 || fds.len() == 1 ==> plan == ResourcePlanModel::Close(fds)
        }),
        resource_plan(service, 0, fds) is Nothing,
        resource_plan(service, -1, fds) is Nothing,
{
    assert(fds.take(fds.len() as int) =~= fds);
    if fds.len() >= 2 {
        assert(seq![fds[0]] + fds.subrange(1, fds.len() as int) =~= fds);
    }
}

/// Text that the consumer has on its clipboard is published as it is; none clears the clipboard,
/// and what is no text, belongs to no clipboard or did not come completely changes nothing.
pub proof fn law_the_clipboard_is_the_consumers(text: Seq<char>, code: i32, payload: Seq<u8>)
    ensures
        text.len() > 0 ==> payload_update(true, 1, encode_utf8(text))
            == ClipboardUpdateModel::Publish(text),
        text.len() == 0 ==> payload_update(true, 1, encode_utf8(text)) is Clear,
        payload_update(false, code, payload) is Keep,
        code != 1 ==> payload_update(true, code, payload) is Keep,
        !valid_utf8(payload) ==> payload_update(true, code, payload) is Keep,
        payload_update(true, code, payload) matches ClipboardUpdateModel::Publish(t) ==> t
            == decode_utf8(payload) && t.len() > 0,
{
    broadcast use {vstd::utf8::encode_utf8_valid_utf8, vstd::utf8::encode_utf8_decode_utf8};

}

/// Text of a client goes to the consumer that is there as a clipboard event with its length in
/// bytes, followed by those bytes.
pub proof fn law_text_is_sent_with_its_length(ctx: CtxModel, text: Seq<char>)
    requires
        !ctx.fallback,
        encode_utf8(text).len() <= u32::MAX,
    ensures
        clipboard_sending(ctx, text).1.next matches RequestModel::SendAll { fd, bytes } && {
            &&& fd == ctx.data_fd
            &&& le32(bytes, 0) == 103 && le32(bytes, 4) == 20
            &&& le32(bytes, 8) == 1
            &&& le32(bytes, 12) == encode_utf8(text).len()
            &&& bytes.skip(28) == encode_utf8(text)
            &&& bytes.len() == 28 + encode_utf8(text).len()
        },
{
    law_output_events_round_trip(
        1,
        encode_utf8(text).len() as u32,
        [0u32, 0u32, 0u32],
        0,
        encode_utf8(text),
    );
}

/// A client's text is read for as long as there is time and room: up to two seconds and 2 MiB, and
/// no longer.
pub proof fn law_text_is_read_while_there_is_time(
    bytes: Seq<u8>,
    chunk: Seq<u8>,
    elapsed_ns: u128,
)
    ensures
        ClipboardReader::waiting(bytes, elapsed_ns) == ClipboardAction::Poll <==> elapsed_ns
            <= 2_000_000_000 && bytes.len() <= 2 * 1024 * 1024,
        ClipboardReader::waiting(bytes, elapsed_ns) == ClipboardAction::Finish <==> elapsed_ns
            > 2_000_000_000 || bytes.len() > 2 * 1024 * 1024,
        ClipboardReader::after_poll(bytes, true, elapsed_ns) == ClipboardAction::Read,
        elapsed_ns <= 2_000_000_000 && bytes.len() <= 2 * 1024 * 1024
            ==> ClipboardReader::after_poll(bytes, false, elapsed_ns) == ClipboardAction::Poll,
        elapsed_ns > 2_000_000_000 ==> ClipboardReader::after_poll(bytes, false, elapsed_ns)
            == ClipboardAction::Finish,
        ClipboardReader::after_read(bytes, Seq::empty(), elapsed_ns) == ClipboardAction::Finish,
        chunk.len() > 0 && elapsed_ns <= 2_000_000_000 && bytes.len() <= 2 * 1024 * 1024
            ==> ClipboardReader::after_read(bytes, chunk, elapsed_ns) == ClipboardAction::Poll,
        elapsed_ns > 2_000_000_000 || bytes.len() > 2 * 1024 * 1024 ==> ClipboardReader::after_read(
            bytes,
            chunk,
            elapsed_ns,
        ) == ClipboardAction::Finish,
{
}

/// A slow screen, and one whose rate is not known, is polled every 8 ms, a fast one every 2 ms. In
/// between, a screen that is refreshed more often is polled no less often.
pub proof fn law_poll_intervals(refresh: u32, faster: u32)
    ensures
        active_interval(0) == 8_000_000,
        0 < refresh <= 62_500 ==> active_interval(refresh) == 8_000_000,
        refresh >= 250_000 ==> active_interval(refresh) == 2_000_000,
        0 < refresh <= faster ==> active_interval(faster) <= active_interval(refresh),
{
    lemma_interval_bounds(refresh);
    if 0 < refresh <= faster {
        let a = 500_000_000_000int;
        let (b, c) = (refresh as int, faster as int);
        vstd::arithmetic::div_mod::lemma_fundamental_div_mod(a, b);
        vstd::arithmetic::div_mod::lemma_fundamental_div_mod(a, c);
        let (q, r) = (a / b, a % b);
        let (p, t) = (a / c, a % c);
        let x = rounded_quotient(a, b);
        let y = rounded_quotient(a, c);
        assert(p <= q) by (nonlinear_arith)
            requires
                a == b * q + r,
                a == c * p + t,
                0 <= r < b,
                0 <= t,
                0 < b <= c,
                p >= 0,
        ;
        if p == q && b < c {
            assert(t < r || t <= r) by (nonlinear_arith)
                requires
                    b * q + r == c * q + t,
                    b <= c,
                    q >= 0,
            ;
        }
        assert(y <= x) by {
            if p < q {
            } else if b == c {
            } else {
                assert(2 * t >= c ==> 2 * r > b);
            }
        }
    }
}

proof fn lemma_interval_bounds(refresh: u32)
    ensures
        0 < refresh <= 62_500 ==> active_interval(refresh) == 8_000_000,
        refresh >= 250_000 ==> active_interval(refresh) == 2_000_000,
{
    if refresh > 0 {
        let a = 500_000_000_000int;
        let b = refresh as int;
        vstd::arithmetic::div_mod::lemma_fundamental_div_mod(a, b);
        let (q, r) = (a / b, a % b);
        if b <= 62_500 {
            assert(q >= 8_000_000) by (nonlinear_arith)
                requires
                    a == b * q + r,
                    0 <= r < b,
                    0 < b <= 62_500,
                    a == 500_000_000_000,
            ;
        }
        if b >= 250_000 {
            assert(q <= 2_000_000) by (nonlinear_arith)
                requires
                    a == b * q + r,
                    0 <= r,
                    b >= 250_000,
                    a == 500_000_000_000,
            ;
            assert(q == 2_000_000 ==> r == 0) by (nonlinear_arith)
                requires
                    a == b * q + r,
                    0 <= r,
                    b >= 250_000,
                    a == 500_000_000_000,
            ;
        }
    }
}

/// A backend that has just connected has the screen of the daemon, for its input as well; there is
/// no consumer to draw for, and no buffer.
pub proof fn law_backends_begin(width: u32, height: u32, refresh: u32, services: bool, i: int)
    requires
        0 <= i < 8,
    ensures
        ({
            let s = AnlandModel::connected(width, height, refresh, services);
            &&& s.screen_w == width && s.screen_h == height && s.screen_refresh == refresh
            &&& s.native_w == width && s.native_h == height && s.services == services
            &&& !s.consumer_ready && !s.pending_feedback && !s.disposed
            &&& s.pending_size is None && s.size_adapt_cooldown_until == 0
            &&& s.frame_seq == 0 && s.frame_stats_count == 0
            &&& s.rendered.len() == 8 && s.rendered[i] == u64::MAX
            &&& s.imported.len() == 8 && !s.imported[i]
        }),
{
}

/// Every device will do unless one is wished for; then only the one with that file will.
pub proof fn law_devices(device: DevicePaths, desired: String)
    ensures
        device_fits(device, None),
        desired@.len() == 0 ==> device_fits(device, Some(desired)),
        desired@.len() > 0 ==> (device_fits(device, Some(desired)) <==> (device.drm matches Some(d)
            && d@ == desired@) || (device.render matches Some(r) && r@ == desired@)),
{
}

/// A quotient is rounded to the nearest number, and to the even one where two are as near.
pub proof fn law_quotients_are_rounded(a: int, b: int)
    requires
        b > 0,
        a >= 0,
    ensures
        ({
            let x = rounded_quotient(a, b);
            &&& -b <= 2 * (x * b) - 2 * a <= b
            &&& 2 * (x * b) - 2 * a == b || 2 * (x * b) - 2 * a == -b ==> x % 2 == 0
        }),
{
    let (q, r) = (a / b, a % b);
    let x = rounded_quotient(a, b);
    vstd::arithmetic::div_mod::lemma_fundamental_div_mod(a, b);
    assert(x * b == b * q || x * b == b * q + b) by (nonlinear_arith)
        requires
            x == q || x == q + 1,
    ;
    assert((q + 1) * b == b * q + b) by (nonlinear_arith);
    assert(q * b == b * q) by (nonlinear_arith);
}

/// The output has the size and the refresh rate of the screen; tools are told the low 16 bits of
/// its size.
pub proof fn law_outputs_have_the_size_of_the_screen(s: AnlandModel)
    ensures
        ({
            let (width, height, refresh) = output_mode(s);
            &&& s.screen_w <= i32::MAX ==> width == s.screen_w
            &&& s.screen_h <= i32::MAX ==> height == s.screen_h
            &&& s.screen_refresh <= i32::MAX ==> refresh == s.screen_refresh
        }),
        ({
            let (width, height, refresh) = told_mode(s);
            &&& width == s.screen_w % 0x1_0000 && height == s.screen_h % 0x1_0000
            &&& refresh == s.screen_refresh
        }),
{
    let (w, h) = (s.screen_w, s.screen_h);
    assert(w as u16 == w % 0x1_0000) by (bit_vector);
    assert(h as u16 == h % 0x1_0000) by (bit_vector);
}

} // verus!
