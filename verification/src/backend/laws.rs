//! What holds of the backend over several calls.
use vstd::prelude::*;

use crate::backend::anland::{
    handed_over, AnlandModel, InputPlan, RedrawState, FRAME_STATS_NS, NEVER_RENDERED,
};
use crate::backend::clock::{SIZE_ADAPT_COOLDOWN_MICROS, SIZE_STABILITY_MICROS};
use crate::counter::following;
use crate::ffi::model::{
    close_one, closed, resumed, returned, CtxModel, ReplyModel, RequestModel,
};
use crate::ffi::protocol::{
    InputEvent, INPUT_TYPE_CLIPBOARD, INPUT_TYPE_TEXT_INPUT, MAX_BUFS,
};

verus! {

/// The consumer gets one frame at a time: after a frame is handed over, nothing is drawn until
/// the consumer has shown it, or is back after it was gone.
pub proof fn law_one_frame_at_a_time(
    s: AnlandModel,
    idx: int,
    ctx: CtxModel,
    shared_idx: u32,
    output: Option<RedrawState>,
    now_ns: u128,
)
    ensures
        s.submitted(idx).target(ctx, shared_idx) is None,
        s.shown(output, now_ns).0.consumer_ready,
        s.reconnected().consumer_ready,
{
}

/// A frame that is drawn and submitted is handed over once: its fence is the one that goes to the
/// consumer, with one message, and is closed after that. The frame is noted as the last in its
/// buffer, which is imported from then on, the next frame has the next number, and feedback and
/// the consumer's answer are waited for. Other buffers are as they were.
pub proof fn law_a_submitted_frame(
    s: AnlandModel,
    ctx: CtxModel,
    shared_idx: u32,
    size: (i32, i32),
    now_usec: u64,
    fence_fd: i32,
    sent: bool,
)
    requires
        s.rendered.len() == MAX_BUFS,
        s.imported.len() == MAX_BUFS,
        ctx.wf(),
        s.target(ctx, shared_idx) is Some,
    ensures
        ({
            let (begun, start) = s.rendering(ctx, shared_idx, size, now_usec, true);
            let idx = s.target(ctx, shared_idx)->0.idx as int;
            let after = begun.drawing(idx).submitted(idx);
            &&& start.target == s.target(ctx, shared_idx)
            &&& !after.consumer_ready
            &&& after.pending_feedback
            &&& after.frame_seq == following(s.frame_seq)
            &&& after.rendered == s.rendered.update(idx, s.frame_seq)
            &&& after.imported == s.imported.update(idx, true)
        }),
        ({
            let (waiting, step) = handed_over(ctx, fence_fd);
            &&& step.effects == close_one(ctx.pending_render_fence)
            &&& step.next == (RequestModel::SendFence {
                fd: ctx.fence_fd,
                fence: if fence_fd >= 0 {
                    Some(fence_fd)
                } else {
                    None
                },
            })
            &&& resumed(waiting, ReplyModel::Sent(sent)) == returned(
                CtxModel { pending_render_fence: closed(fence_fd), ..ctx },
                close_one(fence_fd),
                0i32,
            )
        }),
{
    let (begun, _) = s.rendering(ctx, shared_idx, size, now_usec, true);
    let idx = s.target(ctx, shared_idx)->0.idx as int;
    let after = begun.drawing(idx).submitted(idx);
    assert(after.imported =~= s.imported.update(idx, true));
    assert(handed_over(ctx, fence_fd).1.effects =~= close_one(ctx.pending_render_fence));
}

/// Nothing is drawn while the consumer is gone.
pub proof fn law_nothing_is_drawn_in_fallback(s: AnlandModel, ctx: CtxModel, shared_idx: u32)
    requires
        ctx.fallback,
    ensures
        s.target(ctx, shared_idx) is None,
{
}

/// Only a buffer that the consumer has handed over is drawn into.
pub proof fn law_only_shared_buffers_are_drawn_into(
    s: AnlandModel,
    ctx: CtxModel,
    shared_idx: u32,
)
    requires
        ctx.wf(),
    ensures
        s.target(ctx, shared_idx) matches Some(t) ==> {
            &&& t.idx < ctx.buf_count <= MAX_BUFS
            &&& t.fd == ctx.dmabuf_fds[t.idx as int]
            &&& t.fd >= 0
            &&& t.info == ctx.dmabuf_infos[t.idx as int]
        },
{
}

/// Buffers that are new, because the consumer is back or has replaced them, are imported anew and
/// drawn completely.
pub proof fn law_new_buffers_are_drawn_completely(s: AnlandModel, idx: int)
    requires
        0 <= idx < MAX_BUFS,
    ensures
        s.with_new_buffers().age(idx) == 0,
        !s.with_new_buffers().imported[idx],
        s.reconnected().age(idx) == 0,
        !s.reconnected().imported[idx],
{
}

/// The state after `n` more frames that went to other buffers.
pub open spec fn frames_later(s: AnlandModel, n: nat) -> AnlandModel
    decreases n,
{
    if n == 0 {
        s
    } else {
        let before = frames_later(s, (n - 1) as nat);
        AnlandModel { frame_seq: following(before.frame_seq), ..before }
    }
}

proof fn lemma_frames_later(s: AnlandModel, n: nat)
    requires
        n <= u64::MAX,
    ensures
        frames_later(s, n).rendered == s.rendered,
        frames_later(s, n).frame_seq == (if s.frame_seq + n <= u64::MAX {
            s.frame_seq + n
        } else {
            s.frame_seq + n - 0x1_0000_0000_0000_0000
        }),
    decreases n,
{
    if n > 0 {
        lemma_frames_later(s, (n - 1) as nat);
    }
}

/// The age of a buffer is the number of frames since it was drawn into, also when the frame
/// numbers started over in between.
pub proof fn law_age_counts_frames(s: AnlandModel, idx: int, n: nat)
    requires
        0 <= idx < s.rendered.len(),
        s.frame_seq != NEVER_RENDERED,
        n <= u32::MAX,
    ensures
        ({
            let drawn = AnlandModel { rendered: s.rendered.update(idx, s.frame_seq), ..s };
            frames_later(drawn, n).age(idx) == n
        }),
{
    let drawn = AnlandModel { rendered: s.rendered.update(idx, s.frame_seq), ..s };
    lemma_frames_later(drawn, n);
}

/// A size is taken over only if it has lasted: it was first seen at least half a second ago, and
/// no other size was seen since.
pub proof fn law_sizes_must_last(
    s: AnlandModel,
    size: (i32, i32),
    buffer: (i32, i32),
    now_usec: u64,
)
    ensures
        s.adapts(size, buffer, now_usec) ==> {
            &&& s.pending_size matches Some((w, h, since)) && (w, h) == buffer && now_usec - since
                >= SIZE_STABILITY_MICROS
            &&& size != buffer
        },
{
}

/// Another size in between starts over: a size that was just replaced as the candidate is not
/// taken over when it is seen again, however late.
pub proof fn law_alternating_sizes_are_not_taken_over(
    s: AnlandModel,
    size: (i32, i32),
    buffer: (i32, i32),
    other: (i32, i32),
    seen_usec: u64,
    now_usec: u64,
)
    requires
        buffer != other,
        size != other,
    ensures
        !s.observed(size, other, seen_usec).adapts(size, buffer, now_usec),
{
}

/// Two changes of the mode are at least half a second apart: after one, none follows earlier, and
/// what is seen in between does not bring it forward.
pub proof fn law_mode_changes_are_spaced(
    s: AnlandModel,
    size: (i32, i32),
    buffer: (i32, i32),
    at_usec: u64,
    next: (i32, i32),
    other: (i32, i32),
    now_usec: u64,
)
    requires
        s.adapts(size, buffer, at_usec),
        now_usec < at_usec + SIZE_ADAPT_COOLDOWN_MICROS,
        at_usec + SIZE_ADAPT_COOLDOWN_MICROS <= u64::MAX,
    ensures
        ({
            let after = s.observed(size, buffer, at_usec);
            &&& !after.adapts(next, other, now_usec)
            &&& after.observed(next, other, now_usec).size_adapt_cooldown_until
                == after.size_adapt_cooldown_until
        }),
{
}

/// A size that is taken over is that of the output and of its input from then on.
pub proof fn law_sizes_are_taken_over_everywhere(
    s: AnlandModel,
    size: (i32, i32),
    buffer: (i32, i32),
    now_usec: u64,
)
    requires
        s.adapts(size, buffer, now_usec),
    ensures
        ({
            let after = s.observed(size, buffer, now_usec);
            &&& after.screen_w == buffer.0 as u32 && after.screen_h == buffer.1 as u32
            &&& after.native_w == after.screen_w && after.native_h == after.screen_h
            &&& after.pending_size is None
        }),
{
}

/// A payload that follows an event is always read, whole, so that the next message is found where
/// it begins.
pub proof fn law_payloads_are_read(s: AnlandModel, event: InputEvent)
    requires
        event.type_ == INPUT_TYPE_CLIPBOARD || event.type_ == INPUT_TYPE_TEXT_INPUT,
        event.data.w0 > 0,
    ensures
        s.input(1, event) == (InputPlan::ReadPayload {
            size: event.data.w0,
            clipboard: event.type_ == INPUT_TYPE_CLIPBOARD,
        }),
{
}

/// An empty clipboard of the consumer clears that of the compositor, and nothing else does at
/// once.
pub proof fn law_empty_clipboards_clear(s: AnlandModel, code: i32, event: InputEvent)
    ensures
        s.input(code, event) is ClearClipboard <==> (code == 1 && event.type_
            == INPUT_TYPE_CLIPBOARD && event.data.w0 == 0),
{
}

/// The consumer is told about every frame exactly once: feedback is given with the number that
/// the frame left behind, and not again before another frame was handed over.
pub proof fn law_feedback_is_given_once(
    s: AnlandModel,
    idx: int,
    state: RedrawState,
    now_ns: u128,
    later_ns: u128,
)
    ensures
        ({
            let (after, plan) = s.submitted(idx).shown(Some(state), now_ns);
            let (_, again) = after.shown(Some(state), later_ns);
            &&& plan matches Some(p) && p.presented == Some(s.submitted(idx).frame_seq)
            &&& again matches Some(p) && p.presented is None
        }),
{
}

/// The consumer waits for exactly one frame after each that it shows: whatever the output waited
/// for, it is idle then, and a redraw is queued.
pub proof fn law_a_frame_follows_each_shown_frame(
    s: AnlandModel,
    state: RedrawState,
    now_ns: u128,
)
    ensures
        s.shown(Some(state), now_ns).0.consumer_ready,
        s.shown(Some(state), now_ns).1 matches Some(p) && p.redraw == RedrawState::Idle
            && p.queue_redraw,
{
}

/// The frame rate is told at most every two seconds.
pub proof fn law_frame_rates_are_told_rarely(s: AnlandModel, state: RedrawState, now_ns: u128)
    ensures
        s.shown(Some(state), now_ns).1 matches Some(p) && (p.stats matches Some(stats)
            ==> stats.elapsed_ns >= FRAME_STATS_NS && s.shown(
            Some(state),
            now_ns,
        ).0.frame_stats_count == 0),
{
}

} // verus!
