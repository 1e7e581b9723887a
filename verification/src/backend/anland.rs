//! The state of the backend, and what it decides.
use vstd::prelude::*;

use crate::backend::clock::{
    duration_to_micros, pending_size_is_stable, SIZE_ADAPT_COOLDOWN_MICROS, SIZE_STABILITY_MICROS,
};
#[allow(unused_imports)]
use crate::backend::clock::{is_candidate, is_stable};
#[allow(unused_imports)]
use crate::backend::output::mode_for;
use crate::backend::output::{clamp_u16, ModePlan, OutputPlan};
use crate::backend::tick::{Tick, TickAction, TickPhase};
#[allow(unused_imports)]
use crate::counter::following;
use crate::ffi::context::{
    display_ctx, get_audio_fd, get_buffer_ready_fd, get_dmabuf_fd_at, get_dmabuf_info_at,
    get_selected_idx, is_fallback, set_render_fence, trigger_refresh,
    try_exit_fallback, Step,
};
use crate::ffi::model::CtxModel;
#[allow(unused_imports)]
use crate::ffi::model::{close_one, exiting_fallback, refreshing, Phase, StepModel};
use crate::ffi::protocol::{
    buf_info, InputEvent, INPUT_TYPE_CLIPBOARD, INPUT_TYPE_RESOURCE, INPUT_TYPE_TEXT_INPUT,
    MAX_BUFS, SERVICE_TYPE_CAMERA,
};

verus! {

/// A buffer that no frame was drawn into yet.
pub const NEVER_RENDERED: u64 = u64::MAX;
/// The control socket of the camera service, and the streams of its cameras.
pub const RESOURCE_FDS: usize = 9;
/// How long a payload may take to come.
pub const PAYLOAD_TIMEOUT_MS: i32 = 100;
/// How long descriptors may take to come.
pub const RESOURCE_TIMEOUT_MS: i32 = 5000;
/// How often the frame rate is told.
pub const FRAME_STATS_NS: u128 = 2_000_000_000;

/// The state of the backend.
pub struct Anland {
    /// Audio and cameras are supported.
    pub services: bool,
    pub screen_w: u32,
    pub screen_h: u32,
    /// In millihertz.
    pub screen_refresh: u32,
    /// The size that input is scaled from.
    pub native_w: u32,
    pub native_h: u32,
    /// A size that may be taken over, and since when it was seen.
    pub pending_size: Option<(i32, i32, u64)>,
    pub size_adapt_cooldown_until: u64,
    /// The consumer has shown the last frame, or just came: a buffer may be drawn into.
    pub consumer_ready: bool,
    /// There is feedback to be given when the frame is shown.
    pub pending_feedback: bool,
    pub frame_seq: u64,
    pub frame_stats_count: u32,
    pub frame_stats_start_ns: u128,
    /// The frame that was last drawn into each buffer.
    pub buffer_last_rendered_frame: [u64; MAX_BUFS],
    /// Whether each buffer is imported.
    pub consumer_dmabufs: [bool; MAX_BUFS],
    pub disposed: bool,
}

/// The same, as a plain value.
pub struct AnlandModel {
    pub services: bool,
    pub screen_w: u32,
    pub screen_h: u32,
    pub screen_refresh: u32,
    pub native_w: u32,
    pub native_h: u32,
    pub pending_size: Option<(i32, i32, u64)>,
    pub size_adapt_cooldown_until: u64,
    pub consumer_ready: bool,
    pub pending_feedback: bool,
    pub frame_seq: u64,
    pub frame_stats_count: u32,
    pub frame_stats_start_ns: u128,
    pub rendered: Seq<u64>,
    pub imported: Seq<bool>,
    pub disposed: bool,
}

impl View for Anland {
    type V = AnlandModel;

    open spec fn view(&self) -> AnlandModel {
        AnlandModel {
            services: self.services,
            screen_w: self.screen_w,
            screen_h: self.screen_h,
            screen_refresh: self.screen_refresh,
            native_w: self.native_w,
            native_h: self.native_h,
            pending_size: self.pending_size,
            size_adapt_cooldown_until: self.size_adapt_cooldown_until,
            consumer_ready: self.consumer_ready,
            pending_feedback: self.pending_feedback,
            frame_seq: self.frame_seq,
            frame_stats_count: self.frame_stats_count,
            frame_stats_start_ns: self.frame_stats_start_ns,
            rendered: self.buffer_last_rendered_frame@,
            imported: self.consumer_dmabufs@,
            disposed: self.disposed,
        }
    }
}

/// What the compositor knows of the redrawing of an output.
#[derive(Debug, Clone, Copy, PartialEq, Eq, Structural)]
pub enum RedrawState {
    Idle,
    Queued,
    WaitingForVBlank { redraw_needed: bool },
    /// A timer stands for the display; the token ends it.
    WaitingForEstimatedVBlank(u64),
    WaitingForEstimatedVBlankAndQueued(u64),
}

/// A buffer to be drawn into.
#[derive(Debug, Clone, Copy, PartialEq, Eq, Structural)]
pub struct Target {
    pub idx: usize,
    pub fd: i32,
    pub info: buf_info,
    /// The buffer is imported already.
    pub imported: bool,
}

/// How rendering begins: the output may take another mode first, then a buffer is drawn into, or
/// the frame is skipped.
#[derive(Debug, Clone, Copy, PartialEq, Eq, Structural)]
pub struct RenderStart {
    pub adapt: Option<ModePlan>,
    pub target: Option<Target>,
}

/// A frame that is being handed over.
pub struct SubmittedFrame {
    /// How handing it over begins.
    pub step: Step,
    /// What the output waits for from here on.
    pub redraw: RedrawState,
    /// The timer that is to be ended.
    pub timer: Option<u64>,
}

/// What is to be done when the consumer is back.
#[derive(Debug, Clone, Copy, PartialEq, Eq, Structural)]
pub struct ReconnectPlan {
    /// The audio socket to use, if audio is supported.
    pub audio: Option<i32>,
    /// Ask for the camera service.
    pub request_cameras: bool,
    pub queue_redraw: bool,
}

/// What is to be done about the consumer.
#[derive(Debug, Clone, Copy, PartialEq, Eq, Structural)]
pub enum ConsumerPlan {
    /// The consumer is gone: the services let go of it if `detach`, and it is looked for again.
    Reconnect { detach: bool },
    /// See whether this descriptor says that a frame was shown.
    CheckBufferReady(i32),
    Nothing,
}

/// So many frames were shown in so long.
#[derive(Debug, Clone, Copy, PartialEq, Eq, Structural)]
pub struct FrameStats {
    pub frames: u32,
    pub elapsed_ns: u128,
}

/// What is to be done when a frame was shown.
#[derive(Debug, Clone, Copy, PartialEq, Eq, Structural)]
pub struct ShownPlan {
    /// The output was not waiting for that.
    pub unexpected: bool,
    /// Tell the frame rate.
    pub stats: Option<FrameStats>,
    /// Give feedback for the frame with this number.
    pub presented: Option<u64>,
    /// What the output waits for from here on.
    pub redraw: RedrawState,
    pub queue_redraw: bool,
}

/// What an input event leads to.
#[derive(Debug, Clone, Copy, PartialEq, Eq, Structural)]
pub enum InputPlan {
    Nothing,
    /// The buffers were replaced: they are imported anew, and everything is drawn again.
    Redraw,
    /// Hand the event on.
    Translate,
    /// Clear the clipboard, then hand the event on.
    ClearClipboard,
    /// Read the payload, use it if it is a clipboard's, then hand the event on.
    ReadPayload { size: u32, clipboard: bool },
    /// Receive the descriptors of a service.
    ReceiveResources { service: u32 },
}

/// What becomes of the descriptors of a service.
#[derive(Debug)]
pub enum ResourcePlan {
    Nothing,
    /// These are a camera service's: its control socket and its streams.
    Cameras { ctrl: i32, streams: Vec<i32> },
    /// Nobody wants these.
    Close(Vec<i32>),
}

/// The same, as a plain value.
pub enum ResourcePlanModel {
    Nothing,
    Cameras { ctrl: i32, streams: Seq<i32> },
    Close(Seq<i32>),
}

impl View for ResourcePlan {
    type V = ResourcePlanModel;

    open spec fn view(&self) -> ResourcePlanModel {
        match self {
            ResourcePlan::Nothing => ResourcePlanModel::Nothing,
            ResourcePlan::Cameras { ctrl, streams } => ResourcePlanModel::Cameras {
                ctrl: *ctrl,
                streams: streams@,
            },
            ResourcePlan::Close(fds) => ResourcePlanModel::Close(fds@),
        }
    }
}

/// What becomes of the first `count` descriptors that came for a service.
pub open spec fn resource_plan(service: u32, count: int, fds: Seq<i32>) -> ResourcePlanModel {
    if count < 1 {
        ResourcePlanModel::Nothing
    } else if service == SERVICE_TYPE_CAMERA && count >= 2 {
        ResourcePlanModel::Cameras { ctrl: fds[0], streams: fds.subrange(1, count) }
    } else {
        ResourcePlanModel::Close(fds.take(count))
    }
}

/// How many frames lie between two numbers, also when the numbers started over in between.
pub open spec fn frames_since(now: u64, then: u64) -> u64 {
    if now >= then {
        (now - then) as u64
    } else {
        (now + 0x1_0000_0000_0000_0000 - then) as u64
    }
}

/// No buffer was drawn into.
pub open spec fn none_rendered() -> Seq<u64> {
    Seq::new(MAX_BUFS as nat, |i: int| NEVER_RENDERED)
}

/// No buffer is imported.
pub open spec fn none_imported() -> Seq<bool> {
    Seq::new(MAX_BUFS as nat, |i: int| false)
}

/// The descriptor on which the consumer signals that it has shown a frame, if there is one.
pub open spec fn signal_fd(ctx: CtxModel) -> Option<i32> {
    if !ctx.fallback && ctx.buf_ready_efd >= 0 {
        Some(ctx.buf_ready_efd)
    } else {
        None
    }
}

/// The mode of the output: its width, its height and its refresh rate.
pub open spec fn output_mode(s: AnlandModel) -> (i32, i32, i32) {
    (s.screen_w as i32, s.screen_h as i32, s.screen_refresh as i32)
}

/// The same, as tools are told it.
pub open spec fn told_mode(s: AnlandModel) -> (u16, u16, u32) {
    (s.screen_w as u16, s.screen_h as u16, s.screen_refresh)
}

/// What is to be done about the consumer first.
pub open spec fn consumer_plan(s: AnlandModel, ctx: CtxModel) -> ConsumerPlan {
    if ctx.fallback {
        ConsumerPlan::Reconnect { detach: s.services }
    } else {
        match signal_fd(ctx) {
            Some(fd) => ConsumerPlan::CheckBufferReady(fd),
            None => ConsumerPlan::Nothing,
        }
    }
}

/// Another event is polled for: there was something in the last one to be handed on.
pub open spec fn more_input(plan: InputPlan, translated: bool) -> bool {
    match plan {
        InputPlan::Nothing | InputPlan::Redraw | InputPlan::ReceiveResources { .. } => false,
        InputPlan::Translate | InputPlan::ClearClipboard | InputPlan::ReadPayload { .. }
            => translated,
    }
}

/// The end of a frame: its fence replaces the last one, and the consumer is told.
pub open spec fn handed_over(ctx: CtxModel, fence_fd: i32) -> (CtxModel, StepModel) {
    let (after, step) = refreshing(CtxModel { pending_render_fence: fence_fd, ..ctx });
    (
        after,
        StepModel { effects: close_one(ctx.pending_render_fence) + step.effects, next: step.next },
    )
}

impl AnlandModel {
    /// A backend that is connected to a daemon with this screen; there is no consumer yet.
    pub open spec fn connected(
        width: u32,
        height: u32,
        refresh: u32,
        services: bool,
    ) -> AnlandModel {
        AnlandModel {
            services,
            screen_w: width,
            screen_h: height,
            screen_refresh: refresh,
            native_w: width,
            native_h: height,
            pending_size: None,
            size_adapt_cooldown_until: 0,
            consumer_ready: false,
            pending_feedback: false,
            frame_seq: 0,
            frame_stats_count: 0,
            frame_stats_start_ns: 0,
            rendered: none_rendered(),
            imported: none_imported(),
            disposed: false,
        }
    }

    /// All buffers are new.
    pub open spec fn with_new_buffers(self) -> AnlandModel {
        AnlandModel { rendered: none_rendered(), imported: none_imported(), ..self }
    }

    /// The buffer that the consumer selected, if it can be drawn into.
    pub open spec fn target(self, ctx: CtxModel, shared_idx: u32) -> Option<Target> {
        let idx = if ctx.shm_mapped && shared_idx < ctx.buf_count {
            shared_idx as int
        } else {
            0
        };
        if self.consumer_ready && !ctx.fallback && idx < ctx.buf_count && ctx.dmabuf_fds[idx] >= 0 {
            Some(
                Target {
                    idx: idx as usize,
                    fd: ctx.dmabuf_fds[idx],
                    info: ctx.dmabuf_infos[idx],
                    imported: self.imported[idx],
                },
            )
        } else {
            None
        }
    }

    /// A new size is taken over now: it has lasted, and the last one has, too.
    pub open spec fn adapts(self, size: (i32, i32), buffer: (i32, i32), now_usec: u64) -> bool {
        &&& size != buffer
        &&& is_stable(self.pending_size, buffer, now_usec, SIZE_STABILITY_MICROS)
        &&& now_usec >= self.size_adapt_cooldown_until
    }

    /// The size of a buffer was seen.
    pub open spec fn observed(self, size: (i32, i32), buffer: (i32, i32), now_usec: u64) -> AnlandModel {
        if size == buffer {
            AnlandModel { pending_size: None, ..self }
        } else if self.adapts(size, buffer, now_usec) {
            let until = now_usec + SIZE_ADAPT_COOLDOWN_MICROS;
            AnlandModel {
                pending_size: None,
                size_adapt_cooldown_until: if until > u64::MAX {
                    u64::MAX
                } else {
                    until as u64
                },
                ..self.adapted(buffer)
            }
        } else if is_candidate(self.pending_size, buffer) {
            self
        } else {
            AnlandModel { pending_size: Some((buffer.0, buffer.1, now_usec)), ..self }
        }
    }

    /// The output has another size.
    pub open spec fn adapted(self, size: (i32, i32)) -> AnlandModel {
        AnlandModel {
            screen_w: size.0 as u32,
            screen_h: size.1 as u32,
            native_w: size.0 as u32,
            native_h: size.1 as u32,
            ..self
        }
    }

    /// What the selected buffer makes of the state, and how rendering begins.
    pub open spec fn rendering(
        self,
        ctx: CtxModel,
        shared_idx: u32,
        size: (i32, i32),
        now_usec: u64,
        renderer: bool,
    ) -> (AnlandModel, RenderStart) {
        match self.target(ctx, shared_idx) {
            None => (self, RenderStart { adapt: None, target: None }),
            Some(target) => {
                let buffer = (target.info.width as i32, target.info.height as i32);
                let s = self.observed(size, buffer, now_usec);
                let adapt = if self.adapts(size, buffer, now_usec) {
                    Some(mode_for(buffer.0, buffer.1, self.screen_refresh))
                } else {
                    None
                };
                if renderer {
                    (
                        AnlandModel { imported: s.imported.update(target.idx as int, false), ..s },
                        RenderStart { adapt, target: Some(target) },
                    )
                } else {
                    (s, RenderStart { adapt, target: None })
                }
            },
        }
    }

    /// How old what is in a buffer is, in frames; 0 if it is nothing.
    pub open spec fn age(self, idx: int) -> usize {
        if self.rendered[idx] == NEVER_RENDERED {
            0
        } else {
            frames_since(self.frame_seq, self.rendered[idx]) as usize
        }
    }

    /// A buffer is drawn into.
    pub open spec fn drawing(self, idx: int) -> AnlandModel {
        AnlandModel { rendered: self.rendered.update(idx, self.frame_seq), ..self }
    }

    /// The frame is on its way.
    pub open spec fn submitted(self, idx: int) -> AnlandModel {
        AnlandModel {
            pending_feedback: true,
            consumer_ready: false,
            frame_seq: following(self.frame_seq),
            imported: self.imported.update(idx, true),
            ..self
        }
    }

    /// The consumer is back.
    pub open spec fn reconnected(self) -> AnlandModel {
        AnlandModel {
            consumer_ready: true,
            native_w: self.screen_w,
            native_h: self.screen_h,
            pending_size: None,
            size_adapt_cooldown_until: 0,
            pending_feedback: false,
            ..self.with_new_buffers()
        }
    }

    /// What is to be done when the consumer is back.
    pub open spec fn reconnect_plan(self, ctx: CtxModel, has_output: bool) -> ReconnectPlan {
        ReconnectPlan {
            audio: if !self.services {
                None
            } else if ctx.fallback {
                Some(-1i32)
            } else {
                Some(ctx.audio_fd)
            },
            request_cameras: self.services,
            queue_redraw: has_output,
        }
    }

    /// What an input event leads to. `code` is what polling for one returned.
    pub open spec fn input(self, code: i32, event: InputEvent) -> InputPlan {
        let size = event.data.w0;
        if code == -2 {
            InputPlan::Redraw
        } else if code != 1 {
            InputPlan::Nothing
        } else if event.type_ == INPUT_TYPE_CLIPBOARD && size == 0 {
            InputPlan::ClearClipboard
        } else if (event.type_ == INPUT_TYPE_CLIPBOARD || event.type_ == INPUT_TYPE_TEXT_INPUT)
            && size > 0 {
            InputPlan::ReadPayload { size, clipboard: event.type_ == INPUT_TYPE_CLIPBOARD }
        } else if event.type_ == INPUT_TYPE_RESOURCE && self.services {
            InputPlan::ReceiveResources { service: event.data.w0 }
        } else {
            InputPlan::Translate
        }
    }

    /// How many frames were counted with this one, as far as the number fits, and since when.
    pub open spec fn counted(self, now_ns: u128) -> (u32, u128) {
        (
            if self.frame_stats_count < u32::MAX {
                (self.frame_stats_count + 1) as u32
            } else {
                u32::MAX
            },
            if self.frame_stats_count == 0 {
                now_ns
            } else {
                self.frame_stats_start_ns
            },
        )
    }

    /// How long frames were counted.
    pub open spec fn elapsed(self, now_ns: u128) -> u128 {
        let start = self.counted(now_ns).1;
        if now_ns >= start {
            (now_ns - start) as u128
        } else {
            0
        }
    }

    /// A frame was shown.
    pub open spec fn shown(self, output: Option<RedrawState>, now_ns: u128) -> (
        AnlandModel,
        Option<ShownPlan>,
    ) {
        let s = AnlandModel { consumer_ready: true, ..self };
        match output {
            None => (s, None),
            Some(state) => {
                let (count, start) = self.counted(now_ns);
                let tell = self.elapsed(now_ns) >= FRAME_STATS_NS;
                (
                    AnlandModel {
                        pending_feedback: false,
                        frame_stats_count: if tell {
                            0
                        } else {
                            count
                        },
                        frame_stats_start_ns: if tell {
                            0
                        } else {
                            start
                        },
                        ..s
                    },
                    Some(
                        ShownPlan {
                            unexpected: !(state is WaitingForVBlank),
                            stats: if tell {
                                Some(
                                    FrameStats {
                                        frames: count,
                                        elapsed_ns: self.elapsed(now_ns),
                                    },
                                )
                            } else {
                                None
                            },
                            presented: if self.pending_feedback {
                                Some(self.frame_seq)
                            } else {
                                None
                            },
                            redraw: RedrawState::Idle,
                            queue_redraw: true,
                        },
                    ),
                )
            },
        }
    }
}

impl Anland {
    /// The backend of a connection with this screen, if there is one. `connected` is what
    /// connecting returned.
    pub fn new(connected: i32, width: u32, height: u32, refresh: u32, services: bool) -> (r: Option<
        Anland,
    >)
        ensures
            match r {
                Some(a) => connected == 0 && a@ == AnlandModel::connected(
                    width,
                    height,
                    refresh,
                    services,
                ),
                None => connected != 0,
            },
    {
        if connected != 0 {
            return None;
        }
        let rendered: [u64; MAX_BUFS] = [u64::MAX;MAX_BUFS];
        let imported: [bool; MAX_BUFS] = [false;MAX_BUFS];
        assert(rendered@ =~= none_rendered());
        assert(imported@ =~= none_imported());
        Some(
            Anland {
                services,
                screen_w: width,
                screen_h: height,
                screen_refresh: refresh,
                native_w: width,
                native_h: height,
                pending_size: None,
                size_adapt_cooldown_until: 0,
                consumer_ready: false,
                pending_feedback: false,
                frame_seq: 0,
                frame_stats_count: 0,
                frame_stats_start_ns: 0,
                buffer_last_rendered_frame: rendered,
                consumer_dmabufs: imported,
                disposed: false,
            },
        )
    }

    /// The name of the seat.
    pub fn seat_name(&self) -> (name: &'static str)
        ensures
            name@ == "anland"@,
    {
        "anland"
    }

    /// The output to be added.
    pub fn add_output(&self) -> (plan: OutputPlan)
        ensures
            plan.connector@ == "anland-0"@,
            plan.make@ == "niri"@,
            plan.model@ == "anland"@,
            plan.serial@ == "0"@,
            (plan.width, plan.height, plan.refresh) == output_mode(self@),
            (plan.ipc_width, plan.ipc_height, plan.ipc_refresh) == told_mode(self@),
    {
        OutputPlan {
            connector: "anland-0",
            make: "niri",
            model: "anland",
            serial: "0",
            width: self.screen_w as i32,
            height: self.screen_h as i32,
            refresh: self.screen_refresh as i32,
            ipc_width: self.screen_w as u16,
            ipc_height: self.screen_h as u16,
            ipc_refresh: self.screen_refresh,
        }
    }

    /// Takes another size over as the mode of the output.
    fn adapt_to_size(&mut self, width: i32, height: i32) -> (plan: ModePlan)
        ensures
            final(self)@ == old(self)@.adapted((width, height)),
            plan == mode_for(width, height, old(self).screen_refresh),
    {
        self.screen_w = width as u32;
        self.screen_h = height as u32;
        self.native_w = self.screen_w;
        self.native_h = self.screen_h;
        ModePlan {
            width,
            height,
            refresh: self.screen_refresh as i32,
            ipc_width: clamp_u16(width),
            ipc_height: clamp_u16(height),
            logical_width: width as u32,
            logical_height: height as u32,
        }
    }

    /// Whether the consumer is gone.
    pub fn is_in_fallback(&self, ctx: &display_ctx) -> (gone: bool)
        ensures
            gone == (!self.disposed && ctx@.fallback),
    {
        !self.disposed && is_fallback(ctx)
    }

    /// Begins a poll: the clipboard is forwarded, the consumer is looked for or the frame that it
    /// has shown is completed, and then all input that waits is taken. [`Tick::resume`] goes on.
    pub fn poll(&self, active_interval: u64, has_output: bool) -> (r: (Tick, TickAction))
        ensures
            r.0 == (Tick { active_interval, has_output, phase: TickPhase::Forwarding }),
            r.1 is FetchText,
    {
        (
            Tick { active_interval, has_output, phase: TickPhase::Forwarding },
            TickAction::FetchText,
        )
    }

    /// What is to be done about the consumer: it is looked for if it is gone, else a poll sees
    /// whether it has shown a frame.
    pub fn check_consumer(&self, ctx: &display_ctx) -> (plan: ConsumerPlan)
        ensures
            plan == consumer_plan(self@, ctx@),
    {
        if is_fallback(ctx) {
            return ConsumerPlan::Reconnect { detach: self.services };
        }
        match self.buffer_ready(ctx) {
            Some(fd) => ConsumerPlan::CheckBufferReady(fd),
            None => ConsumerPlan::Nothing,
        }
    }

    /// The descriptor that says whether a frame was shown, if there is one.
    pub fn buffer_ready(&self, ctx: &display_ctx) -> (fd: Option<i32>)
        ensures
            fd == signal_fd(ctx@),
    {
        if is_fallback(ctx) {
            return None;
        }
        let fd = get_buffer_ready_fd(ctx);
        if fd < 0 {
            None
        } else {
            Some(fd)
        }
    }

    /// The descriptor to be read once a frame was shown, so that the signal is answered once.
    pub fn drain_buffer_ready(&self, ctx: &display_ctx) -> (fd: Option<i32>)
        ensures
            fd == signal_fd(ctx@),
    {
        self.buffer_ready(ctx)
    }

    /// Starts looking for a consumer, if there is none. The exchange returns 0 when one is there;
    /// [`Anland::on_reconnect`] is next then.
    pub fn try_reconnect(&self, ctx: &mut display_ctx) -> (step: Option<Step>)
        requires
            old(ctx).wf(),
            old(ctx)@.phase == Phase::Idle,
        ensures
            final(ctx).wf(),
            match step {
                Some(s) => old(ctx)@.fallback && (final(ctx)@, s@) == exiting_fallback(old(ctx)@),
                None => !old(ctx)@.fallback && final(ctx)@ == old(ctx)@,
            },
    {
        if !is_fallback(ctx) {
            return None;
        }
        Some(try_exit_fallback(ctx))
    }

    fn forget_buffers(&mut self)
        ensures
            final(self)@ == old(self)@.with_new_buffers(),
    {
        self.buffer_last_rendered_frame = [u64::MAX;MAX_BUFS];
        self.consumer_dmabufs = [false;MAX_BUFS];
        assert(self.buffer_last_rendered_frame@ =~= none_rendered());
        assert(self.consumer_dmabufs@ =~= none_imported());
    }

    /// The consumer is back: everything starts over with its new buffers.
    pub fn on_reconnect(&mut self, ctx: &display_ctx, has_output: bool) -> (plan: ReconnectPlan)
        ensures
            final(self)@ == old(self)@.reconnected(),
            plan == old(self)@.reconnect_plan(ctx@, has_output),
    {
        let audio = if self.services {
            Some(get_audio_fd(ctx))
        } else {
            None
        };
        self.consumer_ready = true;
        self.forget_buffers();
        self.native_w = self.screen_w;
        self.native_h = self.screen_h;
        self.pending_size = None;
        self.size_adapt_cooldown_until = 0;
        self.pending_feedback = false;
        ReconnectPlan { audio, request_cameras: self.services, queue_redraw: has_output }
    }

    /// Takes what polling for input returned, and the event if there is one.
    pub fn poll_input(&mut self, code: i32, event: InputEvent) -> (plan: InputPlan)
        ensures
            plan == old(self)@.input(code, event),
            final(self)@ == (if plan is Redraw {
                old(self)@.with_new_buffers()
            } else {
                old(self)@
            }),
    {
        if code == -2 {
            self.forget_buffers();
            return InputPlan::Redraw;
        }
        if code != 1 {
            return InputPlan::Nothing;
        }
        let kind = event.type_;
        if kind == INPUT_TYPE_CLIPBOARD || kind == INPUT_TYPE_TEXT_INPUT {
            let size: u32 = event.data.clipboard().size;
            if size > 0 {
                return InputPlan::ReadPayload { size, clipboard: kind == INPUT_TYPE_CLIPBOARD };
            }
            if kind == INPUT_TYPE_CLIPBOARD {
                return InputPlan::ClearClipboard;
            }
        }
        if kind == INPUT_TYPE_RESOURCE && self.services {
            return InputPlan::ReceiveResources { service: event.data.resource().type_ };
        }
        InputPlan::Translate
    }

    /// Draws into the selected buffer, if there is one to be drawn into. `size` is that of the
    /// output's mode, `renderer` tells whether there is anything to draw with.
    ///
    /// A buffer that is being drawn into counts as not imported until the frame is submitted.
    pub fn render(
        &mut self,
        ctx: &display_ctx,
        shared_idx: u32,
        size: (i32, i32),
        now_usec: u64,
        renderer: bool,
    ) -> (start: RenderStart)
        requires
            ctx.wf(),
        ensures
            (final(self)@, start) == old(self)@.rendering(
                ctx@,
                shared_idx,
                size,
                now_usec,
                renderer,
            ),
            start.target matches Some(t) ==> t.idx < MAX_BUFS,
    {
        let skipped = RenderStart { adapt: None, target: None };
        if !self.consumer_ready || is_fallback(ctx) {
            return skipped;
        }
        let idx = get_selected_idx(ctx, shared_idx);
        if idx < 0 {
            return skipped;
        }
        let fd = get_dmabuf_fd_at(ctx, idx);
        if fd < 0 {
            return skipped;
        }
        let Some(info) = get_dmabuf_info_at(ctx, idx) else {
            return skipped;
        };
        let adapt = self.observe_size(size, (info.width as i32, info.height as i32), now_usec);
        if !renderer {
            return RenderStart { adapt, target: None };
        }
        let at: usize = idx as usize;
        let imported = self.consumer_dmabufs[at];
        self.consumer_dmabufs[at] = false;
        RenderStart { adapt, target: Some(Target { idx: at, fd, info, imported }) }
    }

    fn observe_size(&mut self, size: (i32, i32), buffer: (i32, i32), now_usec: u64) -> (adapt:
        Option<ModePlan>)
        ensures
            final(self)@ == old(self)@.observed(size, buffer, now_usec),
            adapt == (if old(self)@.adapts(size, buffer, now_usec) {
                Some(mode_for(buffer.0, buffer.1, old(self).screen_refresh))
            } else {
                None
            }),
    {
        if size.0 == buffer.0 && size.1 == buffer.1 {
            self.pending_size = None;
            return None;
        }
        let stable = pending_size_is_stable(
            &mut self.pending_size,
            buffer,
            now_usec,
            SIZE_STABILITY_MICROS,
        );
        if !stable || now_usec < self.size_adapt_cooldown_until {
            return None;
        }
        self.pending_size = None;
        let cooldown = duration_to_micros(SIZE_ADAPT_COOLDOWN_MICROS);
        self.size_adapt_cooldown_until = if now_usec > u64::MAX - cooldown {
            u64::MAX
        } else {
            now_usec + cooldown
        };
        Some(self.adapt_to_size(buffer.0, buffer.1))
    }

    /// The buffer is imported and is drawn into now: tells how old what is in it is.
    pub fn begin_frame(&mut self, idx: usize) -> (age: usize)
        requires
            idx < MAX_BUFS,
        ensures
            age == old(self)@.age(idx as int),
            final(self)@ == old(self)@.drawing(idx as int),
    {
        let frame = self.frame_seq;
        let last = self.buffer_last_rendered_frame[idx];
        let age: usize = if last == u64::MAX {
            0
        } else {
            frame.wrapping_sub(last) as usize
        };
        self.buffer_last_rendered_frame[idx] = frame;
        age
    }

    /// The frame is drawn: starts handing it to the consumer, and tells what the output waits for
    /// and the timer to be ended, if there is one.
    pub fn finish_frame(
        &mut self,
        ctx: &mut display_ctx,
        idx: usize,
        fence: Fence,
        state: RedrawState,
    ) -> (frame: SubmittedFrame)
        requires
            old(ctx).wf(),
            old(ctx)@.phase == Phase::Idle,
            idx < MAX_BUFS,
            state is Queued || state is WaitingForEstimatedVBlankAndQueued,
        ensures
            final(ctx).wf(),
            (final(ctx)@, frame.step@) == handed_over(old(ctx)@, fence.fd),
            final(self)@ == old(self)@.submitted(idx as int),
            frame.redraw == (RedrawState::WaitingForVBlank { redraw_needed: false }),
            frame.timer == (match state {
                RedrawState::WaitingForEstimatedVBlankAndQueued(token) => Some(token),
                _ => None,
            }),
    {
        let step = hand_over(ctx, fence);
        self.pending_feedback = true;
        self.consumer_ready = false;
        self.frame_seq = self.frame_seq.wrapping_add(1);
        self.consumer_dmabufs[idx] = true;
        let timer = match state {
            RedrawState::WaitingForEstimatedVBlankAndQueued(token) => Some(token),
            _ => None,
        };
        SubmittedFrame {
            step,
            redraw: RedrawState::WaitingForVBlank { redraw_needed: false },
            timer,
        }
    }

    /// The consumer has shown the frame. `output` is the state of the output, if there is one: it
    /// is idle from here on, and a redraw is always queued, because the consumer waits for exactly
    /// one frame after each that it shows.
    pub fn on_buffer_ready(&mut self, output: Option<RedrawState>, now_ns: u128) -> (plan: Option<
        ShownPlan,
    >)
        ensures
            (final(self)@, plan) == old(self)@.shown(output, now_ns),
    {
        self.consumer_ready = true;
        let Some(state) = output else {
            return None;
        };
        let unexpected = match state {
            RedrawState::WaitingForVBlank { redraw_needed: _ } => false,
            _ => true,
        };
        if self.frame_stats_count == 0 {
            self.frame_stats_start_ns = now_ns;
        }
        if self.frame_stats_count < u32::MAX {
            self.frame_stats_count = self.frame_stats_count + 1;
        }
        let elapsed: u128 = if now_ns >= self.frame_stats_start_ns {
            now_ns - self.frame_stats_start_ns
        } else {
            0
        };
        let mut stats: Option<FrameStats> = None;
        if elapsed >= FRAME_STATS_NS {
            stats = Some(FrameStats { frames: self.frame_stats_count, elapsed_ns: elapsed });
            self.frame_stats_count = 0;
            self.frame_stats_start_ns = 0;
        }
        let presented = if self.pending_feedback {
            Some(self.frame_seq)
        } else {
            None
        };
        self.pending_feedback = false;
        Some(
            ShownPlan {
                unexpected,
                stats,
                presented,
                redraw: RedrawState::Idle,
                queue_redraw: true,
            },
        )
    }

    /// Ends the backend. Tells whether there is something to end: then audio and cameras stop, and
    /// the connection is closed.
    pub fn dispose(&mut self) -> (first: bool)
        ensures
            first == !old(self).disposed,
            final(self)@ == (AnlandModel { disposed: true, ..old(self)@ }),
    {
        let first = !self.disposed;
        self.disposed = true;
        first
    }
}

/// What goes to the consumer with a frame.
#[derive(Debug, Clone, Copy, PartialEq, Eq, Structural)]
pub struct Fence {
    /// What the consumer waits for, or -1 for nothing.
    pub fd: i32,
    /// Wait for the frame before it is handed over.
    pub wait: bool,
}

/// The fence of a frame.
pub open spec fn fence_of(exported: Option<i32>) -> Fence {
    match exported {
        Some(fd) => Fence { fd, wait: false },
        None => Fence { fd: -1i32, wait: true },
    }
}

/// Chooses the fence of a frame. `exported` is the fence that the renderer could export: without
/// one the consumer would show a frame that is not finished, so it is waited for.
pub fn choose_fence(exported: Option<i32>) -> (fence: Fence)
    ensures
        fence == fence_of(exported),
{
    match exported {
        Some(fd) => Fence { fd, wait: false },
        None => Fence { fd: -1, wait: true },
    }
}

/// Starts handing a frame to the consumer: its fence replaces the last one, which is closed, and
/// then the consumer is told.
pub fn hand_over(ctx: &mut display_ctx, fence: Fence) -> (step: Step)
    requires
        old(ctx).wf(),
        old(ctx)@.phase == Phase::Idle,
    ensures
        final(ctx).wf(),
        (final(ctx)@, step@) == handed_over(old(ctx)@, fence.fd),
{
    let mut effects = set_render_fence(ctx, fence.fd);
    let mut refresh = trigger_refresh(ctx);
    effects.append(&mut refresh.effects);
    Step { effects, next: refresh.next }
}

/// Whether another event is polled for. `translated` tells whether there was anything in the last
/// one, if it was handed on.
pub fn polls_again(plan: InputPlan, translated: bool) -> (more: bool)
    ensures
        more == more_input(plan, translated),
{
    match plan {
        InputPlan::Nothing | InputPlan::Redraw | InputPlan::ReceiveResources { .. } => false,
        InputPlan::Translate | InputPlan::ClearClipboard | InputPlan::ReadPayload { .. }
            => translated,
    }
}

/// Takes the descriptors that came for a service: `count` is what receiving them returned. Those
/// of the camera service are its control socket and its streams; all others are closed.
pub fn handle_resource_reply(service: u32, count: i32, fds: &[i32]) -> (plan: ResourcePlan)
    requires
        count <= fds@.len(),
    ensures
        plan@ == resource_plan(service, count as int, fds@),
{
    if count < 1 {
        return ResourcePlan::Nothing;
    }
    let n: usize = count as usize;
    let cameras = service == SERVICE_TYPE_CAMERA && count >= 2;
    let from: usize = if cameras {
        1
    } else {
        0
    };
    let mut list: Vec<i32> = Vec::new();
    let mut i: usize = from;
    while i < n
        invariant
            from <= i <= n,
            n <= fds@.len(),
            list@ == fds@.subrange(from as int, i as int),
        decreases n - i,
    {
        list.push(fds[i]);
        i += 1;
        assert(list@ =~= fds@.subrange(from as int, i as int));
    }
    if cameras {
        ResourcePlan::Cameras { ctrl: fds[0], streams: list }
    } else {
        assert(list@ =~= fds@.take(count as int));
        ResourcePlan::Close(list)
    }
}

} // verus!
