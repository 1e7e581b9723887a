//! One turn of the poll timer: the order in which the consumer is looked after.
//!
//! [`Anland::poll`] begins a turn. Whoever runs it carries out the action and hands the reply to
//! [`Tick::resume`], until the action is to wait for the next turn.
use vstd::prelude::*;

#[allow(unused_imports)]
use crate::backend::anland::{
    consumer_plan, more_input, resource_plan, signal_fd, AnlandModel, ResourcePlanModel,
};
use crate::backend::anland::{
    handle_resource_reply, polls_again, Anland, ConsumerPlan, InputPlan, ReconnectPlan,
    RedrawState, ResourcePlan, ShownPlan, PAYLOAD_TIMEOUT_MS, RESOURCE_FDS, RESOURCE_TIMEOUT_MS,
};
#[allow(unused_imports)]
use crate::backend::clipboard::{
    clipboard_sending, payload_update, text_update, ClipboardUpdateModel,
};
use crate::backend::clipboard::{
    payload_read, send_clipboard_to_consumer, set_compositor_clipboard, ClipboardUpdate,
};
use crate::backend::clock::next_interval;
#[allow(unused_imports)]
use crate::backend::clock::FALLBACK_POLL_INTERVAL_NS;
use crate::ffi::context::{
    display_ctx, poll_input_event, poll_input_event_extend_data, poll_input_event_extend_fds,
    push_resources_request, Step,
};
#[allow(unused_imports)]
use crate::ffi::context::resources_request_words;
#[allow(unused_imports)]
use crate::ffi::model::{
    exiting_fallback, with_consumer, CtxModel, Phase, RequestModel, StepModel,
};
#[allow(unused_imports)]
use crate::ffi::protocol::output_frame;
use crate::ffi::protocol::{InputEvent, InputEventData, SERVICE_TYPE_CAMERA};

verus! {

/// What a turn waits for.
#[derive(Debug, Clone, Copy, PartialEq, Eq, Structural)]
pub enum TickPhase {
    /// Text of a client is being fetched.
    Forwarding,
    /// Text of a client is being sent to the consumer.
    Sending,
    /// Clients that set the clipboard are being asked for their text.
    Asking,
    /// The services are letting go of the consumer.
    Detaching,
    /// A consumer is being looked for.
    Reconnecting,
    /// The consumer is back, and everything starts over.
    Recovering { request_cameras: bool },
    /// The camera service is being asked for.
    Requesting,
    /// The signal of the consumer is being looked at.
    Checking,
    /// The signal is being read.
    Draining,
    /// The frame that was shown is being completed.
    Showing,
    /// An input event is being polled for.
    Polling,
    /// Everything is being queued to be drawn again.
    Redrawing,
    /// The payload of an event is being read.
    ReadingPayload { event: InputEvent, plan: InputPlan, clipboard: bool },
    /// The clipboard is being set.
    Updating { event: InputEvent, plan: InputPlan },
    /// An event is being handed on.
    Translating { plan: InputPlan },
    /// The descriptors of a service are being received.
    Receiving { service: u32 },
    /// The descriptors of a service are being used.
    Delivering { service: u32 },
    /// Clients are being told of what changed.
    Flushing,
    /// The turn is over.
    Ended,
}

/// A turn of the poll timer.
#[derive(Debug, Clone, Copy, PartialEq, Eq, Structural)]
pub struct Tick {
    /// The time between two turns while there is a consumer, in nanoseconds.
    pub active_interval: u64,
    /// There is an output to be drawn.
    pub has_output: bool,
    pub phase: TickPhase,
}

/// What is to be done next in a turn.
pub enum TickAction {
    /// Fetch the next text of a client that is complete.
    FetchText,
    /// Ask clients that set the clipboard for their text.
    AskClients,
    /// Take audio and the cameras from the consumer.
    Detach,
    /// Run this exchange to its end.
    Exchange(Step),
    /// The consumer is back.
    Recover(ReconnectPlan),
    /// See whether this descriptor says that a frame was shown.
    CheckBufferReady(i32),
    /// Read this descriptor, so that it says so no more.
    DrainBufferReady(i32),
    /// A frame was shown.
    Show(ShownPlan),
    /// Import the buffers anew and draw everything again.
    Redraw,
    UpdateClipboard(ClipboardUpdate),
    /// Hand this event on.
    Translate(InputEvent),
    UseResources(ResourcePlan),
    /// Tell clients of what changed.
    Flush,
    /// The turn is over; the next is due in so many nanoseconds.
    Wait(u64),
}

/// The same, as a plain value.
pub enum TickActionModel {
    FetchText,
    AskClients,
    Detach,
    Exchange(StepModel),
    Recover(ReconnectPlan),
    CheckBufferReady(i32),
    DrainBufferReady(i32),
    Show(ShownPlan),
    Redraw,
    UpdateClipboard(ClipboardUpdateModel),
    Translate(InputEvent),
    UseResources(ResourcePlanModel),
    Flush,
    Wait(u64),
}

impl View for TickAction {
    type V = TickActionModel;

    open spec fn view(&self) -> TickActionModel {
        match self {
            TickAction::FetchText => TickActionModel::FetchText,
            TickAction::AskClients => TickActionModel::AskClients,
            TickAction::Detach => TickActionModel::Detach,
            TickAction::Exchange(step) => TickActionModel::Exchange(step@),
            TickAction::Recover(plan) => TickActionModel::Recover(*plan),
            TickAction::CheckBufferReady(fd) => TickActionModel::CheckBufferReady(*fd),
            TickAction::DrainBufferReady(fd) => TickActionModel::DrainBufferReady(*fd),
            TickAction::Show(plan) => TickActionModel::Show(*plan),
            TickAction::Redraw => TickActionModel::Redraw,
            TickAction::UpdateClipboard(update) => TickActionModel::UpdateClipboard(update@),
            TickAction::Translate(event) => TickActionModel::Translate(*event),
            TickAction::UseResources(plan) => TickActionModel::UseResources(plan@),
            TickAction::Flush => TickActionModel::Flush,
            TickAction::Wait(ns) => TickActionModel::Wait(*ns),
        }
    }
}

/// How an action of a turn went.
pub enum TickReply {
    /// It is done.
    Done,
    /// The text, if there is one.
    Text(Option<String>),
    /// The exchange is over: what it returned, and the last bytes and descriptors that came.
    Exchanged { code: i32, event: Option<InputEvent>, bytes: Vec<u8>, fds: Vec<i32> },
    /// What polling the descriptor returned, and whether there is something to be read from it.
    Looked { result: i32, readable: bool },
    /// The descriptor was read: the state of the output, if there is one, and the time.
    Drained { output: Option<RedrawState>, now_ns: u128 },
    /// Whether there was anything in the event.
    Translated(bool),
}

/// The same, as a plain value.
pub enum TickReplyModel {
    Done,
    Text(Option<Seq<char>>),
    Exchanged { code: i32, event: Option<InputEvent>, bytes: Seq<u8>, fds: Seq<i32> },
    Looked { result: i32, readable: bool },
    Drained { output: Option<RedrawState>, now_ns: u128 },
    Translated(bool),
}

impl View for TickReply {
    type V = TickReplyModel;

    open spec fn view(&self) -> TickReplyModel {
        match self {
            TickReply::Done => TickReplyModel::Done,
            TickReply::Text(None) => TickReplyModel::Text(None),
            TickReply::Text(Some(text)) => TickReplyModel::Text(Some(text@)),
            TickReply::Exchanged { code, event, bytes, fds } => TickReplyModel::Exchanged {
                code: *code,
                event: *event,
                bytes: bytes@,
                fds: fds@,
            },
            TickReply::Looked { result, readable } => TickReplyModel::Looked {
                result: *result,
                readable: *readable,
            },
            TickReply::Drained { output, now_ns } => TickReplyModel::Drained {
                output: *output,
                now_ns: *now_ns,
            },
            TickReply::Translated(translated) => TickReplyModel::Translated(*translated),
        }
    }
}

/// A turn, what it made of the backend and the context, and what is to be done next.
pub struct TickTurn {
    pub tick: Tick,
    pub anland: AnlandModel,
    pub ctx: CtxModel,
    pub action: TickActionModel,
}

/// The event of an exchange that brought none.
pub open spec fn event_of(event: Option<InputEvent>) -> InputEvent {
    match event {
        Some(e) => e,
        None => InputEvent { type_: 0, data: InputEventData { w0: 0, w1: 0, w2: 0, w3: 0 } },
    }
}

/// A descriptor that was looked at says that a frame was shown.
pub open spec fn is_signal(result: i32, readable: bool) -> bool {
    result > 0 && readable
}

/// How many descriptors came: no more than there are.
pub open spec fn received(code: i32, fds: Seq<i32>) -> int {
    if code <= fds.len() {
        code as int
    } else {
        fds.len() as int
    }
}

impl Tick {
    /// The turn waits for something else.
    pub open spec fn at(self, phase: TickPhase) -> Tick {
        Tick { phase, ..self }
    }

    /// The turn goes on without another word to the consumer.
    pub open spec fn acting(
        self,
        phase: TickPhase,
        anland: AnlandModel,
        ctx: CtxModel,
        action: TickActionModel,
    ) -> TickTurn {
        TickTurn { tick: self.at(phase), anland, ctx, action }
    }

    /// The turn goes on with an exchange.
    pub open spec fn exchanging(
        self,
        phase: TickPhase,
        anland: AnlandModel,
        begun: (CtxModel, StepModel),
    ) -> TickTurn {
        TickTurn {
            tick: self.at(phase),
            anland,
            ctx: begun.0,
            action: TickActionModel::Exchange(begun.1),
        }
    }

    /// An input event is polled for, without waiting.
    pub open spec fn polling(self, anland: AnlandModel, ctx: CtxModel) -> TickTurn {
        self.exchanging(
            TickPhase::Polling,
            anland,
            with_consumer(
                ctx,
                Phase::InputPoll,
                RequestModel::Poll { fd: ctx.data_fd, timeout_ms: 0, watch_hangup: false },
            ),
        )
    }

    /// An input event is dealt with: the next is polled for, or there is none.
    pub open spec fn after_input(
        self,
        anland: AnlandModel,
        ctx: CtxModel,
        plan: InputPlan,
        translated: bool,
    ) -> TickTurn {
        if more_input(plan, translated) {
            self.polling(anland, ctx)
        } else {
            self.acting(TickPhase::Flushing, anland, ctx, TickActionModel::Flush)
        }
    }

    /// The turn is over: the next comes sooner or later, as the consumer is there or gone by now.
    pub open spec fn ending(self, anland: AnlandModel, ctx: CtxModel) -> TickTurn {
        self.acting(
            TickPhase::Ended,
            anland,
            ctx,
            TickActionModel::Wait(
                if !anland.disposed && ctx.fallback {
                    FALLBACK_POLL_INTERVAL_NS
                } else {
                    self.active_interval
                },
            ),
        )
    }

    /// The next text of a client is fetched.
    pub open spec fn forwarding(self, anland: AnlandModel, ctx: CtxModel) -> TickTurn {
        self.acting(TickPhase::Forwarding, anland, ctx, TickActionModel::FetchText)
    }

    /// Text of a client is sent to the consumer, if it is there.
    pub open spec fn sending(
        self,
        anland: AnlandModel,
        ctx: CtxModel,
        text: Seq<char>,
    ) -> TickTurn {
        if ctx.fallback {
            self.forwarding(anland, ctx)
        } else {
            self.exchanging(TickPhase::Sending, anland, clipboard_sending(ctx, text))
        }
    }

    /// A consumer is looked for, if there is none.
    pub open spec fn reconnecting(self, anland: AnlandModel, ctx: CtxModel) -> TickTurn {
        if ctx.fallback {
            self.exchanging(TickPhase::Reconnecting, anland, exiting_fallback(ctx))
        } else {
            self.polling(anland, ctx)
        }
    }

    /// The consumer is looked after.
    pub open spec fn looking_after(self, anland: AnlandModel, ctx: CtxModel) -> TickTurn {
        match consumer_plan(anland, ctx) {
            ConsumerPlan::Reconnect { detach } => if detach {
                self.acting(TickPhase::Detaching, anland, ctx, TickActionModel::Detach)
            } else {
                self.reconnecting(anland, ctx)
            },
            ConsumerPlan::CheckBufferReady(fd) => self.acting(
                TickPhase::Checking,
                anland,
                ctx,
                TickActionModel::CheckBufferReady(fd),
            ),
            ConsumerPlan::Nothing => self.polling(anland, ctx),
        }
    }

    /// The camera service is asked for.
    pub open spec fn requesting(self, anland: AnlandModel, ctx: CtxModel) -> TickTurn {
        self.exchanging(
            TickPhase::Requesting,
            anland,
            with_consumer(
                ctx,
                Phase::Push,
                RequestModel::SendAll {
                    fd: ctx.data_fd,
                    bytes: output_frame(
                        resources_request_words(SERVICE_TYPE_CAMERA, None),
                        Seq::empty(),
                    ),
                },
            ),
        )
    }

    /// Polling for an event returned this.
    pub open spec fn polled(
        self,
        anland: AnlandModel,
        ctx: CtxModel,
        code: i32,
        event: InputEvent,
    ) -> TickTurn {
        let plan = anland.input(code, event);
        match plan {
            InputPlan::Nothing => self.after_input(anland, ctx, plan, false),
            InputPlan::Redraw => self.acting(
                TickPhase::Redrawing,
                anland.with_new_buffers(),
                ctx,
                TickActionModel::Redraw,
            ),
            InputPlan::Translate => self.acting(
                TickPhase::Translating { plan },
                anland,
                ctx,
                TickActionModel::Translate(event),
            ),
            InputPlan::ClearClipboard => self.acting(
                TickPhase::Updating { event, plan },
                anland,
                ctx,
                TickActionModel::UpdateClipboard(text_update(Seq::empty())),
            ),
            InputPlan::ReadPayload { size, clipboard } => self.exchanging(
                TickPhase::ReadingPayload { event, plan, clipboard },
                anland,
                with_consumer(
                    ctx,
                    Phase::DataPoll { size: size as usize },
                    RequestModel::Poll {
                        fd: ctx.data_fd,
                        timeout_ms: PAYLOAD_TIMEOUT_MS,
                        watch_hangup: false,
                    },
                ),
            ),
            InputPlan::ReceiveResources { service } => self.exchanging(
                TickPhase::Receiving { service },
                anland,
                with_consumer(
                    ctx,
                    Phase::FdsPoll { limit: RESOURCE_FDS },
                    RequestModel::Poll {
                        fd: ctx.data_fd,
                        timeout_ms: RESOURCE_TIMEOUT_MS,
                        watch_hangup: false,
                    },
                ),
            ),
        }
    }

    /// What a turn does with the reply to its action. A reply to something else ends it.
    pub open spec fn resumed(
        self,
        anland: AnlandModel,
        ctx: CtxModel,
        reply: TickReplyModel,
    ) -> TickTurn {
        match (self.phase, reply) {
            (TickPhase::Forwarding, TickReplyModel::Text(Some(text))) => self.sending(
                anland,
                ctx,
                text,
            ),
            (TickPhase::Forwarding, TickReplyModel::Text(None)) => self.acting(
                TickPhase::Asking,
                anland,
                ctx,
                TickActionModel::AskClients,
            ),
            (TickPhase::Sending, TickReplyModel::Exchanged { .. }) => self.forwarding(anland, ctx),
            (TickPhase::Asking, TickReplyModel::Done) => self.looking_after(anland, ctx),
            (TickPhase::Detaching, TickReplyModel::Done) => self.reconnecting(anland, ctx),
            (TickPhase::Reconnecting, TickReplyModel::Exchanged { code, .. }) => if code == 0 {
                let plan = anland.reconnect_plan(ctx, self.has_output);
                self.acting(
                    TickPhase::Recovering { request_cameras: plan.request_cameras },
                    anland.reconnected(),
                    ctx,
                    TickActionModel::Recover(plan),
                )
            } else {
                self.polling(anland, ctx)
            },
            (
                TickPhase::Recovering { request_cameras },
                TickReplyModel::Done,
            ) => if request_cameras {
                self.requesting(anland, ctx)
            } else {
                self.polling(anland, ctx)
            },
            (TickPhase::Requesting, TickReplyModel::Exchanged { .. }) => self.polling(anland, ctx),
            (
                TickPhase::Checking,
                TickReplyModel::Looked { result, readable },
            ) => match signal_fd(ctx) {
                Some(fd) if is_signal(result, readable) => self.acting(
                    TickPhase::Draining,
                    anland,
                    ctx,
                    TickActionModel::DrainBufferReady(fd),
                ),
                _ => self.polling(anland, ctx),
            },
            (TickPhase::Draining, TickReplyModel::Drained { output, now_ns }) => {
                let (after, plan) = anland.shown(output, now_ns);
                match plan {
                    Some(plan) => self.acting(
                        TickPhase::Showing,
                        after,
                        ctx,
                        TickActionModel::Show(plan),
                    ),
                    None => self.polling(after, ctx),
                }
            },
            (TickPhase::Showing, TickReplyModel::Done) => self.polling(anland, ctx),
            (TickPhase::Polling, TickReplyModel::Exchanged { code, event, .. }) => self.polled(
                anland,
                ctx,
                code,
                event_of(event),
            ),
            (TickPhase::Redrawing, TickReplyModel::Done) => self.after_input(
                anland,
                ctx,
                InputPlan::Redraw,
                false,
            ),
            (
                TickPhase::ReadingPayload { event, plan, clipboard },
                TickReplyModel::Exchanged { code, bytes, .. },
            ) => self.acting(
                TickPhase::Updating { event, plan },
                anland,
                ctx,
                TickActionModel::UpdateClipboard(payload_update(clipboard, code, bytes)),
            ),
            (TickPhase::Updating { event, plan }, TickReplyModel::Done) => self.acting(
                TickPhase::Translating { plan },
                anland,
                ctx,
                TickActionModel::Translate(event),
            ),
            (
                TickPhase::Translating { plan },
                TickReplyModel::Translated(translated),
            ) => self.after_input(anland, ctx, plan, translated),
            (
                TickPhase::Receiving { service },
                TickReplyModel::Exchanged { code, fds, .. },
            ) => self.acting(
                TickPhase::Delivering { service },
                anland,
                ctx,
                TickActionModel::UseResources(resource_plan(service, received(code, fds), fds)),
            ),
            (TickPhase::Delivering { service }, TickReplyModel::Done) => self.after_input(
                anland,
                ctx,
                InputPlan::ReceiveResources { service },
                false,
            ),
            (TickPhase::Flushing, TickReplyModel::Done) => self.ending(anland, ctx),
            _ => self.ending(anland, ctx),
        }
    }

    /// Carries out the rest of a turn up to its next action. `ctx` is idle: an exchange is run to
    /// its end before its reply comes here.
    pub fn resume(
        &mut self,
        anland: &mut Anland,
        ctx: &mut display_ctx,
        reply: TickReply,
    ) -> (action: TickAction)
        requires
            old(ctx).wf(),
            old(ctx)@.phase == Phase::Idle,
        ensures
            final(ctx).wf(),
            turn(*final(self), final(anland)@, final(ctx)@, action) == old(self).resumed(
                old(anland)@,
                old(ctx)@,
                reply@,
            ),
    {
        match (self.phase, reply) {
            (TickPhase::Forwarding, TickReply::Text(Some(text))) => {
                match send_clipboard_to_consumer(ctx, text.as_str()) {
                    Some(step) => {
                        self.phase = TickPhase::Sending;
                        TickAction::Exchange(step)
                    },
                    None => TickAction::FetchText,
                }
            },
            (TickPhase::Forwarding, TickReply::Text(None)) => {
                self.phase = TickPhase::Asking;
                TickAction::AskClients
            },
            (TickPhase::Sending, TickReply::Exchanged { .. }) => {
                self.phase = TickPhase::Forwarding;
                TickAction::FetchText
            },
            (TickPhase::Asking, TickReply::Done) => self.look_after(anland, ctx),
            (TickPhase::Detaching, TickReply::Done) => self.reconnect(anland, ctx),
            (TickPhase::Reconnecting, TickReply::Exchanged { code, .. }) => {
                if code != 0 {
                    return self.poll_event(anland, ctx);
                }
                let plan = anland.on_reconnect(ctx, self.has_output);
                self.phase = TickPhase::Recovering { request_cameras: plan.request_cameras };
                TickAction::Recover(plan)
            },
            (TickPhase::Recovering { request_cameras }, TickReply::Done) => {
                if !request_cameras {
                    return self.poll_event(anland, ctx);
                }
                self.phase = TickPhase::Requesting;
                TickAction::Exchange(push_resources_request(ctx, SERVICE_TYPE_CAMERA, None))
            },
            (TickPhase::Requesting, TickReply::Exchanged { .. }) => self.poll_event(anland, ctx),
            (TickPhase::Checking, TickReply::Looked { result, readable }) => {
                if result > 0 && readable {
                    if let Some(fd) = anland.drain_buffer_ready(ctx) {
                        self.phase = TickPhase::Draining;
                        return TickAction::DrainBufferReady(fd);
                    }
                }
                self.poll_event(anland, ctx)
            },
            (TickPhase::Draining, TickReply::Drained { output, now_ns }) => {
                match anland.on_buffer_ready(output, now_ns) {
                    Some(plan) => {
                        self.phase = TickPhase::Showing;
                        TickAction::Show(plan)
                    },
                    None => self.poll_event(anland, ctx),
                }
            },
            (TickPhase::Showing, TickReply::Done) => self.poll_event(anland, ctx),
            (TickPhase::Polling, TickReply::Exchanged { code, event, .. }) => {
                let event = match event {
                    Some(event) => event,
                    None => InputEvent {
                        type_: 0,
                        data: InputEventData { w0: 0, w1: 0, w2: 0, w3: 0 },
                    },
                };
                self.take_event(anland, ctx, code, event)
            },
            (TickPhase::Redrawing, TickReply::Done) => self.finish_event(
                anland,
                ctx,
                InputPlan::Redraw,
                false,
            ),
            (
                TickPhase::ReadingPayload { event, plan, clipboard },
                TickReply::Exchanged { code, bytes, .. },
            ) => {
                self.phase = TickPhase::Updating { event, plan };
                TickAction::UpdateClipboard(payload_read(clipboard, code, bytes))
            },
            (TickPhase::Updating { event, plan }, TickReply::Done) => {
                self.phase = TickPhase::Translating { plan };
                TickAction::Translate(event)
            },
            (TickPhase::Translating { plan }, TickReply::Translated(translated)) => {
                self.finish_event(anland, ctx, plan, translated)
            },
            (TickPhase::Receiving { service }, TickReply::Exchanged { code, fds, .. }) => {
                self.phase = TickPhase::Delivering { service };
                TickAction::UseResources(use_received(service, code, &fds))
            },
            (TickPhase::Delivering { service }, TickReply::Done) => self.finish_event(
                anland,
                ctx,
                InputPlan::ReceiveResources { service },
                false,
            ),
            _ => {
                self.phase = TickPhase::Ended;
                TickAction::Wait(next_interval(anland.is_in_fallback(ctx), self.active_interval))
            },
        }
    }

    fn poll_event(&mut self, anland: &Anland, ctx: &mut display_ctx) -> (action: TickAction)
        requires
            old(ctx).wf(),
            old(ctx)@.phase == Phase::Idle,
        ensures
            final(ctx).wf(),
            turn(*final(self), anland@, final(ctx)@, action) == old(self).polling(
                anland@,
                old(ctx)@,
            ),
    {
        self.phase = TickPhase::Polling;
        TickAction::Exchange(poll_input_event(ctx, 0))
    }

    fn finish_event(
        &mut self,
        anland: &Anland,
        ctx: &mut display_ctx,
        plan: InputPlan,
        translated: bool,
    ) -> (action: TickAction)
        requires
            old(ctx).wf(),
            old(ctx)@.phase == Phase::Idle,
        ensures
            final(ctx).wf(),
            turn(*final(self), anland@, final(ctx)@, action) == old(self).after_input(
                anland@,
                old(ctx)@,
                plan,
                translated,
            ),
    {
        if polls_again(plan, translated) {
            return self.poll_event(anland, ctx);
        }
        self.phase = TickPhase::Flushing;
        TickAction::Flush
    }

    fn reconnect(&mut self, anland: &Anland, ctx: &mut display_ctx) -> (action: TickAction)
        requires
            old(ctx).wf(),
            old(ctx)@.phase == Phase::Idle,
        ensures
            final(ctx).wf(),
            turn(*final(self), anland@, final(ctx)@, action) == old(self).reconnecting(
                anland@,
                old(ctx)@,
            ),
    {
        match anland.try_reconnect(ctx) {
            Some(step) => {
                self.phase = TickPhase::Reconnecting;
                TickAction::Exchange(step)
            },
            None => self.poll_event(anland, ctx),
        }
    }

    fn look_after(&mut self, anland: &Anland, ctx: &mut display_ctx) -> (action: TickAction)
        requires
            old(ctx).wf(),
            old(ctx)@.phase == Phase::Idle,
        ensures
            final(ctx).wf(),
            turn(*final(self), anland@, final(ctx)@, action) == old(self).looking_after(
                anland@,
                old(ctx)@,
            ),
    {
        match anland.check_consumer(ctx) {
            ConsumerPlan::Reconnect { detach } => {
                if !detach {
                    return self.reconnect(anland, ctx);
                }
                self.phase = TickPhase::Detaching;
                TickAction::Detach
            },
            ConsumerPlan::CheckBufferReady(fd) => {
                self.phase = TickPhase::Checking;
                TickAction::CheckBufferReady(fd)
            },
            ConsumerPlan::Nothing => self.poll_event(anland, ctx),
        }
    }

    fn take_event(
        &mut self,
        anland: &mut Anland,
        ctx: &mut display_ctx,
        code: i32,
        event: InputEvent,
    ) -> (action: TickAction)
        requires
            old(ctx).wf(),
            old(ctx)@.phase == Phase::Idle,
        ensures
            final(ctx).wf(),
            turn(*final(self), final(anland)@, final(ctx)@, action) == old(self).polled(
                old(anland)@,
                old(ctx)@,
                code,
                event,
            ),
    {
        let plan = anland.poll_input(code, event);
        match plan {
            InputPlan::Nothing => self.finish_event(anland, ctx, plan, false),
            InputPlan::Redraw => {
                self.phase = TickPhase::Redrawing;
                TickAction::Redraw
            },
            InputPlan::Translate => {
                self.phase = TickPhase::Translating { plan };
                TickAction::Translate(event)
            },
            InputPlan::ClearClipboard => {
                self.phase = TickPhase::Updating { event, plan };
                TickAction::UpdateClipboard(set_compositor_clipboard(String::new()))
            },
            InputPlan::ReadPayload { size, clipboard } => {
                self.phase = TickPhase::ReadingPayload { event, plan, clipboard };
                TickAction::Exchange(
                    poll_input_event_extend_data(ctx, size as usize, PAYLOAD_TIMEOUT_MS),
                )
            },
            InputPlan::ReceiveResources { service } => {
                self.phase = TickPhase::Receiving { service };
                TickAction::Exchange(
                    poll_input_event_extend_fds(ctx, RESOURCE_FDS, RESOURCE_TIMEOUT_MS),
                )
            },
        }
    }
}

/// What becomes of the descriptors that came for a service.
fn use_received(service: u32, code: i32, fds: &Vec<i32>) -> (plan: ResourcePlan)
    ensures
        plan@ == resource_plan(service, received(code, fds@), fds@),
{
    let count: i32 = if code <= 0 || code as usize <= fds.len() {
        code
    } else {
        fds.len() as i32
    };
    handle_resource_reply(service, count, fds.as_slice())
}

/// A turn with what it made of the backend and the context.
pub open spec fn turn(
    tick: Tick,
    anland: AnlandModel,
    ctx: CtxModel,
    action: TickAction,
) -> TickTurn {
    TickTurn { tick, anland, ctx, action: action@ }
}

} // verus!
