//! What a turn of the poll timer does at each of its steps: which words go to the daemon and the
//! consumer, and what becomes of what they answer.
use vstd::prelude::*;
use vstd::utf8::encode_utf8;

use crate::backend::anland::{AnlandModel, RedrawState, ResourcePlanModel};
use crate::backend::clipboard::ClipboardUpdateModel;
use crate::backend::promises::law_text_is_sent_with_its_length;
use crate::backend::tick::{Tick, TickActionModel, TickPhase, TickReplyModel};
use crate::bytes::{le32, words_bytes};
use crate::ffi::exchange_laws::law_services_are_asked_for;
use crate::ffi::message_laws::law_headers_are_type_and_size;
use crate::ffi::model::{CtxModel, Phase, RequestModel};
use crate::ffi::protocol::InputEvent;

verus! {

/// The action is an exchange that begins with this, and nothing is done before it.
pub open spec fn begins_with(action: TickActionModel, next: RequestModel) -> bool {
    action matches TickActionModel::Exchange(step) && step.next == next && step.effects.len() == 0
}

/// The next input event is polled for on the data socket, without waiting.
pub open spec fn polls(action: TickActionModel, ctx: CtxModel) -> bool {
    begins_with(
        action,
        RequestModel::Poll { fd: ctx.data_fd, timeout_ms: 0, watch_hangup: false },
    )
}

/// Text of a client is sent to a consumer that is there, bytes and all, and then the next is
/// fetched; without a consumer it is dropped. When there is no more, clients are asked for theirs.
pub proof fn law_clipboards_are_forwarded(
    t: Tick,
    a: AnlandModel,
    ctx: CtxModel,
    text: Seq<char>,
    reply: TickReplyModel,
)
    requires
        encode_utf8(text).len() <= u32::MAX,
    ensures
        t.phase is Forwarding && !ctx.fallback ==> ({
            let turn = t.resumed(a, ctx, TickReplyModel::Text(Some(text)));
            &&& turn.tick.phase is Sending && turn.anland == a
            &&& turn.action matches TickActionModel::Exchange(step) && step.next matches
                RequestModel::SendAll { fd, bytes } && fd == ctx.data_fd && le32(bytes, 8) == 1
                && le32(bytes, 12) == encode_utf8(text).len() && bytes.skip(28) == encode_utf8(text)
        }),
        t.phase is Forwarding && ctx.fallback ==> ({
            let turn = t.resumed(a, ctx, TickReplyModel::Text(Some(text)));
            turn.tick == t && turn.anland == a && turn.ctx == ctx && turn.action is FetchText
        }),
        t.phase is Forwarding ==> ({
            let turn = t.resumed(a, ctx, TickReplyModel::Text(None));
            turn.tick.phase is Asking && turn.ctx == ctx && turn.action is AskClients
        }),
        t.phase is Sending && reply is Exchanged ==> ({
            let turn = t.resumed(a, ctx, reply);
            turn.tick.phase is Forwarding && turn.ctx == ctx && turn.action is FetchText
        }),
{
    if !ctx.fallback {
        law_text_is_sent_with_its_length(ctx, text);
    }
}

/// A lost consumer: the services let go of it if there are any, and then the daemon is asked for
/// another, with the message 9. When one came, everything starts over, and its cameras are asked
/// for if that is supported. Then input is polled for, as it is when none came.
pub proof fn law_a_lost_consumer(
    t: Tick,
    a: AnlandModel,
    ctx: CtxModel,
    code: i32,
    event: Option<InputEvent>,
    bytes: Seq<u8>,
    fds: Seq<i32>,
)
    ensures
        t.phase is Asking && ctx.fallback && a.services ==> ({
            let turn = t.resumed(a, ctx, TickReplyModel::Done);
            turn.action is Detach && turn.tick.phase is Detaching && turn.ctx == ctx
        }),
        ctx.fallback && (t.phase is Detaching || t.phase is Asking && !a.services) ==> ({
            let turn = t.resumed(a, ctx, TickReplyModel::Done);
            &&& turn.tick.phase is Reconnecting
            &&& begins_with(
                turn.action,
                RequestModel::SendAll { fd: ctx.ctrl_fd, bytes: words_bytes(seq![9u32, 0u32]) },
            )
        }),
        t.phase is Reconnecting && code == 0 ==> ({
            let turn = t.resumed(a, ctx, TickReplyModel::Exchanged { code, event, bytes, fds });
            &&& turn.anland == a.reconnected()
            &&& turn.tick.phase == (TickPhase::Recovering { request_cameras: a.services })
            &&& turn.action matches TickActionModel::Recover(plan) && plan.queue_redraw
                == t.has_output && (!ctx.fallback && a.services ==> plan.audio == Some(
                ctx.audio_fd,
            ))
        }),
        t.phase is Reconnecting && code != 0 && !ctx.fallback ==> ({
            let turn = t.resumed(a, ctx, TickReplyModel::Exchanged { code, event, bytes, fds });
            turn.anland == a && turn.tick.phase is Polling && polls(turn.action, ctx)
        }),
        t.phase == (TickPhase::Recovering { request_cameras: false }) && !ctx.fallback ==> polls(
            t.resumed(a, ctx, TickReplyModel::Done).action,
            ctx,
        ),
        t.phase == (TickPhase::Recovering { request_cameras: true }) && !ctx.fallback ==> ({
            let turn = t.resumed(a, ctx, TickReplyModel::Done);
            turn.action matches TickActionModel::Exchange(step) && step.next matches
                RequestModel::SendAll { fd, bytes } && fd == ctx.data_fd && le32(bytes, 8) == 2
                && le32(bytes, 12) == 1 && bytes.len() == 28
        }),
        t.phase is Requesting && !ctx.fallback ==> polls(
            t.resumed(a, ctx, TickReplyModel::Exchanged { code, event, bytes, fds }).action,
            ctx,
        ),
{
    law_headers_are_type_and_size(9, 0, Seq::empty());
    law_services_are_asked_for(1, None);
}

/// A consumer that is there: its signal is looked at. If it says that a frame was shown, the same
/// descriptor is read and the frame is completed; if not, input is polled for at once.
pub proof fn law_a_present_consumer(
    t: Tick,
    a: AnlandModel,
    ctx: CtxModel,
    result: i32,
    readable: bool,
    output: Option<RedrawState>,
    now_ns: u128,
)
    requires
        !ctx.fallback,
    ensures
        t.phase is Asking && ctx.buf_ready_efd >= 0 ==> ({
            let turn = t.resumed(a, ctx, TickReplyModel::Done);
            turn.action == TickActionModel::CheckBufferReady(ctx.buf_ready_efd)
                && turn.tick.phase is Checking && turn.ctx == ctx
        }),
        t.phase is Asking && ctx.buf_ready_efd < 0 ==> polls(
            t.resumed(a, ctx, TickReplyModel::Done).action,
            ctx,
        ),
        t.phase is Checking && ctx.buf_ready_efd >= 0 && result > 0 && readable ==> ({
            let turn = t.resumed(a, ctx, TickReplyModel::Looked { result, readable });
            turn.action == TickActionModel::DrainBufferReady(ctx.buf_ready_efd)
                && turn.tick.phase is Draining && turn.anland == a
        }),
        t.phase is Checking && (result <= 0 || !readable) ==> ({
            let turn = t.resumed(a, ctx, TickReplyModel::Looked { result, readable });
            polls(turn.action, ctx) && turn.anland == a
        }),
        t.phase is Draining ==> ({
            let turn = t.resumed(a, ctx, TickReplyModel::Drained { output, now_ns });
            &&& turn.anland.consumer_ready
            &&& output is Some ==> (turn.action matches TickActionModel::Show(plan)
                && plan.queue_redraw && plan.redraw is Idle && (a.pending_feedback
                ==> plan.presented == Some(a.frame_seq)))
            &&& output is None ==> polls(turn.action, ctx)
        }),
        t.phase is Showing ==> polls(t.resumed(a, ctx, TickReplyModel::Done).action, ctx),
{
}

/// An event that is handed on is the one that came, whether a payload came with it or not. A
/// payload is received with its length, within 100 ms; the descriptors of a service, up to nine,
/// within five seconds, and they are used as they came.
pub proof fn law_input_is_dealt_with(
    t: Tick,
    a: AnlandModel,
    ctx: CtxModel,
    e: InputEvent,
    bytes: Seq<u8>,
    fds: Seq<i32>,
    text: Seq<char>,
)
    requires
        !ctx.fallback,
        1 <= fds.len() <= 9,
    ensures
        t.phase is Polling ==> ({
            let turn = t.resumed(
                a,
                ctx,
                TickReplyModel::Exchanged { code: 1, event: Some(e), bytes, fds },
            );
            &&& e.type_ != 8 && e.type_ != 9 && e.type_ != 11 ==> turn.action
                == TickActionModel::Translate(e)
            &&& e.type_ == 8 && e.data.w0 == 0 ==> turn.action
                == TickActionModel::UpdateClipboard(ClipboardUpdateModel::Clear)
            &&& (e.type_ == 8 || e.type_ == 9) && e.data.w0 > 0 ==> {
                &&& begins_with(
                    turn.action,
                    RequestModel::Poll { fd: ctx.data_fd, timeout_ms: 100, watch_hangup: false },
                )
                &&& turn.ctx.phase == (Phase::DataPoll { size: e.data.w0 as usize })
                &&& turn.tick.phase matches TickPhase::ReadingPayload { event, clipboard, .. }
                    && event == e && clipboard == (e.type_ == 8)
            }
            &&& e.type_ == 11 && a.services ==> {
                &&& begins_with(
                    turn.action,
                    RequestModel::Poll { fd: ctx.data_fd, timeout_ms: 5000, watch_hangup: false },
                )
                &&& turn.ctx.phase == (Phase::FdsPoll { limit: 9 })
                &&& turn.tick.phase == (TickPhase::Receiving { service: e.data.w0 })
            }
            &&& turn.anland == a
        }),
        t.phase matches TickPhase::ReadingPayload { event, clipboard, .. } ==> ({
            let turn = t.resumed(
                a,
                ctx,
                TickReplyModel::Exchanged { code: 1, event: None, bytes: encode_utf8(text), fds },
            );
            &&& turn.tick.phase matches TickPhase::Updating { event: kept, .. } && kept == event
            &&& clipboard && text.len() > 0 ==> turn.action == TickActionModel::UpdateClipboard(
                ClipboardUpdateModel::Publish(text),
            )
            &&& clipboard && text.len() == 0 ==> turn.action == TickActionModel::UpdateClipboard(
                ClipboardUpdateModel::Clear,
            )
            &&& !clipboard ==> turn.action == TickActionModel::UpdateClipboard(
                ClipboardUpdateModel::Keep,
            )
        }),
        t.phase matches TickPhase::Updating { event, .. } ==> t.resumed(
            a,
            ctx,
            TickReplyModel::Done,
        ).action == TickActionModel::Translate(event),
        t.phase == (TickPhase::Receiving { service: 1 }) && fds.len() >= 2 ==> ({
            let turn = t.resumed(
                a,
                ctx,
                TickReplyModel::Exchanged { code: fds.len() as i32, event: None, bytes, fds },
            );
            turn.action matches TickActionModel::UseResources(
                ResourcePlanModel::Cameras { ctrl, streams },
            ) && seq![ctrl] + streams == fds
        }),
        t.phase matches TickPhase::Receiving { service } && (service != 1 || fds.len() == 1) ==> ({
            let turn = t.resumed(
                a,
                ctx,
                TickReplyModel::Exchanged { code: fds.len() as i32, event: None, bytes, fds },
            );
            turn.action == TickActionModel::UseResources(ResourcePlanModel::Close(fds))
        }),
{
    broadcast use {vstd::utf8::encode_utf8_valid_utf8, vstd::utf8::encode_utf8_decode_utf8};

    assert(fds.take(fds.len() as int) =~= fds);
    assert(seq![fds[0]] + fds.subrange(1, fds.len() as int) =~= fds);
}

/// New buffers are imported anew and drawn; after that, and after the descriptors of a service or
/// an event with nothing in it, the turn goes to its end: clients are told, and the next turn is
/// due after the active interval, or after half a second while the consumer is gone.
pub proof fn law_turns_end(
    t: Tick,
    a: AnlandModel,
    ctx: CtxModel,
    code: i32,
    event: Option<InputEvent>,
    bytes: Seq<u8>,
    fds: Seq<i32>,
)
    ensures
        t.phase is Polling && code == -2 ==> ({
            let turn = t.resumed(a, ctx, TickReplyModel::Exchanged { code, event, bytes, fds });
            &&& turn.action is Redraw
            &&& forall|i: int| 0 <= i < 8 ==> !#[trigger] turn.anland.imported[i]
            &&& forall|i: int| 0 <= i < 8 ==> #[trigger] turn.anland.rendered[i] == u64::MAX
            &&& turn.anland.frame_seq == a.frame_seq
        }),
        t.phase is Polling && code != 1 && code != -2 ==> t.resumed(
            a,
            ctx,
            TickReplyModel::Exchanged { code, event, bytes, fds },
        ).action is Flush,
        t.phase is Redrawing || t.phase is Delivering ==> t.resumed(
            a,
            ctx,
            TickReplyModel::Done,
        ).action is Flush,
        t.phase is Translating ==> t.resumed(
            a,
            ctx,
            TickReplyModel::Translated(false),
        ).action is Flush,
        t.phase matches TickPhase::Translating { plan } && (plan is Translate
            || plan is ClearClipboard || plan is ReadPayload) && !ctx.fallback ==> polls(
            t.resumed(a, ctx, TickReplyModel::Translated(true)).action,
            ctx,
        ),
        t.phase is Flushing && ctx.fallback && !a.disposed ==> t.resumed(
            a,
            ctx,
            TickReplyModel::Done,
        ).action == TickActionModel::Wait(500_000_000),
        t.phase is Flushing && !ctx.fallback ==> t.resumed(a, ctx, TickReplyModel::Done).action
            == TickActionModel::Wait(t.active_interval),
{
}

} // verus!
