//! What holds of whole turns of the poll timer.
use vstd::prelude::*;

use crate::backend::anland::{more_input, signal_fd, AnlandModel};
use crate::backend::clock::FALLBACK_POLL_INTERVAL_NS;
use crate::backend::tick::{
    event_of, is_signal, Tick, TickActionModel, TickPhase, TickReplyModel, TickTurn,
};
use crate::ffi::model::CtxModel;

verus! {

/// A reply to an action of a turn, and the context when it came.
pub struct TickInput {
    pub ctx: CtxModel,
    pub reply: TickReplyModel,
}

/// Something that happens in a turn.
pub enum Happening {
    /// A consumer is looked for.
    Reconnect,
    /// A consumer was found.
    Found,
    /// Everything starts over with a new consumer.
    Recover,
    /// The signal of the consumer is looked at.
    Look,
    /// The signal says that a frame was shown.
    Signal,
    /// The signal is read.
    Drain,
    /// The frame that was shown is completed.
    Complete,
    /// An input event is polled for.
    Poll,
    /// There was something in an event that was handed on.
    Translated,
}

/// The reply is one to what the turn waits for.
pub open spec fn fits(phase: TickPhase, reply: TickReplyModel) -> bool {
    match phase {
        TickPhase::Forwarding => reply is Text,
        TickPhase::Sending
        | TickPhase::Reconnecting
        | TickPhase::Requesting
        | TickPhase::Polling
        | TickPhase::ReadingPayload { .. }
        | TickPhase::Receiving { .. } => reply is Exchanged,
        TickPhase::Checking => reply is Looked,
        TickPhase::Draining => reply is Drained,
        TickPhase::Translating { .. } => reply is Translated,
        TickPhase::Ended => false,
        _ => reply is Done,
    }
}

/// What the turn makes of one reply.
pub open spec fn stepped(t: Tick, a: AnlandModel, input: TickInput) -> TickTurn {
    t.resumed(a, input.ctx, input.reply)
}

/// Nothing is said to the daemon or the consumer in this action. Clients that are told of what
/// changed may have frames drawn, which are handed over at once.
pub open spec fn keeps_context(action: TickActionModel) -> bool {
    !(action is Exchange || action is Flush || action is Wait)
}

/// The replies are those of a whole turn, up to its end. After an action that keeps the context,
/// the next reply finds it as the turn left it.
pub open spec fn finished(t: Tick, a: AnlandModel, inputs: Seq<TickInput>) -> bool
    decreases inputs.len(),
{
    if t.phase is Ended {
        inputs.len() == 0
    } else {
        &&& inputs.len() > 0
        &&& fits(t.phase, inputs[0].reply)
        &&& keeps_context(stepped(t, a, inputs[0]).action) ==> inputs.len() > 1 && inputs[1].ctx
            == stepped(t, a, inputs[0]).ctx
        &&& finished(
            stepped(t, a, inputs[0]).tick,
            stepped(t, a, inputs[0]).anland,
            inputs.drop_first(),
        )
    }
}

/// It happens when the reply comes.
pub open spec fn happens(what: Happening, t: Tick, a: AnlandModel, input: TickInput) -> bool {
    let after = stepped(t, a, input).tick.phase;
    match what {
        Happening::Reconnect => after is Reconnecting,
        Happening::Found => t.phase is Reconnecting && (input.reply matches
            TickReplyModel::Exchanged { code, .. } && code == 0),
        Happening::Recover => after is Recovering,
        Happening::Look => after is Checking,
        Happening::Signal => t.phase is Checking && (input.reply matches TickReplyModel::Looked {
            result,
            readable,
        } && is_signal(result, readable)),
        Happening::Drain => after is Draining,
        Happening::Complete => t.phase is Draining && input.reply is Drained,
        Happening::Poll => after is Polling,
        Happening::Translated => t.phase matches TickPhase::Translating { plan } && (
        input.reply matches TickReplyModel::Translated(translated) && more_input(
            plan,
            translated,
        )),
    }
}

/// How often it happens in a turn.
pub open spec fn times(what: Happening, t: Tick, a: AnlandModel, inputs: Seq<TickInput>) -> nat
    decreases inputs.len(),
{
    if inputs.len() == 0 {
        0
    } else {
        let next = stepped(t, a, inputs[0]);
        times(what, next.tick, next.anland, inputs.drop_first()) + (if happens(
            what,
            t,
            a,
            inputs[0],
        ) {
            1nat
        } else {
            0
        })
    }
}

/// The consumer is looked after, and the turn is with its input.
spec fn is_late(phase: TickPhase) -> bool {
    match phase {
        TickPhase::Polling
        | TickPhase::Redrawing
        | TickPhase::ReadingPayload { .. }
        | TickPhase::Updating { .. }
        | TickPhase::Translating { .. }
        | TickPhase::Receiving { .. }
        | TickPhase::Delivering { .. }
        | TickPhase::Flushing
        | TickPhase::Ended => true,
        _ => false,
    }
}

/// A turn that is with its input stays with it, and polls once for each event that it hands on.
proof fn lemma_late(t: Tick, a: AnlandModel, inputs: Seq<TickInput>)
    requires
        is_late(t.phase),
        finished(t, a, inputs),
    ensures
        times(Happening::Reconnect, t, a, inputs) == 0,
        times(Happening::Found, t, a, inputs) == 0,
        times(Happening::Recover, t, a, inputs) == 0,
        times(Happening::Look, t, a, inputs) == 0,
        times(Happening::Signal, t, a, inputs) == 0,
        times(Happening::Drain, t, a, inputs) == 0,
        times(Happening::Complete, t, a, inputs) == 0,
        times(Happening::Poll, t, a, inputs) == times(Happening::Translated, t, a, inputs),
    decreases inputs.len(),
{
    if t.phase !is Ended {
        let next = stepped(t, a, inputs[0]);
        lemma_late(next.tick, next.anland, inputs.drop_first());
    }
}

/// A turn whose consumer was looked after polls for input at least once, and looks for no
/// consumer again.
proof fn lemma_input_next(t: Tick, a: AnlandModel, inputs: Seq<TickInput>)
    requires
        t.phase is Recovering || t.phase is Requesting || t.phase is Showing,
        finished(t, a, inputs),
    ensures
        times(Happening::Reconnect, t, a, inputs) == 0,
        times(Happening::Found, t, a, inputs) == 0,
        times(Happening::Recover, t, a, inputs) == 0,
        times(Happening::Look, t, a, inputs) == 0,
        times(Happening::Signal, t, a, inputs) == 0,
        times(Happening::Drain, t, a, inputs) == 0,
        times(Happening::Complete, t, a, inputs) == 0,
        times(Happening::Poll, t, a, inputs) == 1 + times(Happening::Translated, t, a, inputs),
    decreases inputs.len(),
{
    let next = stepped(t, a, inputs[0]);
    if is_late(next.tick.phase) {
        lemma_late(next.tick, next.anland, inputs.drop_first());
    } else {
        lemma_input_next(next.tick, next.anland, inputs.drop_first());
    }
}

/// A turn that looks for a consumer.
proof fn lemma_reconnecting(t: Tick, a: AnlandModel, inputs: Seq<TickInput>)
    requires
        t.phase is Reconnecting,
        finished(t, a, inputs),
    ensures
        times(Happening::Reconnect, t, a, inputs) == 0,
        times(Happening::Recover, t, a, inputs) == times(Happening::Found, t, a, inputs),
        times(Happening::Found, t, a, inputs) <= 1,
        times(Happening::Look, t, a, inputs) == 0,
        times(Happening::Complete, t, a, inputs) == 0,
        times(Happening::Poll, t, a, inputs) == 1 + times(Happening::Translated, t, a, inputs),
{
    let next = stepped(t, a, inputs[0]);
    if is_late(next.tick.phase) {
        lemma_late(next.tick, next.anland, inputs.drop_first());
    } else {
        lemma_input_next(next.tick, next.anland, inputs.drop_first());
    }
}

/// What is left of the replies of a turn once text was forwarded.
pub open spec fn after_forwarding(t: Tick, a: AnlandModel, inputs: Seq<TickInput>) -> Seq<TickInput>
    decreases inputs.len(),
{
    if inputs.len() > 0 && (t.phase is Forwarding || t.phase is Sending) {
        let next = stepped(t, a, inputs[0]);
        after_forwarding(next.tick, next.anland, inputs.drop_first())
    } else {
        inputs
    }
}

/// Forwarding text is all that a turn does first: it goes on from there with the backend as it
/// was, and everything else happens as often as it does in the rest.
pub proof fn law_text_is_forwarded_first(
    what: Happening,
    t: Tick,
    a: AnlandModel,
    inputs: Seq<TickInput>,
)
    requires
        t.phase is Forwarding || t.phase is Sending,
        finished(t, a, inputs),
    ensures
        finished(t.at(TickPhase::Asking), a, after_forwarding(t, a, inputs)),
        times(what, t, a, inputs) == times(
            what,
            t.at(TickPhase::Asking),
            a,
            after_forwarding(t, a, inputs),
        ),
    decreases inputs.len(),
{
    let next = stepped(t, a, inputs[0]);
    let rest = inputs.drop_first();
    if next.tick.phase is Asking {
        assert(after_forwarding(next.tick, next.anland, rest) == rest);
    } else {
        law_text_is_forwarded_first(what, next.tick, next.anland, rest);
    }
}

/// While the consumer is gone, a turn looks for one exactly once. Everything starts over if and
/// only if one was found, and no signal is looked at.
///
/// The turn begins here once text was forwarded.
pub proof fn law_a_lost_consumer_is_looked_for_once(
    t: Tick,
    a: AnlandModel,
    inputs: Seq<TickInput>,
)
    requires
        t.phase is Asking,
        finished(t, a, inputs),
        inputs[0].ctx.fallback,
    ensures
        times(Happening::Reconnect, t, a, inputs) == 1,
        times(Happening::Recover, t, a, inputs) == times(Happening::Found, t, a, inputs),
        times(Happening::Found, t, a, inputs) <= 1,
        times(Happening::Look, t, a, inputs) == 0,
        times(Happening::Complete, t, a, inputs) == 0,
{
    reveal_with_fuel(finished, 4);
    reveal_with_fuel(times, 4);
    let next = stepped(t, a, inputs[0]);
    let rest = inputs.drop_first();
    if a.services {
        assert(rest[0] == inputs[1]);
        let after = stepped(next.tick, next.anland, rest[0]);
        lemma_reconnecting(after.tick, after.anland, rest.drop_first());
    } else {
        lemma_reconnecting(next.tick, next.anland, rest);
    }
}

/// While there is a consumer, a turn looks for none. Its signal, if it has one, is looked at
/// once. If and only if it says that a frame was shown it is read, and that frame is completed,
/// once.
///
/// The turn begins here once text was forwarded.
pub proof fn law_a_shown_frame_is_completed_once(t: Tick, a: AnlandModel, inputs: Seq<TickInput>)
    requires
        t.phase is Asking,
        finished(t, a, inputs),
        !inputs[0].ctx.fallback,
    ensures
        times(Happening::Reconnect, t, a, inputs) == 0,
        times(Happening::Recover, t, a, inputs) == 0,
        times(Happening::Look, t, a, inputs) == (if signal_fd(inputs[0].ctx) is Some {
            1nat
        } else {
            0
        }),
        times(Happening::Signal, t, a, inputs) <= times(Happening::Look, t, a, inputs),
        times(Happening::Drain, t, a, inputs) == times(Happening::Signal, t, a, inputs),
        times(Happening::Complete, t, a, inputs) == times(Happening::Signal, t, a, inputs),
{
    lemma_with_consumer(t, a, inputs);
}

proof fn lemma_with_consumer(t: Tick, a: AnlandModel, inputs: Seq<TickInput>)
    requires
        t.phase is Asking,
        finished(t, a, inputs),
        !inputs[0].ctx.fallback,
    ensures
        times(Happening::Reconnect, t, a, inputs) == 0,
        times(Happening::Recover, t, a, inputs) == 0,
        times(Happening::Look, t, a, inputs) == (if signal_fd(inputs[0].ctx) is Some {
            1nat
        } else {
            0
        }),
        times(Happening::Signal, t, a, inputs) == (if signal_fd(inputs[0].ctx) is Some && happens(
            Happening::Signal,
            t.at(TickPhase::Checking),
            a,
            inputs[1],
        ) {
            1nat
        } else {
            0
        }),
        times(Happening::Drain, t, a, inputs) == times(Happening::Signal, t, a, inputs),
        times(Happening::Complete, t, a, inputs) == times(Happening::Signal, t, a, inputs),
        times(Happening::Poll, t, a, inputs) == 1 + times(Happening::Translated, t, a, inputs),
{
    reveal_with_fuel(finished, 4);
    reveal_with_fuel(times, 4);
    let next = stepped(t, a, inputs[0]);
    let rest = inputs.drop_first();
    if signal_fd(inputs[0].ctx) is Some {
        assert(rest[0] == inputs[1]);
        let looked = stepped(next.tick, next.anland, rest[0]);
        let rest = rest.drop_first();
        if looked.tick.phase is Draining {
            let shown = stepped(looked.tick, looked.anland, rest[0]);
            if is_late(shown.tick.phase) {
                lemma_late(shown.tick, shown.anland, rest.drop_first());
            } else {
                lemma_input_next(shown.tick, shown.anland, rest.drop_first());
            }
        } else {
            lemma_late(looked.tick, looked.anland, rest);
        }
    } else {
        lemma_late(next.tick, next.anland, rest);
    }
}

/// All input that waits is taken: a turn polls for an event once, and again after each event that
/// was handed on and had something in it. It polls no further when there is no event, when the
/// buffers were replaced, and after the descriptors of a service.
///
/// The turn begins here once text was forwarded.
pub proof fn law_waiting_input_is_taken(t: Tick, a: AnlandModel, inputs: Seq<TickInput>)
    requires
        t.phase is Asking,
        finished(t, a, inputs),
    ensures
        times(Happening::Poll, t, a, inputs) == 1 + times(Happening::Translated, t, a, inputs),
{
    reveal_with_fuel(finished, 4);
    reveal_with_fuel(times, 4);
    if inputs[0].ctx.fallback {
        let next = stepped(t, a, inputs[0]);
        let rest = inputs.drop_first();
        if a.services {
            assert(rest[0] == inputs[1]);
            let after = stepped(next.tick, next.anland, rest[0]);
            lemma_reconnecting(after.tick, after.anland, rest.drop_first());
        } else {
            lemma_reconnecting(next.tick, next.anland, rest);
        }
    } else {
        lemma_with_consumer(t, a, inputs);
    }
}

/// A turn goes on to its end only when the input is taken: there is no event, or the last one is
/// one after which nothing more is polled for, or there was nothing in it.
pub proof fn law_a_turn_ends_after_its_input(t: Tick, a: AnlandModel, input: TickInput)
    requires
        fits(t.phase, input.reply),
    ensures
        stepped(t, a, input).tick.phase is Flushing <==> (match (t.phase, input.reply) {
            (TickPhase::Polling, TickReplyModel::Exchanged { code, event, .. }) => a.input(
                code,
                event_of(event),
            ) is Nothing,
            (TickPhase::Redrawing, _) => true,
            (TickPhase::Delivering { .. }, _) => true,
            (TickPhase::Translating { plan }, TickReplyModel::Translated(translated))
                => !more_input(plan, translated),
            _ => false,
        }),
        stepped(t, a, input).tick.phase is Ended <==> t.phase is Flushing,
{
}

/// The time to the next turn is chosen last, by whether the consumer is gone then: a consumer that
/// came back in this turn is polled at its own pace at once.
pub proof fn law_the_interval_is_chosen_last(t: Tick, a: AnlandModel, input: TickInput)
    requires
        fits(t.phase, input.reply),
    ensures
        stepped(t, a, input).action is Wait <==> t.phase is Flushing,
        t.phase is Flushing ==> stepped(t, a, input).action == TickActionModel::Wait(
            if !a.disposed && input.ctx.fallback {
                FALLBACK_POLL_INTERVAL_NS
            } else {
                t.active_interval
            },
        ),
{
}

/// The descriptor of the signal holds how often it was raised since it was read. Looking at it
/// says whether that is more than never.
pub open spec fn looks(ctx: CtxModel, raised: nat) -> bool {
    signal_fd(ctx) is Some && raised > 0
}

/// How often it was raised once it is read: reading takes all of it.
pub open spec fn after_drain(ctx: CtxModel, raised: nat) -> nat {
    if signal_fd(ctx) is Some {
        0
    } else {
        raised
    }
}

/// A signal is answered once: it is seen if it was raised, and once it was read it is not seen
/// again before it is raised again. Without a consumer, or without a descriptor, none is seen.
pub proof fn law_a_signal_is_seen_once(ctx: CtxModel, raised: nat, again: nat)
    ensures
        looks(ctx, raised) == (!ctx.fallback && ctx.buf_ready_efd >= 0 && raised > 0),
        !looks(ctx, after_drain(ctx, raised)),
        signal_fd(ctx) is Some ==> looks(ctx, after_drain(ctx, raised) + again) == (again > 0),
{
}

/// Two turns complete one frame for one signal: the first one does if the signal was raised, and
/// the second does not unless it was raised again in between.
pub proof fn law_a_signal_completes_one_frame(
    first: Tick,
    a: AnlandModel,
    inputs: Seq<TickInput>,
    second: Tick,
    b: AnlandModel,
    later: Seq<TickInput>,
    raised: nat,
)
    requires
        first.phase is Asking && finished(first, a, inputs),
        second.phase is Asking && finished(second, b, later),
        signal_fd(inputs[0].ctx) is Some,
        signal_fd(later[0].ctx) is Some,
        inputs[1].reply matches TickReplyModel::Looked { result, readable } && is_signal(
            result,
            readable,
        ) == looks(inputs[1].ctx, raised),
        later[1].reply matches TickReplyModel::Looked { result, readable } && is_signal(
            result,
            readable,
        ) == looks(
            later[1].ctx,
            if times(Happening::Drain, first, a, inputs) > 0 {
                after_drain(inputs[1].ctx, raised)
            } else {
                raised
            },
        ),
    ensures
        times(Happening::Complete, first, a, inputs) == (if raised > 0 {
            1nat
        } else {
            0
        }),
        times(Happening::Complete, second, b, later) == 0,
{
    lemma_with_consumer(first, a, inputs);
    lemma_with_consumer(second, b, later);
}

} // verus!
