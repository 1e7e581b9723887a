//! What holds of a camera's reader over whole runs.
//!
//! A run is a sequence of what comes back to a reader for its actions, with the worker emptying
//! the mailbox at any time in between.
use vstd::prelude::*;

use crate::camera::adopt::times_in;
use crate::camera::frame::{frame_bytes, known_format};
use crate::camera::mapping::{Mapping, SlotRead};
use crate::camera::reader::{
    rest_of, Checkpoint, FrameModel, ReaderAction, ReaderCommand, ReaderModel, ReaderPhase,
    StepModel,
};
use crate::camera::reader_laws::{held, is_release, law_descriptors_have_one_owner};
use crate::camera::wire::{StreamMessage, STREAM_READY};
use crate::poll::PollOutcome;

verus! {

/// Something that comes to a reader or its mailbox.
pub enum ReaderInput {
    Command(Option<ReaderCommand>),
    Sent(bool),
    Polled(PollOutcome),
    Woken(bool),
    Message(StreamMessage, Seq<i32>),
    /// There is no message for now.
    Again(Seq<i32>),
    /// No more messages can come.
    Lost,
    Size(Option<i64>),
    Data(Seq<u8>),
    /// Reading was interrupted, or failed.
    NoData { again: bool },
    Delivered,
    /// The worker empties the mailbox.
    Taken,
}

/// A frame that was read whole, and where it came from.
pub struct WholeFrame {
    pub frame: FrameModel,
    pub message: StreamMessage,
    /// How many frames were announced before it.
    pub earlier: nat,
    pub mapping: Mapping,
    pub read: SlotRead,
}

/// A reader after a run, and what it did.
pub struct ReaderRun {
    pub reader: ReaderModel,
    pub mailbox: Option<FrameModel>,
    /// All actions.
    pub actions: Seq<ReaderAction>,
    /// All descriptors that were closed.
    pub closed: Seq<i32>,
    /// The frames that were read whole.
    pub whole: Seq<WholeFrame>,
    /// The frames that were left in the mailbox.
    pub delivered: Seq<FrameModel>,
    /// Those among them that came since the mailbox was emptied, after what was in it at first.
    pub waiting: Seq<FrameModel>,
    /// How often the worker was told of a frame.
    pub told: nat,
    /// How often the worker found one.
    pub found: nat,
}

/// This can come while the reader awaits the outcome of its action.
pub open spec fn fits(phase: ReaderPhase, input: ReaderInput) -> bool {
    input is Taken || match phase {
        ReaderPhase::Commands(_) => input is Command,
        ReaderPhase::Requesting(_) => input is Sent,
        ReaderPhase::Polling => input is Polled,
        ReaderPhase::Waking => input is Woken,
        ReaderPhase::Receiving => input is Message || input is Again || input is Lost,
        ReaderPhase::Measuring { .. } => input is Size,
        ReaderPhase::Copying { .. } => input is Data || input is NoData,
        ReaderPhase::Releasing { .. } => input is Sent,
        ReaderPhase::Delivering { .. } => input is Delivered,
        ReaderPhase::Ended => false,
    }
}

/// What the reader does with what comes to it.
pub open spec fn answered(r: ReaderModel, input: ReaderInput) -> StepModel {
    match input {
        ReaderInput::Command(command) => r.after_command(r.phase->Commands_0, command),
        ReaderInput::Sent(ok) => r.after_sending(ok),
        ReaderInput::Polled(outcome) => r.after_poll(outcome),
        ReaderInput::Woken(stop) => r.checking(Checkpoint::AfterWake { stop }, Seq::empty()),
        ReaderInput::Message(message, fds) => r.after_message(message, fds),
        ReaderInput::Again(fds) => r.drained(fds),
        ReaderInput::Size(size) => r.after_size(size),
        ReaderInput::Data(data) => r.after_data(data),
        ReaderInput::NoData { again } => r.after_no_data(again),
        ReaderInput::Delivered => r.after_delivery(),
        ReaderInput::Lost | ReaderInput::Taken => r.ended(Seq::empty()),
    }
}

/// The bytes that come complete a frame.
pub open spec fn completes(r: ReaderModel, input: ReaderInput) -> bool {
    &&& r.phase matches ReaderPhase::Copying { read, .. }
    &&& input matches ReaderInput::Data(data) && data.len() > 0 && r.pixels.len() + data.len()
        == read.len
}

/// The frames that were announced.
pub open spec fn announced(inputs: Seq<ReaderInput>) -> Seq<StreamMessage>
    decreases inputs.len(),
{
    if inputs.len() == 0 {
        Seq::empty()
    } else {
        let before = announced(inputs.drop_last());
        match inputs.last() {
            ReaderInput::Message(message, _) if message.kind == STREAM_READY => before.push(
                message,
            ),
            _ => before,
        }
    }
}

/// The descriptors that came with this.
pub open spec fn descriptors(input: ReaderInput) -> Seq<i32> {
    match input {
        ReaderInput::Message(_, fds) => fds,
        ReaderInput::Again(fds) => fds,
        _ => Seq::empty(),
    }
}

/// The descriptors that came with messages.
pub open spec fn received(inputs: Seq<ReaderInput>) -> Seq<i32>
    decreases inputs.len(),
{
    if inputs.len() == 0 {
        Seq::empty()
    } else {
        received(inputs.drop_last()) + descriptors(inputs.last())
    }
}

/// The slots that were released.
pub open spec fn released(actions: Seq<ReaderAction>) -> Seq<u8>
    decreases actions.len(),
{
    if actions.len() == 0 {
        Seq::empty()
    } else {
        let before = released(actions.drop_last());
        match actions.last() {
            ReaderAction::SendStream { slot, .. } if is_release(actions.last()) => before.push(
                slot,
            ),
            _ => before,
        }
    }
}

/// How often the end was reported.
pub open spec fn reports(actions: Seq<ReaderAction>) -> nat
    decreases actions.len(),
{
    if actions.len() == 0 {
        0
    } else {
        reports(actions.drop_last()) + if actions.last() is ReportClosed {
            1nat
        } else {
            0
        }
    }
}

/// The slots of some messages.
pub open spec fn slots(messages: Seq<StreamMessage>) -> Seq<u8> {
    Seq::new(messages.len(), |i: int| messages[i].slot)
}

/// Some frames without where they came from.
pub open spec fn frames(whole: Seq<WholeFrame>) -> Seq<FrameModel> {
    Seq::new(whole.len(), |i: int| whole[i].frame)
}

impl ReaderRun {
    /// A reader at its start, with a mailbox that may still hold a frame.
    pub open spec fn new(generation: u64, mailbox: Option<FrameModel>) -> ReaderRun {
        ReaderRun {
            reader: ReaderModel::started(generation),
            mailbox,
            actions: seq![ReaderAction::TryCommand],
            closed: Seq::empty(),
            whole: Seq::empty(),
            delivered: Seq::empty(),
            waiting: match mailbox {
                Some(frame) => seq![frame],
                None => Seq::empty(),
            },
            told: 0,
            found: 0,
        }
    }

    /// The worker empties the mailbox.
    pub open spec fn taken(self) -> ReaderRun {
        ReaderRun {
            mailbox: None,
            waiting: Seq::empty(),
            found: self.found + if self.mailbox is Some {
                1nat
            } else {
                0
            },
            ..self
        }
    }

    /// The reader leaves a frame in the mailbox.
    pub open spec fn left(self, frame: FrameModel) -> ReaderRun {
        ReaderRun {
            mailbox: Some(frame),
            delivered: self.delivered.push(frame),
            waiting: self.waiting.push(frame),
            told: self.told + if self.mailbox is None {
                1nat
            } else {
                0
            },
            ..self
        }
    }

    /// What was read of the frame that is being copied is all of it.
    pub open spec fn completed(self, data: Seq<u8>, earlier: nat) -> ReaderRun {
        let message = self.reader.phase->Copying_message;
        let reader = ReaderModel { pixels: self.reader.pixels + data, ..self.reader };
        ReaderRun {
            whole: self.whole.push(
                WholeFrame {
                    frame: reader.delivered(message),
                    message,
                    earlier,
                    mapping: self.reader.mapping->0,
                    read: self.reader.phase->Copying_read,
                },
            ),
            ..self
        }
    }

    /// The run goes on. `count` frames were announced so far.
    pub open spec fn stepped(self, input: ReaderInput, count: nat) -> ReaderRun {
        if input is Taken {
            self.taken()
        } else {
            let run = if completes(self.reader, input) {
                self.completed(input->Data_0, (count - 1) as nat)
            } else if self.reader.phase is Delivering {
                self.left(self.reader.delivered(self.reader.phase->Delivering_message))
            } else {
                self
            };
            let step = answered(self.reader, input);
            ReaderRun {
                reader: step.reader,
                actions: self.actions.push(step.action),
                closed: self.closed + step.close,
                ..run
            }
        }
    }
}

/// A reader after all of this came to it.
pub open spec fn ran(
    generation: u64,
    mailbox: Option<FrameModel>,
    inputs: Seq<ReaderInput>,
) -> ReaderRun
    decreases inputs.len(),
{
    if inputs.len() == 0 {
        ReaderRun::new(generation, mailbox)
    } else {
        ran(generation, mailbox, inputs.drop_last()).stepped(
            inputs.last(),
            announced(inputs.drop_last()).len(),
        )
    }
}

/// All of this can come, in this order.
pub open spec fn is_run(
    generation: u64,
    mailbox: Option<FrameModel>,
    inputs: Seq<ReaderInput>,
) -> bool
    decreases inputs.len(),
{
    inputs.len() > 0 ==> {
        &&& is_run(generation, mailbox, inputs.drop_last())
        &&& fits(ran(generation, mailbox, inputs.drop_last()).reader.phase, inputs.last())
    }
}

/// A reader stays well-formed.
proof fn lemma_wf(r: ReaderModel, input: ReaderInput)
    requires
        r.wf(),
        fits(r.phase, input),
        input !is Taken,
    ensures
        answered(r, input).reader.wf(),
{
    if let ReaderInput::Message(message, _) = input {
        if let (Some(m), Some(bytes)) = (r.mapping, frame_bytes(message.a, message.b)) {
            crate::camera::mapping::law_slots_do_not_overlap(m, message.slot, bytes);
        }
    }
}

proof fn lemma_run_wf(generation: u64, mailbox: Option<FrameModel>, inputs: Seq<ReaderInput>)
    requires
        is_run(generation, mailbox, inputs),
    ensures
        ran(generation, mailbox, inputs).reader.wf(),
        ran(generation, mailbox, inputs).reader.generation == generation,
    decreases inputs.len(),
{
    if inputs.len() > 0 {
        lemma_run_wf(generation, mailbox, inputs.drop_last());
        if inputs.last() !is Taken {
            lemma_wf(ran(generation, mailbox, inputs.drop_last()).reader, inputs.last());
        }
    }
}

/// The slot of the frame that is being copied.
pub open spec fn outstanding(r: ReaderModel) -> Seq<u8> {
    match r.phase {
        ReaderPhase::Copying { message, .. } => seq![message.slot],
        _ => Seq::empty(),
    }
}

/// The frame that was read whole and is not in the mailbox yet.
pub open spec fn on_its_way(r: ReaderModel) -> Seq<FrameModel> {
    match r.phase {
        ReaderPhase::Releasing { message, copied: true } => seq![r.delivered(message)],
        ReaderPhase::Delivering { message } => seq![r.delivered(message)],
        _ => Seq::empty(),
    }
}

/// What is in a mailbox.
pub open spec fn content(mailbox: Option<FrameModel>) -> Seq<FrameModel> {
    match mailbox {
        Some(frame) => seq![frame],
        None => Seq::empty(),
    }
}

/// A camera gets back the slots that it announces: one for each frame, once each and in order,
/// with at most the last one outstanding, while its frame is copied. When the reader has ended,
/// none is outstanding.
pub proof fn law_slots_are_given_back_in_order(
    generation: u64,
    mailbox: Option<FrameModel>,
    inputs: Seq<ReaderInput>,
)
    requires
        is_run(generation, mailbox, inputs),
    ensures
        ({
            let run = ran(generation, mailbox, inputs);
            &&& slots(announced(inputs)) == released(run.actions) + outstanding(run.reader)
            &&& run.reader.phase is Ended ==> slots(announced(inputs)) == released(run.actions)
        }),
    decreases inputs.len(),
{
    let run = ran(generation, mailbox, inputs);
    if inputs.len() == 0 {
        reveal_with_fuel(released, 2);
        assert(slots(announced(inputs)) =~= released(run.actions));
    } else {
        law_slots_are_given_back_in_order(generation, mailbox, inputs.drop_last());
        let before = ran(generation, mailbox, inputs.drop_last());
        if inputs.last() !is Taken {
            assert(run.actions.drop_last() =~= before.actions);
        }
        assert(slots(announced(inputs)) =~= released(run.actions) + outstanding(run.reader));
    }
    assert(released(run.actions) + Seq::<u8>::empty() =~= released(run.actions));
}

/// A step that neither completes nor delivers a frame leaves the one that is on its way.
proof fn lemma_on_its_way(r: ReaderModel, input: ReaderInput)
    requires
        r.wf(),
        fits(r.phase, input),
        input !is Taken,
        !completes(r, input),
        r.phase !is Delivering,
    ensures
        on_its_way(answered(r, input).reader) == on_its_way(r),
{
}

proof fn lemma_delivery_goes_on(run: ReaderRun, input: ReaderInput, count: nat)
    requires
        run.reader.wf(),
        fits(run.reader.phase, input),
        frames(run.whole) == run.delivered + on_its_way(run.reader),
    ensures
        ({
            let after = run.stepped(input, count);
            frames(after.whole) == after.delivered + on_its_way(after.reader)
        }),
{
    let after = run.stepped(input, count);
    if input is Taken {
    } else if completes(run.reader, input) {
        let frame = after.whole.last().frame;
        assert(frames(after.whole) =~= frames(run.whole).push(frame));
        assert(on_its_way(run.reader) =~= Seq::empty());
        assert(on_its_way(after.reader) == seq![frame]);
        assert(frames(after.whole) =~= after.delivered + seq![frame]);
    } else if run.reader.phase is Delivering {
        assert(on_its_way(after.reader) =~= Seq::empty());
        assert(after.delivered =~= run.delivered + on_its_way(run.reader));
        assert(after.delivered + Seq::<FrameModel>::empty() =~= after.delivered);
    } else {
        lemma_on_its_way(run.reader, input);
    }
}

/// Every frame that was read whole is left for the worker, once and in order. At most the last one
/// is still on its way, while its slot is given back.
pub proof fn law_whole_frames_are_delivered_in_order(
    generation: u64,
    mailbox: Option<FrameModel>,
    inputs: Seq<ReaderInput>,
)
    requires
        is_run(generation, mailbox, inputs),
    ensures
        ({
            let run = ran(generation, mailbox, inputs);
            &&& frames(run.whole) == run.delivered + on_its_way(run.reader)
            &&& run.reader.phase is Ended ==> frames(run.whole) == run.delivered
        }),
    decreases inputs.len(),
{
    let run = ran(generation, mailbox, inputs);
    if inputs.len() > 0 {
        law_whole_frames_are_delivered_in_order(generation, mailbox, inputs.drop_last());
        lemma_run_wf(generation, mailbox, inputs.drop_last());
        lemma_delivery_goes_on(
            ran(generation, mailbox, inputs.drop_last()),
            inputs.last(),
            announced(inputs.drop_last()).len(),
        );
    } else {
        assert(frames(run.whole) =~= run.delivered + on_its_way(run.reader));
    }
    assert(run.delivered + Seq::<FrameModel>::empty() =~= run.delivered);
}

/// The mailbox holds the newest frame: what was left in it last, if it was not emptied since, and
/// else nothing.
pub proof fn law_the_mailbox_holds_the_newest_frame(
    generation: u64,
    mailbox: Option<FrameModel>,
    inputs: Seq<ReaderInput>,
)
    requires
        is_run(generation, mailbox, inputs),
    ensures
        ({
            let run = ran(generation, mailbox, inputs);
            let all = content(mailbox) + run.delivered;
            &&& run.waiting.len() <= all.len()
            &&& run.waiting == all.skip(all.len() - run.waiting.len())
            &&& run.mailbox == (if run.waiting.len() == 0 {
                None
            } else {
                Some(all.last())
            })
        }),
        inputs.len() > 0 && inputs.last() is Taken ==> ran(
            generation,
            mailbox,
            inputs,
        ).waiting.len() == 0,
    decreases inputs.len(),
{
    let run = ran(generation, mailbox, inputs);
    let all = content(mailbox) + run.delivered;
    if inputs.len() > 0 {
        law_the_mailbox_holds_the_newest_frame(generation, mailbox, inputs.drop_last());
        let before = ran(generation, mailbox, inputs.drop_last());
        if run.delivered.len() > before.delivered.len() {
            assert(all =~= (content(mailbox) + before.delivered).push(run.delivered.last()));
        }
    }
    assert(run.waiting =~= all.skip(all.len() - run.waiting.len()));
}

/// The worker is told of a frame exactly when the mailbox was empty before it. So it is told once
/// for each frame that it finds, and once for the one that waits for it, unless that was there
/// from the start.
pub proof fn law_the_worker_is_told_once(
    generation: u64,
    mailbox: Option<FrameModel>,
    inputs: Seq<ReaderInput>,
)
    requires
        is_run(generation, mailbox, inputs),
    ensures
        ({
            let run = ran(generation, mailbox, inputs);
            run.told + content(mailbox).len() == run.found + content(run.mailbox).len()
        }),
        inputs.len() > 0 ==> ({
            let before = ran(generation, mailbox, inputs.drop_last());
            let run = ran(generation, mailbox, inputs);
            run.told == before.told + if before.mailbox is None && run.mailbox is Some {
                1nat
            } else {
                0
            }
        }),
    decreases inputs.len(),
{
    if inputs.len() > 0 {
        law_the_worker_is_told_once(generation, mailbox, inputs.drop_last());
    }
}

/// A reader reports its end once, and that is the last thing that it does: then only the worker
/// can still empty the mailbox.
pub proof fn law_the_end_is_reported_once_and_last(
    generation: u64,
    mailbox: Option<FrameModel>,
    inputs: Seq<ReaderInput>,
    next: ReaderInput,
)
    requires
        is_run(generation, mailbox, inputs),
    ensures
        ({
            let run = ran(generation, mailbox, inputs);
            &&& reports(run.actions) == (if run.reader.phase is Ended {
                1nat
            } else {
                0
            })
            &&& run.reader.phase is Ended ==> {
                &&& run.actions.last() is ReportClosed
                &&& run.reader.mapping is None
                &&& is_run(generation, mailbox, inputs.push(next)) ==> next is Taken
            }
        }),
    decreases inputs.len(),
{
    let run = ran(generation, mailbox, inputs);
    assert(inputs.push(next).drop_last() =~= inputs);
    if inputs.len() == 0 {
        reveal_with_fuel(reports, 2);
    } else {
        law_the_end_is_reported_once_and_last(generation, mailbox, inputs.drop_last(), next);
        if inputs.last() !is Taken {
            let before = ran(generation, mailbox, inputs.drop_last());
            assert(run.actions.drop_last() =~= before.actions);
        }
    }
}

/// A frame that was read whole is one that was announced, in a format that the service has, from
/// the slot of its message, and marked as one of this reader.
pub open spec fn is_whole(w: WholeFrame, generation: u64, messages: Seq<StreamMessage>) -> bool {
    &&& w.earlier < messages.len()
    &&& messages[w.earlier as int] == w.message
    &&& w.frame.stream_generation == generation
    &&& w.frame.width == w.message.a
    &&& w.frame.height == w.message.b
    &&& w.frame.format == w.message.format
    &&& known_format(w.frame.format)
    &&& w.frame.pixels.len() == w.read.len
    &&& frame_bytes(w.frame.width, w.frame.height) == Some(w.read.len)
    &&& w.mapping.wf()
    &&& w.mapping.slot(w.message.slot, w.read.len) == Some(w.read)
}

/// Reads give what the memory holds: `memory(n)` is the content of the memory from the time that
/// the frame after `n` others is announced until its slot is given back.
pub open spec fn reads_are_exact(
    generation: u64,
    mailbox: Option<FrameModel>,
    inputs: Seq<ReaderInput>,
    memory: spec_fn(nat) -> Seq<u8>,
) -> bool
    decreases inputs.len(),
{
    inputs.len() > 0 ==> {
        let r = ran(generation, mailbox, inputs.drop_last()).reader;
        &&& reads_are_exact(generation, mailbox, inputs.drop_last(), memory)
        &&& (r.phase matches ReaderPhase::Copying { read, .. } && inputs.last() matches
            ReaderInput::Data(data) ==> ({
            let file = memory((announced(inputs.drop_last()).len() - 1) as nat);
            let asked = rest_of(read, r.pixels.len());
            &&& asked.offset + data.len() <= file.len()
            &&& data == file.subrange(asked.offset as int, asked.offset + data.len())
        }))
    }
}

/// What is known of a frame that is being copied.
spec fn copying_well(run: ReaderRun, messages: Seq<StreamMessage>) -> bool {
    run.reader.phase matches ReaderPhase::Copying { message, read } ==> {
        &&& messages.len() > 0
        &&& messages.last() == message
        &&& run.reader.mapping matches Some(m) && m.wf() && m.slot(message.slot, read.len) == Some(
            read,
        )
        &&& forall|i: int|
            0 <= i < run.whole.len() ==> (#[trigger] run.whole[i]).earlier < messages.len() - 1
    }
}

/// Each frame that was read whole is the frame of one announcement, and none is read twice: they
/// are read in the order in which they were announced.
pub proof fn law_whole_frames_were_announced(
    generation: u64,
    mailbox: Option<FrameModel>,
    inputs: Seq<ReaderInput>,
)
    requires
        is_run(generation, mailbox, inputs),
    ensures
        ({
            let run = ran(generation, mailbox, inputs);
            &&& forall|i: int|
                0 <= i < run.whole.len() ==> is_whole(
                    #[trigger] run.whole[i],
                    generation,
                    announced(inputs),
                )
            &&& forall|i: int, j: int|
                0 <= i < j < run.whole.len() ==> (#[trigger] run.whole[i]).earlier < (
                #[trigger] run.whole[j]).earlier
        }),
{
    lemma_whole(generation, mailbox, inputs);
}

proof fn lemma_whole(generation: u64, mailbox: Option<FrameModel>, inputs: Seq<ReaderInput>)
    requires
        is_run(generation, mailbox, inputs),
    ensures
        ({
            let run = ran(generation, mailbox, inputs);
            &&& copying_well(run, announced(inputs))
            &&& forall|i: int|
                0 <= i < run.whole.len() ==> is_whole(
                    #[trigger] run.whole[i],
                    generation,
                    announced(inputs),
                )
            &&& forall|i: int, j: int|
                0 <= i < j < run.whole.len() ==> (#[trigger] run.whole[i]).earlier < (
                #[trigger] run.whole[j]).earlier
        }),
    decreases inputs.len(),
{
    if inputs.len() > 0 {
        lemma_whole(generation, mailbox, inputs.drop_last());
        lemma_run_wf(generation, mailbox, inputs.drop_last());
    }
}

/// A frame that is delivered holds, byte for byte, what its slot held when it was announced, in
/// however many pieces it was read.
pub proof fn law_whole_frames_are_what_the_slot_held(
    generation: u64,
    mailbox: Option<FrameModel>,
    inputs: Seq<ReaderInput>,
    memory: spec_fn(nat) -> Seq<u8>,
)
    requires
        is_run(generation, mailbox, inputs),
        reads_are_exact(generation, mailbox, inputs, memory),
    ensures
        ({
            let run = ran(generation, mailbox, inputs);
            forall|i: int|
                0 <= i < run.whole.len() ==> ({
                    let w = #[trigger] run.whole[i];
                    &&& w.read.offset + w.read.len <= memory(w.earlier).len()
                    &&& w.frame.pixels == memory(w.earlier).subrange(
                        w.read.offset as int,
                        w.read.offset + w.read.len,
                    )
                })
        }),
{
    lemma_exact(generation, mailbox, inputs, memory);
}

/// What was copied so far of a frame is the beginning of it.
spec fn copying_exactly(r: ReaderModel, file: Seq<u8>) -> bool {
    r.phase matches ReaderPhase::Copying { read, .. } ==> {
        &&& r.pixels.len() > 0 ==> read.offset + r.pixels.len() <= file.len()
        &&& r.pixels == (if r.pixels.len() > 0 {
            file.subrange(read.offset as int, read.offset + r.pixels.len())
        } else {
            Seq::empty()
        })
    }
}

proof fn lemma_exact(
    generation: u64,
    mailbox: Option<FrameModel>,
    inputs: Seq<ReaderInput>,
    memory: spec_fn(nat) -> Seq<u8>,
)
    requires
        is_run(generation, mailbox, inputs),
        reads_are_exact(generation, mailbox, inputs, memory),
    ensures
        ({
            let run = ran(generation, mailbox, inputs);
            &&& copying_exactly(run.reader, memory((announced(inputs).len() - 1) as nat))
            &&& forall|i: int|
                0 <= i < run.whole.len() ==> ({
                    let w = #[trigger] run.whole[i];
                    &&& w.read.offset + w.read.len <= memory(w.earlier).len()
                    &&& w.frame.pixels == memory(w.earlier).subrange(
                        w.read.offset as int,
                        w.read.offset + w.read.len,
                    )
                })
        }),
    decreases inputs.len(),
{
    if inputs.len() > 0 {
        lemma_exact(generation, mailbox, inputs.drop_last(), memory);
        lemma_run_wf(generation, mailbox, inputs.drop_last());
        let r = ran(generation, mailbox, inputs.drop_last()).reader;
        let file = memory((announced(inputs.drop_last()).len() - 1) as nat);
        if let (ReaderPhase::Copying { read, .. }, ReaderInput::Data(data)) = (
            r.phase,
            inputs.last(),
        ) {
            assert(r.pixels + data =~= file.subrange(
                read.offset as int,
                read.offset + (r.pixels.len() + data.len()),
            ));
        }
    }
}

proof fn lemma_times_in_both(a: Seq<i32>, b: Seq<i32>, fd: i32)
    ensures
        times_in(a + b, fd) == times_in(a, fd) + times_in(b, fd),
    decreases b.len(),
{
    if b.len() == 0 {
        assert(a + b =~= a);
    } else {
        lemma_times_in_both(a, b.drop_last(), fd);
        assert((a + b).drop_last() =~= a + b.drop_last());
    }
}

/// What a step is handed is held by the reader after it, or closed.
proof fn lemma_one_owner(r: ReaderModel, input: ReaderInput, fd: i32)
    requires
        r.wf(),
        fits(r.phase, input),
        input !is Taken,
    ensures
        ({
            let step = answered(r, input);
            held(r, fd) + times_in(descriptors(input), fd) == held(step.reader, fd) + times_in(
                step.close,
                fd,
            )
        }),
{
    let message = match input {
        ReaderInput::Message(message, _) => message,
        _ => StreamMessage { kind: 0, slot: 0, format: 0, a: 0, b: 0 },
    };
    let size = match input {
        ReaderInput::Size(size) => size,
        _ => None,
    };
    law_descriptors_have_one_owner(r, message, descriptors(input), size, fd);
    assert(times_in(Seq::empty(), fd) == 0);
}

/// Each descriptor that comes to a reader is closed as often as it came, once the reader has
/// ended. Before that, the one that the reader still holds is the difference.
pub proof fn law_every_descriptor_is_closed_once(
    generation: u64,
    mailbox: Option<FrameModel>,
    inputs: Seq<ReaderInput>,
    fd: i32,
)
    requires
        is_run(generation, mailbox, inputs),
    ensures
        ({
            let run = ran(generation, mailbox, inputs);
            &&& times_in(received(inputs), fd) == times_in(run.closed, fd) + held(run.reader, fd)
            &&& run.reader.phase is Ended ==> times_in(received(inputs), fd) == times_in(
                run.closed,
                fd,
            )
        }),
    decreases inputs.len(),
{
    if inputs.len() > 0 {
        let before = ran(generation, mailbox, inputs.drop_last());
        law_every_descriptor_is_closed_once(generation, mailbox, inputs.drop_last(), fd);
        law_the_end_is_reported_once_and_last(generation, mailbox, inputs, inputs.last());
        lemma_run_wf(generation, mailbox, inputs.drop_last());
        lemma_times_in_both(received(inputs.drop_last()), descriptors(inputs.last()), fd);
        if inputs.last() !is Taken {
            lemma_one_owner(before.reader, inputs.last(), fd);
            lemma_times_in_both(before.closed, answered(before.reader, inputs.last()).close, fd);
        } else {
            assert(times_in(descriptors(inputs.last()), fd) == 0);
        }
    }
}

} // verus!
