//! What holds of a camera's reader over whole exchanges.
use vstd::prelude::*;

use crate::camera::adopt::times_in;
use crate::camera::frame::{frame_bytes, known_format};
use crate::camera::reader::{
    rest_of, Checkpoint, ReaderAction, ReaderCommand, ReaderModel, ReaderPhase, StepModel,
};
use crate::camera::wire::{StreamMessage, STREAM_DONE, STREAM_GET_SHM, STREAM_READY};
use crate::poll::PollOutcome;

verus! {

/// The message whose slot is not released yet.
pub open spec fn unreleased(r: ReaderModel) -> Option<StreamMessage> {
    match r.phase {
        ReaderPhase::Copying { message, .. } => Some(message),
        _ => None,
    }
}

/// The slot of this message is released by this step.
pub open spec fn releases(step: StepModel, message: StreamMessage) -> bool {
    &&& step.action == (ReaderAction::SendStream { kind: STREAM_DONE, slot: message.slot })
    &&& step.reader.phase matches ReaderPhase::Releasing { message: m, .. } && m == message
}

/// Every frame that is announced is answered by the release of its slot, whether the frame could
/// be read or not: a message that cannot be read is answered at once, another one when reading
/// ends, however it ends. Nothing else is done before that.
pub proof fn law_every_slot_is_released(
    r: ReaderModel,
    message: StreamMessage,
    fds: Seq<i32>,
    data: Seq<u8>,
    again: bool,
)
    requires
        r.wf(),
    ensures
        message.kind == STREAM_READY ==> ({
            let step = r.after_message(message, fds);
            releases(step, message) || unreleased(step.reader) == Some(message)
        }),
        unreleased(r) == Some(message) ==> ({
            let step = r.after_data(data);
            releases(step, message) || unreleased(step.reader) == Some(message)
                && step.reader.pixels.len() > r.pixels.len()
        }),
        unreleased(r) == Some(message) ==> ({
            let step = r.after_no_data(again);
            if again {
                unreleased(step.reader) == Some(message)
            } else {
                releases(step, message)
            }
        }),
{
}

/// The action releases a slot.
pub open spec fn is_release(action: ReaderAction) -> bool {
    action matches ReaderAction::SendStream { kind, .. } && kind == STREAM_DONE
}

/// A slot is released once for each frame that is announced, and at no other time: no command, no
/// call, no offer of memory and no other message releases one, nor does what follows a release.
pub proof fn law_only_announced_slots_are_released(
    r: ReaderModel,
    at: Checkpoint,
    command: Option<ReaderCommand>,
    ok: bool,
    outcome: PollOutcome,
    message: StreamMessage,
    fds: Seq<i32>,
    size: Option<i64>,
)
    ensures
        !is_release(r.after_command(at, command).action),
        !is_release(r.after_sending(ok).action),
        !is_release(r.after_poll(outcome).action),
        !is_release(r.after_size(size).action),
        !is_release(r.drained(fds).action),
        message.kind != STREAM_READY ==> !is_release(r.after_message(message, fds).action),
{
}

/// What is delivered is what the memory holds, byte for byte: where each read gives the bytes that
/// it asks for, or some of them from the start, the copy stays the beginning of the frame and ends
/// as all of it.
pub proof fn law_frames_are_copied_exactly(r: ReaderModel, file: Seq<u8>, n: nat)
    requires
        r.wf(),
        r.phase is Copying,
        ({
            let read = r.phase->Copying_read;
            &&& read.offset + read.len <= file.len()
            &&& r.pixels == file.subrange(read.offset as int, read.offset + r.pixels.len())
            &&& 0 < n <= read.len - r.pixels.len()
        }),
    ensures
        ({
            let message = r.phase->Copying_message;
            let read = r.phase->Copying_read;
            let asked = rest_of(read, r.pixels.len());
            let step = r.after_data(
                file.subrange(asked.offset as int, asked.offset + n),
            );
            let done = step.reader.pixels;
            &&& done == file.subrange(read.offset as int, read.offset + done.len())
            &&& if r.pixels.len() + n < read.len {
                step.reader.phase == r.phase && step.action == ReaderAction::Read(
                    rest_of(read, done.len()),
                )
            } else {
                &&& step.reader.phase == (ReaderPhase::Releasing { message, copied: true })
                &&& done == file.subrange(read.offset as int, read.offset + read.len)
            }
        }),
{
    let read = r.phase->Copying_read;
    let asked = rest_of(read, r.pixels.len());
    let data = file.subrange(asked.offset as int, asked.offset + n);
    assert(r.pixels + data =~= file.subrange(
        read.offset as int,
        read.offset + (r.pixels.len() + n),
    ));
}

/// How often the reader owns `fd`.
pub open spec fn held(r: ReaderModel, fd: i32) -> nat {
    (match r.mapping {
        Some(m) => if m.fd == fd {
            1nat
        } else {
            0
        },
        None => 0,
    }) + (match r.phase {
        ReaderPhase::Measuring { fd: f, .. } => if f == fd {
            1nat
        } else {
            0
        },
        _ => 0,
    })
}

proof fn lemma_count_skip_first(fds: Seq<i32>, fd: i32)
    requires
        fds.len() > 0,
    ensures
        times_in(fds, fd) == times_in(fds.skip(1), fd) + if fds[0] == fd {
            1nat
        } else {
            0
        },
    decreases fds.len(),
{
    if fds.len() == 1 {
        assert(fds.drop_last() =~= Seq::empty());
        assert(fds.skip(1) =~= Seq::empty());
    } else {
        lemma_count_skip_first(fds.drop_last(), fd);
        assert(fds.drop_last().skip(1) =~= fds.skip(1).drop_last());
    }
}

/// Each descriptor that comes with a message has one owner: it is closed in the same step, or it
/// is the memory that is read from until that is replaced or the reader ends, and then closed.
pub proof fn law_descriptors_have_one_owner(
    r: ReaderModel,
    message: StreamMessage,
    fds: Seq<i32>,
    size: Option<i64>,
    fd: i32,
)
    requires
        r.wf(),
    ensures
        r.phase is Receiving ==> ({
            let step = r.after_message(message, fds);
            held(r, fd) + times_in(fds, fd) == held(step.reader, fd) + times_in(step.close, fd)
        }),
        r.phase is Receiving ==> ({
            let step = r.drained(fds);
            held(r, fd) + times_in(fds, fd) == held(step.reader, fd) + times_in(step.close, fd)
        }),
        r.phase is Measuring ==> ({
            let step = r.after_size(size);
            held(r, fd) == held(step.reader, fd) + times_in(step.close, fd)
        }),
        !(r.phase is Measuring) ==> ({
            let step = r.ended(Seq::empty());
            held(r, fd) == times_in(step.close, fd) && held(step.reader, fd) == 0
        }),
{
    if fds.len() > 0 {
        lemma_count_skip_first(fds, fd);
    }
    let none = Seq::<i32>::empty();
    assert(times_in(none, fd) == 0);
    assert forall|f: i32| times_in(#[trigger] fds.push(f), fd) == times_in(fds, fd) + if f == fd {
        1nat
    } else {
        0
    } by {
        assert(fds.push(f).drop_last() =~= fds);
    }
    assert forall|f: i32| times_in(#[trigger] none.push(f), fd) == if f == fd {
        1nat
    } else {
        0
    } by {
        assert(none.push(f).drop_last() =~= none);
    }
    assert forall|f: i32| times_in(#[trigger] seq![f], fd) == if f == fd {
        1nat
    } else {
        0
    } by {
        assert(seq![f].drop_last() =~= none);
    }
    if r.mapping is Some {
        let _ = fds.push(r.mapping->0.fd);
        let _ = none.push(r.mapping->0.fd);
        let _ = seq![r.mapping->0.fd];
    }
}

/// Memory is asked for only while it is wanted, and not again before there was an answer: after
/// a request that went out, further requests send nothing until memory is offered or a frame
/// cannot be read.
pub proof fn law_memory_is_asked_for_once(r: ReaderModel, at: Checkpoint, ok: bool)
    requires
        r.wf(),
    ensures
        ({
            let step = r.after_command(at, Some(ReaderCommand::RequestShm));
            step.action == (ReaderAction::SendStream { kind: STREAM_GET_SHM, slot: 0 }) <==> (
            r.needs_shm && !r.shm_requested)
        }),
        r.phase == ReaderPhase::Requesting(at) && ok ==> ({
            let after = r.after_sending(ok).reader;
            after.after_command(at, Some(ReaderCommand::RequestShm)).action
                == ReaderAction::TryCommand
        }),
{
}

/// A reader that is told to stop ends, and lets its memory go.
pub proof fn law_a_reader_told_to_stop_ends(r: ReaderModel, at: Checkpoint)
    ensures
        ({
            let step = r.after_command(at, Some(ReaderCommand::Stop));
            &&& step.action is ReportClosed
            &&& step.reader.mapping is None
            &&& r.mapping matches Some(m) ==> step.close == seq![m.fd]
        }),
{
    let none = Seq::<i32>::empty();
    if let Some(m) = r.mapping {
        assert(none.push(m.fd) =~= seq![m.fd]);
    }
}

/// A frame that is delivered is whole, in a format that the service has, and marked as one of
/// this reader.
pub proof fn law_delivered_frames_are_whole(r: ReaderModel)
    requires
        r.wf(),
        r.phase is Delivering,
    ensures
        ({
            let frame = r.delivered(r.phase->Delivering_message);
            &&& frame_bytes(frame.width, frame.height) matches Some(bytes) && bytes
                == frame.pixels.len()
            &&& known_format(frame.format)
            &&& frame.stream_generation == r.generation
        }),
{
    crate::camera::frame::law_frames_are_bounded(
        r.phase->Delivering_message.a,
        r.phase->Delivering_message.b,
    );
}

} // verus!
