//! What holds of the audio worker over whole exchanges.
use vstd::prelude::*;

use crate::audio::datagram::FormatAnnouncement;
use crate::audio::ring::Captured;
use crate::audio::worker::{
    announced, Action, After, Awaiting, Command, Turn, WorkerEvent, WorkerState,
};
use crate::counter::following;

verus! {

/// Nothing follows this action.
pub open spec fn is_last(action: Action) -> bool {
    action is Done || action is Acknowledge
}

/// How many actions can still follow, at most.
pub open spec fn actions_left(worker: WorkerState) -> nat {
    match worker.awaiting {
        Awaiting::Nothing => 0,
        Awaiting::Ending { .. } => 1,
        Awaiting::UpdatingLatency(_) => 1,
        Awaiting::Spawning(_) => 2,
        Awaiting::Creating { .. } => 2,
        Awaiting::Closing(_) => 3,
        Awaiting::Connecting { .. } => 3,
        Awaiting::Detaching(_) => 4,
        Awaiting::Rebuilding { .. } => 4,
        Awaiting::UpdatingFormat(_) => 5,
    }
}

/// Where a turn leads when the actions go as `outcomes` says; what it does not cover fails.
pub open spec fn settled(turn: Turn, outcomes: Seq<bool>) -> Turn
    decreases actions_left(turn.worker),
{
    if turn.worker.awaiting is Nothing {
        turn
    } else {
        settled(
            turn.worker.resumed(turn.buffer, outcomes.len() > 0 && outcomes[0]),
            outcomes.skip(1),
        )
    }
}

/// A turn that the worker takes while nothing is under way.
pub open spec fn begun(worker: WorkerState, b: Captured, turn: Turn) -> bool {
    ||| exists|command: Command| turn == #[trigger] worker.commanded(b, command)
    ||| exists|event: WorkerEvent| turn == #[trigger] worker.notified(b, event)
    ||| exists|acknowledge: bool| turn == #[trigger] worker.maintained(b, acknowledge)
    ||| turn == worker.shut_down(b)
}

/// Every exchange ends: each outcome that is handed back leaves fewer actions to come, and the
/// last action is the one after which nothing is awaited.
pub proof fn law_exchanges_end(worker: WorkerState, b: Captured, ok: bool)
    requires
        worker.wf(),
    ensures
        !(worker.awaiting is Nothing) ==> actions_left(worker.resumed(b, ok).worker)
            < actions_left(worker),
        is_last(worker.resumed(b, ok).action) <==> worker.resumed(b, ok).worker.awaiting is Nothing,
{
}

/// The bytes of the ring are always cut into frames as the capture stream's format says.
pub proof fn law_frames_match_the_capture_format(
    worker: WorkerState,
    b: Captured,
    turn: Turn,
    ok: bool,
)
    requires
        worker.wf(),
        worker.matches_frames(b),
        turn == worker.resumed(b, ok) || (worker.awaiting is Nothing && begun(worker, b, turn)),
    ensures
        turn.worker.wf(),
        turn.worker.matches_frames(turn.buffer),
{
}

/// A change of the capture format forgets the samples in the old one: whatever changes the size
/// of the frames leaves no sample behind.
pub proof fn law_old_samples_do_not_outlive_their_format(
    worker: WorkerState,
    b: Captured,
    turn: Turn,
    ok: bool,
)
    requires
        worker.wf(),
        worker.matches_frames(b),
        turn == worker.resumed(b, ok) || (worker.awaiting is Nothing && begun(worker, b, turn)),
    ensures
        turn.buffer == b || turn.buffer.held.len() == 0,
        turn.buffer.stride != b.stride ==> turn.buffer.held.len() == 0,
        worker.capture_format.differs(turn.worker.capture_format) ==> turn.buffer.held.len() == 0,
{
}

/// How often `fd` is in the worker's hands.
pub open spec fn held(worker: WorkerState, fd: i32) -> nat {
    (if worker.socket == Some(fd) {
        1nat
    } else {
        0
    }) + (match worker.awaiting {
        Awaiting::Detaching(After::Attach(s)) | Awaiting::Closing(After::Attach(s))
        | Awaiting::Spawning(s) => if s == fd {
            1nat
        } else {
            0
        },
        _ => 0,
    })
}

/// How often the action closes `fd`.
pub open spec fn closes(action: Action, fd: i32) -> nat {
    if action == Action::Close(fd) {
        1
    } else {
        0
    }
}

/// How often the command brings `fd`.
pub open spec fn brings(command: Command, fd: i32) -> nat {
    if command == Command::SetSocket(Some(fd)) {
        1
    } else {
        0
    }
}

/// Each socket that the worker is given has one owner: it stays in the worker's hands until it
/// is closed, and it is closed once.
pub proof fn law_sockets_have_one_owner(worker: WorkerState, b: Captured, ok: bool, fd: i32)
    requires
        worker.wf(),
    ensures
        ({
            let turn = worker.resumed(b, ok);
            held(worker, fd) == held(turn.worker, fd) + closes(turn.action, fd)
        }),
        worker.awaiting is Nothing ==> forall|command: Command| ({
            let turn = #[trigger] worker.commanded(b, command);
            held(worker, fd) + brings(command, fd) == held(turn.worker, fd) + closes(
                turn.action,
                fd,
            )
        }),
        worker.awaiting is Nothing ==> forall|event: WorkerEvent| ({
            let turn = #[trigger] worker.notified(b, event);
            held(worker, fd) == held(turn.worker, fd) + closes(turn.action, fd)
        }),
        worker.awaiting is Nothing ==> forall|acknowledge: bool| ({
            let turn = #[trigger] worker.maintained(b, acknowledge);
            held(worker, fd) == held(turn.worker, fd) + closes(turn.action, fd)
        }),
        worker.awaiting is Nothing ==> ({
            let turn = worker.shut_down(b);
            held(worker, fd) == held(turn.worker, fd) + closes(turn.action, fd)
        }),
{
}

/// Stopping leaves nothing behind, however the actions go: no reader, no socket, no stream, no
/// connection, no sample. The worker stays stopped from the start of it.
pub proof fn law_shutdown_releases_everything(
    worker: WorkerState,
    b: Captured,
    outcomes: Seq<bool>,
)
    requires
        worker.wf(),
        worker.awaiting is Nothing,
        !worker.stopping,
    ensures
        ({
            let end = settled(worker.shut_down(b), outcomes);
            &&& end.worker.stopping
            &&& !end.worker.reader
            &&& end.worker.socket is None
            &&& !end.worker.streams
            &&& !end.worker.core
            &&& end.buffer.held.len() == 0
            &&& end.action is Done
        }),
{
    reveal_with_fuel(settled, 5);
}

/// A worker that is stopped stays as it is: events and the timer change nothing, a second
/// shutdown does nothing, and a socket that still comes is only closed.
pub proof fn law_a_stopped_worker_stays_so(worker: WorkerState, b: Captured, event: WorkerEvent)
    requires
        worker.wf(),
        worker.awaiting is Nothing,
        worker.stopping,
    ensures
        worker.notified(b, event) == (Turn { worker, buffer: b, action: Action::Done }),
        worker.maintained(b, false) == (Turn { worker, buffer: b, action: Action::Done }),
        worker.shut_down(b) == (Turn { worker, buffer: b, action: Action::Done }),
        worker.commanded(b, Command::Shutdown) == (Turn {
            worker,
            buffer: b,
            action: Action::Done,
        }),
        forall|socket: Option<i32>|
            settled(#[trigger] worker.commanded(b, Command::SetSocket(socket)), Seq::empty()).worker
                == worker,
{
    reveal_with_fuel(settled, 3);
}

/// Attaching a socket detaches the one before it, forgets its samples and, where the reader
/// starts, leaves the new one in use. Where it does not start, no socket is in use.
pub proof fn law_attaching_replaces_the_socket(
    worker: WorkerState,
    b: Captured,
    socket: i32,
    outcomes: Seq<bool>,
)
    requires
        worker.wf(),
        worker.awaiting is Nothing,
        !worker.stopping,
    ensures
        ({
            let end = settled(worker.commanded(b, Command::SetSocket(Some(socket))), outcomes);
            &&& end.worker.socket == Some(socket) && end.worker.reader || end.worker.socket is None
                && !end.worker.reader
            &&& end.buffer.held.len() == 0
            &&& end.worker.socket_generation == following(worker.socket_generation)
        }),
        ({
            let end = settled(
                worker.commanded(b, Command::SetSocket(Some(socket))),
                seq![true, true, true],
            );
            end.worker.socket == Some(socket) && end.worker.reader
        }),
        ({
            let end = settled(worker.commanded(b, Command::SetSocket(None)), outcomes);
            end.worker.socket is None && !end.worker.reader && end.buffer.held.len() == 0
        }),
{
    reveal_with_fuel(settled, 6);
}

/// What a reader or a connection still sends after it was replaced is ignored.
pub proof fn law_late_events_are_ignored(worker: WorkerState, b: Captured, after: After, ok: bool)
    requires
        worker.wf(),
    ensures
        ({
            let now = worker.detaching(b, after).worker;
            let was = worker.socket_generation;
            &&& !now.concerns(WorkerEvent::ReaderClosed(was))
            &&& forall|format: FormatAnnouncement| !now.concerns(
                #[trigger] worker_format(was, format),
            )
        }),
        !worker.core && !worker.stopping ==> !worker.maintained(b, ok).worker.concerns(
            WorkerEvent::PipeWireBroken(worker.core_generation),
        ),
{
}

/// The event of an announcement.
pub open spec fn worker_format(socket_generation: u64, format: FormatAnnouncement) -> WorkerEvent {
    WorkerEvent::Format { socket_generation, format }
}

/// Whenever the server can be reached, the worker ends up with streams in the formats that were
/// last announced, also after the connection was lost.
pub proof fn law_streams_come_back_as_wanted(worker: WorkerState, b: Captured, acknowledge: bool)
    requires
        worker.wf(),
        worker.awaiting is Nothing,
        !worker.stopping,
    ensures
        ({
            let end = settled(worker.rebuilt(b, acknowledge), seq![true, true, true]);
            &&& end.worker.core && end.worker.streams
            &&& end.worker.playback_format == worker.desired_playback_format
            &&& end.worker.capture_format == worker.desired_capture_format
        }),
        !worker.streams ==> ({
            let end = settled(worker.maintained(b, acknowledge), seq![true, true]);
            &&& end.worker.core && end.worker.streams
            &&& end.worker.playback_format == worker.desired_playback_format
            &&& end.worker.capture_format == worker.desired_capture_format
        }),
{
    reveal_with_fuel(settled, 5);
    let t0 = worker.rebuilt(b, acknowledge);
    let o = seq![true, true, true];
    assert(o.skip(1)[0] && o.skip(1).skip(1)[0]);
    let p = seq![true, true];
    assert(p.skip(1)[0]);
}

/// An announcement that streams can have takes effect where the streams take it: it is the
/// format of the stream, and what a new stream would get.
pub proof fn law_announcements_take_effect(
    worker: WorkerState,
    b: Captured,
    format: FormatAnnouncement,
)
    requires
        worker.wf(),
        worker.awaiting is Nothing,
        !worker.stopping,
        announced(format, worker.max_channels) is Some,
    ensures
        ({
            let (playback, next) = announced(format, worker.max_channels)->0;
            let end = settled(worker.applied(b, format), seq![true, true]);
            &&& end.action is Acknowledge
            &&& if playback {
                end.worker.playback_format == next && end.worker.desired_playback_format == next
            } else {
                end.worker.capture_format == next && end.worker.desired_capture_format == next
            }
        }),
{
    reveal_with_fuel(settled, 4);
    let p = seq![true, true];
    assert(p.skip(1)[0]);
}

/// The reader that waits for its announcement is always let go on, whatever goes wrong.
pub proof fn law_announcements_are_acknowledged(
    worker: WorkerState,
    b: Captured,
    format: FormatAnnouncement,
    outcomes: Seq<bool>,
)
    requires
        worker.wf(),
        worker.awaiting is Nothing,
    ensures
        settled(worker.applied(b, format), outcomes).action is Acknowledge,
{
    reveal_with_fuel(settled, 7);
}

} // verus!
