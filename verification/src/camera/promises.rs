//! What cameras are for, in terms of what comes in and what goes out.
use vstd::prelude::*;

use crate::camera::adopt::{adopted_at, adopted_between, adoption, handed_over, offered};
use crate::camera::frame::{frame_bytes, VideoFormat};
use crate::camera::mapping::SlotRead;
use crate::camera::model::{
    camera_count, close_one, close_streams, destroy_nodes, keep_nodes, named_size, node_events,
    open_cameras, resources_agenda, stop_readers, task_camera, Action, CommandModel, NodeState,
    ResourcesModel, Task, WorkerEvent, WorkerModel,
};
use crate::camera::node::{Agreed, DataModel, Negotiation, NodeOutput};
use crate::camera::reader::{
    Checkpoint, FrameModel, ReaderAction, ReaderCommand, ReaderModel, ReaderPhase,
};
use crate::camera::wire::StreamMessage;
use crate::camera::{all_descriptors, goes_to_worker, present};
use crate::poll::PollOutcome;

verus! {

/// A node shows the frame of its camera, byte for byte; without one it shows mid grey. What does
/// not have the size that was agreed on is not shown.
pub proof fn law_nodes_show_frames(data: DataModel, output: Seq<u8>, i: int)
    ensures
        frame_bytes(data.width, data.height) matches Some(bytes) ==> {
            let (told, shown) = data.processed(true, output);
            &&& output.len() >= bytes && data.live && data.have_frame && data.frame.len() == bytes
                ==> {
                &&& told == (NodeOutput::Frame { stride: data.width as i32, size: bytes as u32 })
                &&& 0 <= i < bytes ==> shown[i] == data.frame[i]
                &&& bytes <= i < output.len() ==> shown[i] == output[i]
                &&& shown.len() == output.len()
            }
            &&& output.len() >= bytes && (!data.live || !data.have_frame) ==> {
                &&& told == (NodeOutput::Frame { stride: data.width as i32, size: bytes as u32 })
                &&& 0 <= i < bytes ==> shown[i] == 128
                &&& bytes <= i < output.len() ==> shown[i] == output[i]
                &&& shown.len() == output.len()
            }
            &&& data.live && data.have_frame && data.frame.len() != bytes ==> told is Empty
                && shown == output
            &&& output.len() < bytes ==> told is Empty && shown == output
        },
        frame_bytes(data.width, data.height) is None ==> data.processed(true, output) == (
            NodeOutput::Empty,
            output,
        ),
        data.processed(false, output).1 == output,
        !(data.processed(false, output).0 is Frame),
{
}

/// What is agreed on for a node is the format and the size that it was told; where it was told no
/// width or height, its own stays. What is no raw video, or no frame of the service, is refused.
pub proof fn law_nodes_agree(data: DataModel, n: Negotiation)
    ensures
        n.raw_video && !(n.format is Other) && n.width > 0 && n.height > 0 && frame_bytes(
            n.width,
            n.height,
        ) is Some ==> (data.agreed(n) matches Some((w, h, f)) && w == n.width && h == n.height && (
        n.format == VideoFormat::I420 ==> f == 0) && (n.format == VideoFormat::NV12 ==> f == 1) && (
        n.format == VideoFormat::NV21 ==> f == 2)),
        n.width == 0 ==> data.agreed(n) == data.agreed(Negotiation { width: data.width, ..n }),
        n.height == 0 ==> data.agreed(n) == data.agreed(Negotiation { height: data.height, ..n }),
        !n.raw_video || n.format is Other ==> data.agreed(n) is None,
        n.width > 0 && n.height > 0 && frame_bytes(n.width, n.height) is None ==> data.agreed(n)
            is None,
{
}

/// The service is told to record a camera, by its number and in its size, when someone watches its
/// node, it has a stream, and the service was not told before; the reader asks for memory once it
/// was. When nobody watches any more, the service is told to stop.
pub proof fn law_watched_cameras_are_recorded(m: WorkerModel, i: usize, ctrl: i32)
    requires
        m.wf(),
        i < 8,
        m.ctrl == Some(ctrl),
    ensures
        ({
            let data = m.cameras[i as int].data;
            let told = data.recording && data.recording_generation == m.ctrl_generation;
            let (after, action) = m.done(Task::Reconcile(i), true);
            let (end, next) = after.done(after.agenda[0], true);
            let (same, nothing) = after.done(after.agenda[0], false);
            &&& data.streaming && data.live && !told && frame_bytes(data.width, data.height) is Some
                ==> {
                &&& action matches Action::StartRecord { ctrl: c, index, record_width, record_height }
                    && c == ctrl && index == i && record_width == data.width && record_height
                    == data.height
                &&& end.cameras[i as int].data.recording
                &&& end.cameras[i as int].data.recording_generation == m.ctrl_generation
                &&& m.cameras[i as int].reader ==> next == Action::RequestShm(i)
                &&& same.cameras[i as int].data.recording == data.recording
            }
            &&& data.streaming && data.live && told && m.cameras[i as int].reader ==> action
                == Action::RequestShm(i)
            &&& (!data.streaming || !data.live) && told ==> {
                &&& action matches Action::StopRecord { ctrl: c, index } && c == ctrl && index == i
                &&& !end.cameras[i as int].data.recording
                &&& next is Nothing
            }
            &&& (!data.streaming || !data.live) && !told ==> action is Nothing && after == m
        }),
{
    let data = m.cameras[i as int].data;
    crate::camera::frame::law_frames_are_bounded(data.width, data.height);
}

/// A camera that has no node yet gets one while there is a connection: in the size and the format
/// that are known of it, or 1280 by 720 where no size is, with the next number. Nobody watches it
/// yet.
pub proof fn law_cameras_get_nodes(m: WorkerModel, i: usize)
    requires
        m.wf(),
        i < m.active_cameras,
        m.core,
        !m.cameras[i as int].node,
    ensures
        ({
            let data = m.cameras[i as int].data;
            let (after, action) = m.done(Task::CreateNode(i), true);
            let (end, _) = after.done(after.agenda[0], true);
            let (failed, _) = after.done(after.agenda[0], false);
            &&& action matches Action::CreateNode { camera, generation, width, height, format } && {
                &&& camera == i && format == data.format
                &&& (generation - data.node_generation) % 0x1_0000_0000_0000_0000 == 1
                &&& data.width > 0 && data.height > 0 ==> width == data.width && height
                    == data.height
                &&& data.width == 0 || data.height == 0 ==> width == 1280 && height == 720
                &&& end.cameras[i as int].data.width == width
                &&& end.cameras[i as int].data.height == height
                &&& end.cameras[i as int].data.node_generation == generation
            }
            &&& end.cameras[i as int].node && !failed.cameras[i as int].node
            &&& !end.cameras[i as int].data.streaming
            &&& end.cameras[i as int].reader == m.cameras[i as int].reader
            &&& end.cameras[i as int].data.live == data.live
        }),
{
}

/// A stream is read for its camera, by a reader with the number of the stream; the one before it is
/// stopped and what it left is thrown away. A reader that cannot be started leaves the camera
/// without a stream.
pub proof fn law_streams_are_read_for_their_camera(m: WorkerModel, i: usize, fd: i32)
    requires
        m.wf(),
        i < 8,
    ensures
        ({
            let (attaching, _) = m.done(Task::AttachReader { camera: i, stream: Some(fd) }, true);
            &&& attaching.agenda.len() >= 2
            &&& attaching.agenda[0] == Task::StopReader(i)
            &&& attaching.agenda[1] == (Task::SpawnReader { camera: i, fd })
        }),
        ({
            let (stopped, action) = m.done(Task::StopReader(i), true);
            &&& m.cameras[i as int].reader ==> action == Action::StopReader(i)
            &&& stopped.agenda[0] == Task::ClearMailbox(i)
            &&& stopped.done(Task::ClearMailbox(i), true).1 == Action::ClearMailbox(i)
            &&& !stopped.cameras[i as int].reader && !stopped.cameras[i as int].data.live
            &&& !stopped.cameras[i as int].data.have_frame
            &&& (stopped.cameras[i as int].data.stream_generation
                - m.cameras[i as int].data.stream_generation) % 0x1_0000_0000_0000_0000 == 1
        }),
        ({
            let (spawning, action) = m.done(Task::SpawnReader { camera: i, fd }, true);
            let (end, _) = spawning.done(spawning.agenda[0], true);
            let (failed, _) = spawning.done(spawning.agenda[0], false);
            &&& action == (Action::SpawnReader {
                camera: i,
                generation: m.cameras[i as int].data.stream_generation,
                stream: fd,
            })
            &&& end.cameras[i as int].reader && end.cameras[i as int].data.live
            &&& !end.cameras[i as int].data.have_frame
            &&& !failed.cameras[i as int].data.live
            &&& spawning.agenda[1] == Task::Reconcile(i)
        }),
{
}

/// The size that the service names for a camera is taken if frames can have it and the camera has
/// no node.
pub proof fn law_named_sizes_are_taken(m: WorkerModel, i: usize, width: u32, height: u32)
    requires
        m.wf(),
        i < 8,
    ensures
        ({
            let (after, action) = m.done(Task::Resize { camera: i, width, height }, true);
            let data = after.cameras[i as int].data;
            &&& action is Nothing
            &&& !m.cameras[i as int].node && frame_bytes(width, height) is Some ==> data.width
                == width && data.height == height
            &&& m.cameras[i as int].node || frame_bytes(width, height) is None ==> after == m
        }),
{
}

/// A frame from the stream of its camera is what the camera has from then on: its size, its format
/// and all of its bytes. If the node has another size or format it is given those of the frame
/// first; if it does not take them, the frame is dropped and the node has failed.
pub proof fn law_frames_reach_their_camera(m: WorkerModel, i: usize, frame: FrameModel)
    requires
        m.wf(),
        !m.stopping,
        i < 8,
        frame_bytes(frame.width, frame.height) == Some(frame.pixels.len() as usize),
        frame.pixels.len() <= 64 * 1024 * 1024,
        frame.format <= 2,
        m.cameras[i as int].data.live,
        m.cameras[i as int].data.stream_generation == frame.stream_generation,
    ensures
        ({
            let data = m.cameras[i as int].data;
            let same = frame.width == data.width && frame.height == data.height && frame.format
                == data.format;
            let (after, action) = m.framed(i, frame);
            &&& same ==> action is Nothing && has_frame(after, i, frame) && after.agenda == m.agenda
            &&& !same && m.cameras[i as int].node ==> ({
                let (end, _) = after.stepped(true);
                let (failed, report) = after.stepped(false);
                &&& action == (Action::UpdateFormat {
                    camera: i,
                    width: frame.width,
                    height: frame.height,
                    format: frame.format,
                })
                &&& has_frame(end, i, frame)
                &&& report == (Action::ReportNodeFailed {
                    camera: i,
                    node_generation: data.node_generation,
                })
                &&& failed.cameras == m.cameras
            })
            &&& !same && !m.cameras[i as int].node ==> action is Nothing && after == m
        }),
{
    let (after, _) = m.framed(i, frame);
    if after.agenda.len() > m.agenda.len() {
        assert(after.agenda.skip(1) =~= m.agenda);
    }
}

/// The camera has this frame.
pub open spec fn has_frame(m: WorkerModel, i: usize, frame: FrameModel) -> bool {
    let data = m.cameras[i as int].data;
    &&& data.have_frame
    &&& data.frame == frame.pixels
    &&& data.width == frame.width
    &&& data.height == frame.height
    &&& data.format == frame.format
}

/// A frame that is not whole, is in no format of the service, or is from another stream than the
/// one that is read, is not taken.
pub proof fn law_other_frames_are_not_taken(m: WorkerModel, i: usize, frame: FrameModel)
    requires
        m.wf(),
        i >= 8 || frame.format > 2 || !m.cameras[i as int].data.live || m.cameras[i as
            int].data.stream_generation != frame.stream_generation || (frame_bytes(
            frame.width,
            frame.height,
        ) matches Some(bytes) ==> bytes != frame.pixels.len()),
    ensures
        m.framed(i, frame) == (m, Action::Nothing),
{
}

/// Whoever begins or ceases to watch a node is noted, and the service is told; so it is when a
/// reader ends, which leaves the camera without a stream. A node that failed goes.
pub proof fn law_events_are_noted(m: WorkerModel, i: usize, streaming: bool)
    requires
        m.wf(),
        !m.stopping,
        i < 8,
    ensures
        ({
            let data = m.cameras[i as int].data;
            let watched = m.notified(
                WorkerEvent::Streaming {
                    camera: i,
                    node_generation: data.node_generation,
                    streaming,
                },
            );
            let closed = m.notified(
                WorkerEvent::ReaderClosed {
                    camera: i,
                    stream_generation: data.stream_generation,
                },
            );
            let failed = m.notified(
                WorkerEvent::NodeFailed { camera: i, node_generation: data.node_generation },
            );
            &&& watched.cameras[i as int].data.streaming == streaming
            &&& data.streaming != streaming ==> watched.agenda == m.agenda.push(Task::Reconcile(i))
            &&& !closed.cameras[i as int].data.live && !closed.cameras[i as int].data.have_frame
            &&& closed.agenda == m.agenda.push(Task::Reconcile(i))
            &&& failed.agenda == m.agenda.push(Task::DestroyNode(i))
        }),
{
    assert(m.agenda + seq![Task::Reconcile(i)] =~= m.agenda.push(Task::Reconcile(i)));
    assert(m.agenda + seq![Task::DestroyNode(i)] =~= m.agenda.push(Task::DestroyNode(i)));
}

/// A node that goes is watched by nobody any more, and the service is told before it is taken back.
pub proof fn law_nodes_go(m: WorkerModel, i: usize)
    requires
        m.wf(),
        i < 8,
    ensures
        ({
            let (after, _) = m.done(Task::DestroyNode(i), true);
            let (end, action) = after.done(Task::DropNode(i), true);
            &&& !after.cameras[i as int].data.streaming
            &&& after.agenda[0] == Task::Reconcile(i) && after.agenda[1] == Task::DropNode(i)
            &&& (after.cameras[i as int].data.node_generation
                - m.cameras[i as int].data.node_generation) % 0x1_0000_0000_0000_0000 == 1
            &&& m.cameras[i as int].node ==> action == Action::DropNode(i)
            &&& !end.cameras[i as int].node
        }),
{
}

/// The task has a stream or a size for a camera, and it is that camera's own.
pub open spec fn own(task: Task, r: ResourcesModel) -> bool {
    match task {
        Task::AttachReader { camera, stream } => camera < r.streams.len() && stream
            == r.streams[camera as int],
        Task::Resize { camera, width, height } => if camera < r.initial_sizes.len() {
            (width, height) == r.initial_sizes[camera as int]
        } else {
            width == 0 && height == 0
        },
        _ => true,
    }
}

/// Each of these tasks has what belongs to its camera.
pub open spec fn all_own(tasks: Seq<Task>, r: ResourcesModel) -> bool {
    forall|k: int| 0 <= k < tasks.len() ==> own(#[trigger] tasks[k], r)
}

proof fn lemma_open_own(r: ResourcesModel, n: nat)
    requires
        n <= r.streams.len(),
        n <= 8,
    ensures
        all_own(open_cameras(r, n), r),
        open_cameras(r, n).len() == 3 * n,
        forall|i: int|
            0 <= i < n ==> {
                &&& (#[trigger] open_cameras(r, n)[3 * i]) matches Task::Resize { camera, .. }
                    && camera == i
                &&& open_cameras(r, n)[3 * i + 1] == Task::CreateNode(i as usize)
                &&& open_cameras(r, n)[3 * i + 2] matches Task::AttachReader { camera, .. }
                    && camera == i
            },
    decreases n,
{
    if n > 0 {
        lemma_open_own(r, (n - 1) as nat);
        let init = open_cameras(r, (n - 1) as nat);
        let i = (n - 1) as usize;
        let (width, height) = named_size(r.initial_sizes, i as int);
        let last = seq![
            Task::Resize { camera: i, width, height },
            Task::CreateNode(i),
            Task::AttachReader { camera: i, stream: r.streams[i as int] },
        ];
        assert(open_cameras(r, n) =~= init + last);
        assert forall|j: int| 0 <= j < n implies {
            &&& (#[trigger] open_cameras(r, n)[3 * j]) matches Task::Resize { camera, .. }
                && camera == j
            &&& open_cameras(r, n)[3 * j + 1] == Task::CreateNode(j as usize)
            &&& open_cameras(r, n)[3 * j + 2] matches Task::AttachReader { camera, .. } && camera
                == j
        } by {
            if j < n - 1 {
                assert(open_cameras(r, n)[3 * j] == init[3 * j]);
                assert(open_cameras(r, n)[3 * j + 1] == init[3 * j + 1]);
                assert(open_cameras(r, n)[3 * j + 2] == init[3 * j + 2]);
            }
        }
    }
}

/// With new resources, each camera takes its own size, gets its node and reads its own stream, in
/// this order, for as many cameras as there are streams, up to eight.
pub proof fn law_cameras_get_what_is_theirs(r: ResourcesModel, i: usize)
    requires
        i < r.streams.len(),
        i < 8,
    ensures
        ({
            let tasks = open_cameras(r, camera_count(r));
            let n = camera_count(r) as int;
            &&& n == if r.streams.len() < 8 {
                r.streams.len() as int
            } else {
                8
            }
            &&& tasks.len() == 3 * n
            &&& tasks[3 * i] matches Task::Resize { camera, width, height } && camera == i && (
            i < r.initial_sizes.len() ==> (width, height) == r.initial_sizes[i as int])
            &&& tasks[3 * i + 1] == Task::CreateNode(i)
            &&& tasks[3 * i + 2] == (Task::AttachReader {
                camera: i,
                stream: r.streams[i as int],
            })
        }),
{
    let n = camera_count(r);
    lemma_open_own(r, n);
    let tasks = open_cameras(r, n);
    assert(own(tasks[3 * i], r) && own(tasks[3 * i + 2], r));
}

proof fn lemma_stop_at(n: nat, i: int)
    requires
        0 <= i < n <= 8,
    ensures
        stop_readers(n).len() == 2 * n,
        stop_readers(n)[2 * i] == Task::StopReader(i as usize),
        stop_readers(n)[2 * i + 1] == Task::Reconcile(i as usize),
        keep_nodes(n).len() == 2 * n,
        keep_nodes(n)[2 * i] == Task::CreateNode(i as usize),
        keep_nodes(n)[2 * i + 1] == Task::Reconcile(i as usize),
    decreases n,
{
    lemma_stop_len(n);
    lemma_stop_len((n - 1) as nat);
    if i < n - 1 {
        lemma_stop_at((n - 1) as nat, i);
    }
}

proof fn lemma_stop_len(n: nat)
    ensures
        stop_readers(n).len() == 2 * n,
        keep_nodes(n).len() == 2 * n,
    decreases n,
{
    if n > 0 {
        lemma_stop_len((n - 1) as nat);
    }
}

proof fn lemma_destroy_at(from: nat, to: nat, i: int)
    requires
        from <= to <= 8,
    ensures
        destroy_nodes(from, to).len() == to - from,
        from <= i < to ==> destroy_nodes(from, to)[i - from] == Task::DestroyNode(i as usize),
    decreases to,
{
    if to > from {
        lemma_destroy_at(from, (to - 1) as nat, i);
    }
}

/// New resources stop the reader of every camera that there was, and tell the service, before the
/// control socket is replaced; then the nodes that are not wanted any more go, and only then do the
/// cameras begin.
pub proof fn law_resources_are_replaced_in_order(r: ResourcesModel, active: nat, i: int)
    requires
        active <= 8,
    ensures
        ({
            let tasks = resources_agenda(r, active);
            let n = camera_count(r) as int;
            let gone = if active > n {
                active - n
            } else {
                0
            };
            &&& 0 <= i < active ==> tasks[2 * i] == Task::StopReader(i as usize) && tasks[2 * i + 1]
                == Task::Reconcile(i as usize)
            &&& tasks[2 * active as int] == Task::SwapControl(r.ctrl)
            &&& n <= i < active ==> tasks[2 * active + 1 + i - n] == Task::DestroyNode(i as usize)
            &&& tasks[2 * active + 1 + gone] == Task::Activate(n as usize)
            &&& tasks.subrange(2 * active + 2 + gone, 2 * active + 2 + gone + 3 * n)
                == open_cameras(r, camera_count(r))
        }),
{
    let n = camera_count(r);
    lemma_stop_len(active);
    if 0 <= i < active {
        lemma_stop_at(active, i);
    }
    if n <= active {
        lemma_destroy_at(n, active, i);
    }
    lemma_open_own(r, n);
    let gone = if active > n {
        active - n
    } else {
        0
    };
    assert(destroy_nodes(n, active).len() == gone);
    let tasks = resources_agenda(r, active);
    assert(tasks.subrange(2 * active + 2 + gone, 2 * active + 2 + gone + 3 * n) =~= open_cameras(
        r,
        n,
    ));
}

/// While there is a connection, every camera that is there is given a node again and again, as long
/// as it has none; without one, a connection is made first, with the next number.
pub proof fn law_nodes_are_kept(m: WorkerModel, i: int)
    requires
        m.wf(),
        !m.stopping,
        m.agenda.len() == 0,
        0 <= i < m.active_cameras,
    ensures
        m.core ==> ({
            let tasks = m.maintained().agenda;
            tasks[2 * i] == Task::CreateNode(i as usize) && tasks[2 * i + 1] == Task::Reconcile(
                i as usize,
            )
        }),
        !m.core ==> ({
            let after = m.maintained();
            let (connecting, action) = after.stepped(true);
            let (connected, _) = connecting.stepped(true);
            let (failed, _) = connecting.stepped(false);
            &&& after.agenda[2 * i + 1] == Task::CreateNode(i as usize)
            &&& action matches Action::ConnectCore { generation } && (generation
                - m.core_generation) % 0x1_0000_0000_0000_0000 == 1
            &&& connected.core && !failed.core
        }),
{
    let n = m.active_cameras as nat;
    lemma_stop_at(n, i);
    if m.core {
        assert(m.maintained().agenda =~= keep_nodes(n));
    } else {
        let after = m.maintained();
        assert(after.agenda =~= seq![Task::Connect] + keep_nodes(n));
        assert(after.agenda[2 * i + 1] == keep_nodes(n)[2 * i]);
        let (connecting, _) = after.stepped(true);
        assert(connecting.agenda[0] == Task::Connected);
    }
}

/// The control socket that is replaced is closed, and messages to the old one do not count for the
/// new one.
pub proof fn law_control_sockets_are_replaced(m: WorkerModel, ctrl: Option<i32>, fd: i32)
    ensures
        ({
            let (after, action) = m.done(Task::SwapControl(ctrl), true);
            &&& after.ctrl == ctrl
            &&& (after.ctrl_generation - m.ctrl_generation) % 0x1_0000_0000_0000_0000 == 1
            &&& m.ctrl matches Some(old) ==> action == Action::Close(old)
            &&& m.ctrl is None ==> action is Nothing
            &&& after.cameras == m.cameras && after.agenda == m.agenda
        }),
        m.done(Task::Close(fd), true) == (m, Action::Close(fd)),
{
}

/// What still comes for a worker that has stopped is closed.
pub proof fn law_late_resources_are_closed(m: WorkerModel, r: ResourcesModel)
    requires
        m.stopping,
    ensures
        m.commanded(CommandModel::SetResources(r)).agenda == m.agenda + (close_one(r.ctrl)
            + close_streams(r.streams, 0, r.streams.len())),
        r.ctrl matches Some(fd) ==> close_one(r.ctrl) == seq![Task::Close(fd)],
        r.ctrl is None ==> close_one(r.ctrl).len() == 0,
{
}

/// A frame that a camera announces is read from its slot, if it lies in the memory: the first slot
/// is the beginning of the memory, the second what follows it.
pub proof fn law_announced_frames_are_read(r: ReaderModel, message: StreamMessage, fds: Seq<i32>)
    requires
        r.wf(),
        r.phase is Receiving,
        message.kind == 3,
        message.slot < 2,
        message.format <= 2,
        r.mapping is Some,
        frame_bytes(message.a, message.b) matches Some(bytes) && bytes
            <= r.mapping->0.slot_bytes,
    ensures
        ({
            let bytes = frame_bytes(message.a, message.b)->0;
            let step = r.after_message(message, fds);
            let m = r.mapping->0;
            &&& step.action matches ReaderAction::Read(read) && read.fd == m.fd && read.len == bytes
                && (message.slot == 0 ==> read.offset == 0) && (message.slot == 1 ==> read.offset
                == m.slot_bytes)
            &&& step.close == fds
            &&& step.reader.pixels.len() == 0
            &&& step.reader.mapping == r.mapping
        }),
{
    crate::camera::frame::law_frames_are_bounded(message.a, message.b);
}

/// A frame that was read whole is delivered, once its slot is given back: with the size and the
/// format that were announced, and all that was read.
pub proof fn law_whole_frames_are_delivered(
    r: ReaderModel,
    message: StreamMessage,
    read: SlotRead,
    data: Seq<u8>,
    sent: bool,
)
    requires
        r.wf(),
        r.phase == (ReaderPhase::Copying { message, read }),
        r.pixels.len() + data.len() == read.len,
        data.len() > 0,
    ensures
        ({
            let giving = r.after_data(data);
            let delivering = giving.reader.after_sending(sent);
            &&& giving.action == (ReaderAction::SendStream { kind: 4, slot: message.slot })
            &&& delivering.action is Deliver
            &&& delivering.reader.phase == (ReaderPhase::Delivering { message })
            &&& ({
                let frame = delivering.reader.delivered(message);
                &&& frame.pixels == r.pixels + data
                &&& frame.width == message.a && frame.height == message.b
                &&& frame.format == message.format
                &&& frame.stream_generation == r.generation
            })
            &&& delivering.reader.after_delivery().action is TryCommand
        }),
{
}

/// Memory that is offered is used from then on in place of the old, which is closed, if it is large
/// enough; if not, or if none came with the offer, some is asked for again.
pub proof fn law_offered_memory_is_used(
    r: ReaderModel,
    message: StreamMessage,
    fds: Seq<i32>,
    size: Option<i64>,
)
    requires
        r.wf(),
        r.phase is Receiving,
        message.kind == 2,
    ensures
        fds.len() == 0 ==> ({
            let step = r.after_message(message, fds);
            step.reader.needs_shm && !step.reader.shm_requested && step.reader.mapping == r.mapping
        }),
        fds.len() > 0 ==> ({
            let asking = r.after_message(message, fds);
            let end = asking.reader.after_size(size);
            &&& asking.action == ReaderAction::GetSize(fds[0]) && asking.close == fds.skip(1)
            &&& 0 < message.a <= 64 * 1024 * 1024 && (size matches Some(s) && s >= 2 * message.a)
                ==> {
                &&& end.reader.mapping matches Some(m) && m.fd == fds[0] && m.slot_bytes == message.a
                &&& !end.reader.needs_shm
                &&& r.mapping matches Some(old) ==> end.close == seq![old.fd]
            }
            &&& message.a == 0 || (size matches Some(s) ==> s < 2 * message.a) ==> {
                &&& end.reader.mapping == r.mapping && end.reader.needs_shm
                &&& !end.reader.shm_requested && end.close == seq![fds[0]]
            }
        }),
{
}

/// A reader waits, and takes in what came in batches of 32 messages, with a look at its commands
/// after each. When the other side is gone it takes in what is left first.
pub proof fn law_readers_take_in_what_comes(
    r: ReaderModel,
    wake: bool,
    input: bool,
    hangup: bool,
)
    requires
        r.wf(),
    ensures
        r.after_command(Checkpoint::BeforePoll, None).action is Poll,
        ({
            let step = r.after_poll(PollOutcome::Ready { wake: false, input, hangup });
            &&& input ==> step.action is Receive && step.reader.batch == 32
            &&& !input && !hangup ==> step.action is TryCommand
            &&& !input && hangup ==> step.action is ReportClosed
        }),
        r.after_poll(PollOutcome::Ready { wake: true, input, hangup }).action is DrainWake,
        r.after_poll(PollOutcome::Interrupted).action is TryCommand,
        r.after_poll(PollOutcome::Failed).action is ReportClosed,
        r.input ==> r.after_command(Checkpoint::AfterWake { stop: false }, None).action is Receive,
        r.after_command(Checkpoint::AfterWake { stop: true }, None).action is ReportClosed,
        r.batch > 1 ==> ({
            let step = r.after_command(Checkpoint::AfterMessage, None);
            step.action is Receive && step.reader.batch == r.batch - 1
        }),
        r.batch <= 1 && r.hangup ==> r.after_command(Checkpoint::AfterMessage, None).action
            is ReportClosed,
        r.batch <= 1 && !r.hangup ==> r.after_command(Checkpoint::AfterMessage, None).action
            is TryCommand,
{
}

/// A reader that is told to asks for memory with the message 1, if it needs some and has not asked
/// yet. A frame that could not be read makes it need some.
pub proof fn law_readers_ask_for_memory(
    r: ReaderModel,
    at: Checkpoint,
    message: StreamMessage,
    ok: bool,
)
    requires
        r.wf(),
    ensures
        r.needs_shm && !r.shm_requested ==> r.after_command(
            at,
            Some(ReaderCommand::RequestShm),
        ).action == (ReaderAction::SendStream { kind: 1, slot: 0 }),
        !r.needs_shm || r.shm_requested ==> r.after_command(
            at,
            Some(ReaderCommand::RequestShm),
        ).action is TryCommand,
        r.phase == ReaderPhase::Requesting(at) ==> r.after_sending(ok).reader.shm_requested == ok,
        r.phase == (ReaderPhase::Releasing { message, copied: false }) ==> ({
            let step = r.after_sending(ok);
            step.reader.needs_shm && !step.reader.shm_requested && step.action is TryCommand
        }),
{
}

/// Descriptors that are some and differ keep their places: the control socket is the control
/// socket, and each stream is that of its camera.
pub proof fn law_descriptors_keep_their_places(
    ctrl_fd: i32,
    stream_fds: Seq<i32>,
    num_cameras: i32,
    i: int,
)
    requires
        0 <= num_cameras <= stream_fds.len(),
        ctrl_fd >= 0,
        forall|k: int| 0 <= k < num_cameras ==> #[trigger] stream_fds[k] >= 0 && stream_fds[k]
            != ctrl_fd,
        forall|j: int, k: int|
            0 <= j < k < num_cameras ==> #[trigger] stream_fds[j] != #[trigger] stream_fds[k],
        0 <= i < num_cameras,
    ensures
        ({
            let all = handed_over(ctrl_fd, stream_fds, num_cameras);
            &&& offered(num_cameras) == num_cameras
            &&& all.len() == num_cameras + 1
            &&& adopted_at(all, 0) == Some(ctrl_fd)
            &&& adopted_at(all, i + 1) == Some(stream_fds[i])
            &&& num_cameras > 8 ==> adopted_between(all, 9, all.len() as int)
                == stream_fds.subrange(8, num_cameras as int)
        }),
{
    let all = handed_over(ctrl_fd, stream_fds, num_cameras);
    assert(all.take(0) =~= Seq::empty());
    lemma_place(all, i + 1);
    if num_cameras > 8 {
        lemma_rest(all, 9, all.len() as int);
        assert(all.subrange(9, all.len() as int) =~= stream_fds.subrange(8, num_cameras as int));
    }
}

proof fn lemma_place(all: Seq<i32>, i: int)
    requires
        0 <= i < all.len(),
        all[i] >= 0,
        forall|j: int| 0 <= j < i ==> all[j] != all[i],
    ensures
        adopted_at(all, i) == Some(all[i]),
{
    if all.take(i).contains(all[i]) {
        let k = choose|k: int| 0 <= k < i && all.take(i)[k] == all[i];
        assert(all[k] == all[i]);
    }
}

proof fn lemma_rest(all: Seq<i32>, from: int, to: int)
    requires
        0 <= from <= to <= all.len(),
        forall|k: int| 0 <= k < to ==> #[trigger] all[k] >= 0,
        forall|j: int, k: int| 0 <= j < k < to ==> #[trigger] all[j] != #[trigger] all[k],
    ensures
        adopted_between(all, from, to) == all.subrange(from, to),
    decreases to,
{
    if to > from {
        lemma_rest(all, from, to - 1);
        lemma_place(all, to - 1);
        assert(all.subrange(from, to) =~= all.subrange(from, to - 1).push(all[to - 1]));
    } else {
        assert(all.subrange(from, to) =~= Seq::empty());
    }
}

/// A descriptor that is none, or that came before, is not taken over.
pub proof fn law_other_descriptors_are_not_taken_over(all: Seq<i32>, i: int, j: int)
    requires
        0 <= i < all.len(),
        all[i] < 0 || 0 <= j < i && all[j] == all[i],
    ensures
        adopted_at(all, i) is None,
{
    if all[i] >= 0 {
        assert(all.take(i)[j] == all[i]);
    }
}

/// A node tells whether someone watches it, and whether it failed.
pub proof fn law_nodes_tell_their_state(camera: usize, node_generation: u64, state: NodeState)
    ensures
        ({
            let (first, second) = node_events(camera, node_generation, state);
            &&& first matches WorkerEvent::Streaming { camera: c, node_generation: g, streaming } && c
                == camera && g == node_generation && streaming == (state == NodeState::Streaming)
            &&& state == NodeState::Failed ==> second == Some(
                WorkerEvent::NodeFailed { camera, node_generation },
            )
            &&& state != NodeState::Failed ==> second is None
        }),
{
}

/// What was agreed on is what the camera has, once its buffers were asked for; nothing else
/// changes.
pub proof fn law_agreements_hold(data: DataModel, agreed: Agreed)
    ensures
        ({
            let after = data.negotiated(agreed, true);
            &&& after.width == agreed.width && after.height == agreed.height
            &&& after.format == agreed.format
            &&& after.frame == data.frame && after.have_frame == data.have_frame
            &&& after.live == data.live && after.streaming == data.streaming
            &&& after.recording == data.recording
            &&& after.stream_generation == data.stream_generation
            &&& after.node_generation == data.node_generation
        }),
        data.negotiated(agreed, false) == data,
{
}

/// Nothing is known of a camera at first: it has no size, no stream and no frame, and counts as
/// NV21.
pub proof fn law_cameras_begin()
    ensures
        ({
            let data = DataModel::unknown();
            &&& data.width == 0 && data.height == 0 && data.format == 2
            &&& !data.streaming && !data.recording && !data.live && !data.have_frame
            &&& data.stream_generation == 0 && data.node_generation == 0
        }),
{
}

/// What was taken over goes to the worker if there is one and the request was not refused, and is
/// closed otherwise: all streams that there are, in order, and the control socket.
pub proof fn law_taken_over_descriptors_go_somewhere(
    started: i32,
    running: bool,
    ctrl: i32,
    streams: Seq<i32>,
    sizes: Seq<(u32, u32)>,
)
    ensures
        goes_to_worker(false, 0, true),
        !goes_to_worker(true, started, running),
        !goes_to_worker(false, started, false),
        started != 0 ==> !goes_to_worker(false, started, running),
        ({
            let r = ResourcesModel {
                ctrl: Some(ctrl),
                streams: Seq::new(streams.len(), |i: int| Some(streams[i])),
                initial_sizes: sizes,
            };
            all_descriptors(r) == streams + seq![ctrl]
        }),
{
    lemma_present(streams);
}

proof fn lemma_present(streams: Seq<i32>)
    ensures
        present(Seq::new(streams.len(), |i: int| Some(streams[i]))) == streams,
    decreases streams.len(),
{
    let all = Seq::new(streams.len(), |i: int| Some(streams[i]));
    if streams.len() > 0 {
        let init = streams.drop_last();
        lemma_present(init);
        assert(all.drop_last() =~= Seq::new(init.len(), |i: int| Some(init[i])));
        assert(streams =~= init.push(streams.last()));
    } else {
        assert(present(all) =~= streams);
    }
}

/// A connection that is lost takes all nodes with it, and goes last. What is said of a camera that
/// there cannot be, or by a connection that was replaced, is ignored.
pub proof fn law_lost_connections_take_their_nodes(m: WorkerModel, i: int, event: WorkerEvent)
    requires
        m.wf(),
        !m.stopping,
        m.agenda.len() == 0,
        0 <= i < 8,
    ensures
        ({
            let after = m.notified(WorkerEvent::PipeWireBroken(m.core_generation));
            &&& after.agenda.len() == 9
            &&& after.agenda[i] == Task::DestroyNode(i as usize)
            &&& after.agenda[8] == Task::DropCore
            &&& after.cameras == m.cameras
        }),
        m.done(Task::DropCore, true).1 is DropCore && !m.done(Task::DropCore, true).0.core,
        (event matches WorkerEvent::Streaming { camera, .. } && camera >= 8) || (event matches
            WorkerEvent::ReaderClosed { camera, .. } && camera >= 8) || (event matches
            WorkerEvent::NodeFailed { camera, .. } && camera >= 8) || (event matches
            WorkerEvent::PipeWireBroken(g) && g != m.core_generation) ==> m.notified(event) == m,
{
    lemma_destroy_at(0, 8, i);
    let after = m.notified(WorkerEvent::PipeWireBroken(m.core_generation));
    assert(after.agenda =~= destroy_nodes(0, 8) + seq![Task::DropCore]);
}

/// Letting the consumer go, and stopping, stops the reader of every camera and tells the service
/// before the control socket goes; stopping then takes all nodes and the connection.
pub proof fn law_readers_stop_before_the_socket_goes(m: WorkerModel, i: int, j: int)
    requires
        m.wf(),
        !m.stopping,
        m.agenda.len() == 0,
        0 <= i < m.active_cameras,
        0 <= j < 8,
    ensures
        ({
            let tasks = m.commanded(CommandModel::Clear).agenda;
            &&& tasks.len() == 2 * m.active_cameras + 1
            &&& tasks[2 * i] == Task::StopReader(i as usize)
            &&& tasks[2 * i + 1] == Task::Reconcile(i as usize)
            &&& tasks.last() == Task::SwapControl(None)
        }),
        ({
            let after = m.commanded(CommandModel::Shutdown);
            let tasks = after.agenda;
            &&& after.stopping
            &&& tasks.len() == 26
            &&& tasks[2 * j] == Task::StopReader(j as usize)
            &&& tasks[2 * j + 1] == Task::Reconcile(j as usize)
            &&& tasks[16] == Task::DropControl
            &&& tasks[17 + j] == Task::DestroyNode(j as usize)
            &&& tasks[25] == Task::DropCore
        }),
        ({
            let (after, action) = m.done(Task::DropControl, true);
            &&& after.ctrl is None
            &&& m.ctrl matches Some(fd) ==> action == Action::Close(fd)
        }),
{
    let n = m.active_cameras as nat;
    lemma_stop_at(n, i);
    lemma_stop_at(8, j);
    lemma_destroy_at(0, 8, j);
    assert(m.commanded(CommandModel::Clear).agenda =~= stop_readers(n) + seq![
        Task::SwapControl(None),
    ]);
    assert(m.commanded(CommandModel::Shutdown).agenda =~= stop_readers(8) + seq![
        Task::DropControl,
    ] + (destroy_nodes(0, 8) + seq![Task::DropCore]));
}

/// What is left of a frame is read next, also after an interruption; reading that failed, that gave
/// nothing or that gave too much ends it, and the slot is given back all the same.
pub proof fn law_reading_goes_on(
    r: ReaderModel,
    message: StreamMessage,
    read: SlotRead,
    data: Seq<u8>,
)
    requires
        r.wf(),
        r.phase == (ReaderPhase::Copying { message, read }),
    ensures
        ({
            let step = r.after_no_data(true);
            &&& step.reader == r
            &&& step.action == ReaderAction::Read(
                SlotRead {
                    fd: read.fd,
                    offset: (read.offset + r.pixels.len()) as usize,
                    len: (read.len - r.pixels.len()) as usize,
                },
            )
        }),
        data.len() > 0 && r.pixels.len() + data.len() < read.len ==> ({
            let step = r.after_data(data);
            &&& step.reader.pixels == r.pixels + data
            &&& step.action == ReaderAction::Read(
                SlotRead {
                    fd: read.fd,
                    offset: (read.offset + r.pixels.len() + data.len()) as usize,
                    len: (read.len - r.pixels.len() - data.len()) as usize,
                },
            )
        }),
        data.len() == 0 || r.pixels.len() + data.len() > read.len ==> ({
            let step = r.after_data(data);
            &&& step.action == (ReaderAction::SendStream { kind: 4, slot: message.slot })
            &&& step.reader.phase == (ReaderPhase::Releasing { message, copied: false })
        }),
        ({
            let step = r.after_no_data(false);
            &&& step.action == (ReaderAction::SendStream { kind: 4, slot: message.slot })
            &&& step.reader.phase == (ReaderPhase::Releasing { message, copied: false })
        }),
{
}

/// What a wait told is kept while calls are taken in, and used after that.
pub proof fn law_waits_are_kept(r: ReaderModel, input: bool, hangup: bool)
    ensures
        ({
            let waking = r.after_poll(PollOutcome::Ready { wake: true, input, hangup }).reader;
            let step = waking.after_command(Checkpoint::AfterWake { stop: false }, None);
            &&& input ==> step.action is Receive && step.reader.batch == 32
            &&& !input && hangup ==> step.action is ReportClosed
            &&& !input && !hangup ==> step.action is TryCommand
        }),
{
}

/// A frame that does not lie in the memory, or is in no format of the service, is not read: its
/// slot is given back at once. Every other message is passed over.
pub proof fn law_other_messages(r: ReaderModel, message: StreamMessage, fds: Seq<i32>)
    requires
        r.wf(),
    ensures
        message.kind == 3 && (r.mapping is None || message.slot >= 2 || message.format > 2
            || frame_bytes(message.a, message.b) is None || frame_bytes(message.a, message.b)->0
            > r.mapping->0.slot_bytes) ==> ({
            let step = r.after_message(message, fds);
            &&& step.action == (ReaderAction::SendStream { kind: 4, slot: message.slot })
            &&& step.close == fds
            &&& step.reader.phase == (ReaderPhase::Releasing { message, copied: false })
        }),
        message.kind != 2 && message.kind != 3 ==> ({
            let step = r.after_message(message, fds);
            &&& step.action is TryCommand && step.close == fds
            &&& step.reader.mapping == r.mapping
        }),
{
}

/// A number of cameras that is none counts as no cameras.
pub proof fn law_offers(num_cameras: i32)
    ensures
        num_cameras >= 0 ==> offered(num_cameras) == num_cameras,
        num_cameras < 0 ==> offered(num_cameras) == 0,
{
}

/// What is done for one camera leaves the others as they are, and so do events and frames.
pub proof fn law_cameras_do_not_concern_each_other(
    m: WorkerModel,
    task: Task,
    ok: bool,
    event: WorkerEvent,
    frame: FrameModel,
    i: usize,
    j: int,
)
    requires
        m.wf(),
        i < 8,
        0 <= j < 8,
        j != i,
    ensures
        task_camera(task) == Some(i) ==> m.done(task, ok).0.cameras[j] == m.cameras[j],
        task_camera(task) is None ==> m.done(task, ok).0.cameras == m.cameras,
        event_camera(event) == Some(i) ==> m.notified(event).cameras[j] == m.cameras[j],
        m.framed(i, frame).0.cameras[j] == m.cameras[j],
        m.done(task, ok).0.active_cameras == m.active_cameras || task is Activate,
        m.done(task, ok).0.stopping == m.stopping,
{
}

/// The camera that an event is about.
pub open spec fn event_camera(event: WorkerEvent) -> Option<usize> {
    match event {
        WorkerEvent::Streaming { camera, .. } => Some(camera),
        WorkerEvent::ReaderClosed { camera, .. } => Some(camera),
        WorkerEvent::NodeFailed { camera, .. } => Some(camera),
        WorkerEvent::PipeWireBroken(_) => None,
    }
}

/// A frame that a camera gets changes nothing else about it: who watches it, what the service was
/// told, its stream and its node stay.
pub proof fn law_frames_change_nothing_else(m: WorkerModel, i: usize, frame: FrameModel)
    requires
        m.wf(),
        i < 8,
    ensures
        ({
            let (before, after) = (m.cameras[i as int], m.frame_stored(i, frame).cameras[i as int]);
            &&& after.node == before.node && after.reader == before.reader
            &&& after.data.streaming == before.data.streaming
            &&& after.data.recording == before.data.recording
            &&& after.data.recording_generation == before.data.recording_generation
            &&& after.data.live == before.data.live
            &&& after.data.stream_generation == before.data.stream_generation
            &&& after.data.node_generation == before.data.node_generation
        }),
{
}

/// The descriptors of a service that are some and differ are taken over each for its purpose: the
/// first as the control socket and the streams in order, up to eight; the others are closed.
pub proof fn law_services_are_taken_over(
    ctrl_fd: i32,
    stream_fds: Seq<i32>,
    num_cameras: i32,
    i: int,
)
    requires
        0 <= num_cameras <= stream_fds.len(),
        ctrl_fd >= 0,
        forall|k: int| 0 <= k < num_cameras ==> #[trigger] stream_fds[k] >= 0 && stream_fds[k]
            != ctrl_fd,
        forall|j: int, k: int|
            0 <= j < k < num_cameras ==> #[trigger] stream_fds[j] != #[trigger] stream_fds[k],
        0 <= i < num_cameras,
    ensures
        ({
            let a = adoption(ctrl_fd, Some(stream_fds), num_cameras);
            &&& !a.refused
            &&& a.ctrl == Some(ctrl_fd)
            &&& num_cameras <= 8 ==> a.streams.len() == num_cameras && a.close.len() == 0
            &&& num_cameras > 8 ==> a.streams.len() == 8 && a.close == stream_fds.subrange(
                8,
                num_cameras as int,
            )
            &&& i < 8 ==> a.streams[i] == Some(stream_fds[i])
        }),
{
    law_descriptors_keep_their_places(ctrl_fd, stream_fds, num_cameras, i);
}

/// Without a list of streams there must be no cameras: then the control socket alone is taken over,
/// and else it is closed and nothing is handed on.
pub proof fn law_services_without_streams(ctrl_fd: i32, num_cameras: i32)
    requires
        ctrl_fd >= 0,
    ensures
        ({
            let a = adoption(ctrl_fd, None, num_cameras);
            &&& a.streams.len() == 0
            &&& num_cameras <= 0 ==> !a.refused && a.ctrl == Some(ctrl_fd) && a.close.len() == 0
            &&& num_cameras > 0 ==> a.refused && a.ctrl is None && a.close == seq![ctrl_fd]
        }),
{
}

} // verus!
