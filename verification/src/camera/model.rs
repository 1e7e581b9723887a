//! The state of the camera worker, and how commands, events and tasks change it.
use std::collections::VecDeque;

use vstd::prelude::*;

#[allow(unused_imports)]
use crate::camera::frame::{frame_bytes, known_format};
use crate::camera::node::{CameraData, DataModel};
#[allow(unused_imports)]
use crate::camera::node::{DEFAULT_HEIGHT, DEFAULT_WIDTH};
use crate::camera::reader::{FrameModel, ReaderFrame};
#[allow(unused_imports)]
use crate::camera::wire::MAX_CAMERAS;
#[allow(unused_imports)]
use crate::counter::following;

verus! {

/// What the worker is given to read from.
pub struct Resources {
    pub ctrl: Option<i32>,
    pub streams: Vec<Option<i32>>,
    pub initial_sizes: Vec<(u32, u32)>,
}

/// The same, as a plain value.
pub struct ResourcesModel {
    pub ctrl: Option<i32>,
    pub streams: Seq<Option<i32>>,
    pub initial_sizes: Seq<(u32, u32)>,
}

impl View for Resources {
    type V = ResourcesModel;

    open spec fn view(&self) -> ResourcesModel {
        ResourcesModel {
            ctrl: self.ctrl,
            streams: self.streams@,
            initial_sizes: self.initial_sizes@,
        }
    }
}

/// What the worker is told to do.
pub enum Command {
    /// Read from these, which the worker now owns.
    SetResources(Resources),
    /// Read from nothing; the nodes stay.
    Clear,
    Shutdown,
}

/// The same, as a plain value.
pub enum CommandModel {
    SetResources(ResourcesModel),
    Clear,
    Shutdown,
}

impl View for Command {
    type V = CommandModel;

    open spec fn view(&self) -> CommandModel {
        match *self {
            Command::SetResources(resources) => CommandModel::SetResources(resources@),
            Command::Clear => CommandModel::Clear,
            Command::Shutdown => CommandModel::Shutdown,
        }
    }
}

/// What happened elsewhere.
#[derive(Debug, Clone, Copy, PartialEq, Eq, Structural)]
pub enum WorkerEvent {
    /// Someone began or ceased to watch the node.
    Streaming { camera: usize, node_generation: u64, streaming: bool },
    /// The reader ended.
    ReaderClosed { camera: usize, stream_generation: u64 },
    /// The node failed.
    NodeFailed { camera: usize, node_generation: u64 },
    /// The connection of that generation is lost.
    PipeWireBroken(u64),
}

/// The state of a node, as far as it matters.
#[derive(Debug, Clone, Copy, PartialEq, Eq, Structural)]
pub enum NodeState {
    Streaming,
    Failed,
    Other,
}

/// What a node in this state sends to the worker.
pub open spec fn node_events(camera: usize, node_generation: u64, state: NodeState) -> (
    WorkerEvent,
    Option<WorkerEvent>,
) {
    (
        WorkerEvent::Streaming { camera, node_generation, streaming: state is Streaming },
        if state is Failed {
            Some(WorkerEvent::NodeFailed { camera, node_generation })
        } else {
            None
        },
    )
}

/// What a node sends to the worker when its state changes.
pub fn node_state_changed(camera: usize, node_generation: u64, state: NodeState) -> (events: (
    WorkerEvent,
    Option<WorkerEvent>,
))
    ensures
        events == node_events(camera, node_generation, state),
{
    let streaming = match state {
        NodeState::Streaming => true,
        _ => false,
    };
    let failed = match state {
        NodeState::Failed => Some(WorkerEvent::NodeFailed { camera, node_generation }),
        _ => None,
    };
    (WorkerEvent::Streaming { camera, node_generation, streaming }, failed)
}

/// What is to be done.
#[derive(Debug, Clone, Copy, PartialEq, Eq, Structural)]
pub enum Action {
    Nothing,
    /// End the reader and wait until it is gone.
    StopReader(usize),
    /// Throw away the frame that the reader left.
    ClearMailbox(usize),
    /// Start a reader on the stream, which it then owns.
    SpawnReader { camera: usize, generation: u64, stream: i32 },
    /// Have the reader ask for memory.
    RequestShm(usize),
    /// Have the service record.
    StartRecord { ctrl: i32, index: u8, record_width: u16, record_height: u16 },
    /// Have the service stop.
    StopRecord { ctrl: i32, index: u8 },
    /// Close this descriptor.
    Close(i32),
    /// Connect to the server.
    ConnectCore { generation: u64 },
    /// Let the connection go.
    DropCore,
    /// Publish a node.
    CreateNode { camera: usize, generation: u64, width: u32, height: u32, format: u16 },
    /// Take the node back.
    DropNode(usize),
    /// Give the node another format.
    UpdateFormat { camera: usize, width: u32, height: u32, format: u16 },
    /// Send [`WorkerEvent::NodeFailed`] to the worker itself.
    ReportNodeFailed { camera: usize, node_generation: u64 },
}

/// What is still to be done.
#[derive(Debug, Clone, Copy, PartialEq, Eq, Structural)]
pub enum Task {
    StopReader(usize),
    ClearMailbox(usize),
    /// Have the service record exactly what is watched.
    Reconcile(usize),
    /// The service was told, or could not be.
    Told { camera: usize, want: bool },
    /// Talk to the service over another socket from here on, or over none.
    SwapControl(Option<i32>),
    /// Let the control socket go for good.
    DropControl,
    Close(i32),
    Connect,
    Connected,
    DropCore,
    /// So many cameras are there from here on.
    Activate(usize),
    /// The service named a size.
    Resize { camera: usize, width: u32, height: u32 },
    CreateNode(usize),
    NodeCreated(usize),
    DestroyNode(usize),
    DropNode(usize),
    AttachReader { camera: usize, stream: Option<i32> },
    SpawnReader { camera: usize, fd: i32 },
    ReaderSpawned(usize),
    /// The node took the format of the pending frame, or did not.
    FormatUpdated { camera: usize, node_generation: u64 },
}

/// A camera, and whether it has a node and a reader.
pub struct Camera {
    pub data: CameraData,
    pub node: bool,
    pub reader: bool,
}

/// The same, as a plain value.
pub struct CameraModel {
    pub data: DataModel,
    pub node: bool,
    pub reader: bool,
}

impl View for Camera {
    type V = CameraModel;

    open spec fn view(&self) -> CameraModel {
        CameraModel { data: self.data@, node: self.node, reader: self.reader }
    }
}

/// The state of the worker.
pub struct WorkerState {
    /// There is a connection.
    pub core: bool,
    pub core_generation: u64,
    pub ctrl: Option<i32>,
    pub ctrl_generation: u64,
    pub active_cameras: usize,
    pub cameras: Vec<Camera>,
    pub stopping: bool,
    pub agenda: VecDeque<Task>,
    /// A frame whose format the node is to take first.
    pub pending: Option<ReaderFrame>,
}

/// The same, as a plain value.
pub struct WorkerModel {
    pub core: bool,
    pub core_generation: u64,
    pub ctrl: Option<i32>,
    pub ctrl_generation: u64,
    pub active_cameras: usize,
    pub cameras: Seq<CameraModel>,
    pub stopping: bool,
    pub agenda: Seq<Task>,
    pub pending: Option<FrameModel>,
}

/// What `cameras` stand for.
pub open spec fn camera_models(cameras: Seq<Camera>) -> Seq<CameraModel> {
    Seq::new(cameras.len(), |i: int| cameras[i]@)
}

impl View for WorkerState {
    type V = WorkerModel;

    open spec fn view(&self) -> WorkerModel {
        WorkerModel {
            core: self.core,
            core_generation: self.core_generation,
            ctrl: self.ctrl,
            ctrl_generation: self.ctrl_generation,
            active_cameras: self.active_cameras,
            cameras: camera_models(self.cameras@),
            stopping: self.stopping,
            agenda: self.agenda@,
            pending: match self.pending {
                Some(frame) => Some(frame@),
                None => None,
            },
        }
    }
}

/// The camera that a task is about.
pub open spec fn task_camera(task: Task) -> Option<usize> {
    match task {
        Task::StopReader(i)
        | Task::ClearMailbox(i)
        | Task::Reconcile(i)
        | Task::CreateNode(i)
        | Task::NodeCreated(i)
        | Task::DestroyNode(i)
        | Task::DropNode(i)
        | Task::ReaderSpawned(i) => Some(i),
        Task::Told { camera, .. }
        | Task::Resize { camera, .. }
        | Task::AttachReader { camera, .. }
        | Task::SpawnReader { camera, .. }
        | Task::FormatUpdated { camera, .. } => Some(camera),
        _ => None,
    }
}

/// A task that the worker can do.
pub open spec fn task_fits(task: Task) -> bool {
    &&& task_camera(task) matches Some(i) ==> i < MAX_CAMERAS
    &&& task matches Task::Activate(n) ==> n <= MAX_CAMERAS
}

/// Tasks that the worker can do.
#[verifier::opaque]
pub open spec fn tasks_fit(tasks: Seq<Task>) -> bool {
    forall|k: int| 0 <= k < tasks.len() ==> task_fits(#[trigger] tasks[k])
}

/// What holds of every camera holds of these.
#[verifier::opaque]
pub open spec fn cameras_valid(cameras: Seq<CameraModel>) -> bool {
    forall|i: int| 0 <= i < cameras.len() ==> (#[trigger] cameras[i]).data.wf()
}

/// For each of the first `n` cameras: its reader stops, and the service is told.
pub open spec fn stop_readers(n: nat) -> Seq<Task>
    decreases n,
{
    if n == 0 {
        Seq::empty()
    } else {
        stop_readers((n - 1) as nat) + seq![
            Task::StopReader((n - 1) as usize),
            Task::Reconcile((n - 1) as usize),
        ]
    }
}

/// The nodes of the cameras from `from` up to `to` go.
pub open spec fn destroy_nodes(from: nat, to: nat) -> Seq<Task>
    decreases to,
{
    if to <= from {
        Seq::empty()
    } else {
        destroy_nodes(from, (to - 1) as nat) + seq![Task::DestroyNode((to - 1) as usize)]
    }
}

/// For each of the first `n` cameras: its node is published, and the service is told.
pub open spec fn keep_nodes(n: nat) -> Seq<Task>
    decreases n,
{
    if n == 0 {
        Seq::empty()
    } else {
        keep_nodes((n - 1) as nat) + seq![
            Task::CreateNode((n - 1) as usize),
            Task::Reconcile((n - 1) as usize),
        ]
    }
}

/// The size that was named for a camera.
pub open spec fn named_size(sizes: Seq<(u32, u32)>, i: int) -> (u32, u32) {
    if i < sizes.len() {
        sizes[i]
    } else {
        (0, 0)
    }
}

/// For each of the first `n` cameras: its size is taken, its node is published, and its stream is
/// read.
pub open spec fn open_cameras(r: ResourcesModel, n: nat) -> Seq<Task>
    decreases n,
{
    if n == 0 {
        Seq::empty()
    } else {
        let i = (n - 1) as usize;
        let (width, height) = named_size(r.initial_sizes, i as int);
        open_cameras(r, (n - 1) as nat) + seq![
            Task::Resize { camera: i, width, height },
            Task::CreateNode(i),
            Task::AttachReader { camera: i, stream: r.streams[i as int] },
        ]
    }
}

/// The descriptors among `fds`, from `from` up to `to`, are closed.
pub open spec fn close_streams(fds: Seq<Option<i32>>, from: nat, to: nat) -> Seq<Task>
    decreases to,
{
    if to <= from {
        Seq::empty()
    } else {
        close_streams(fds, from, (to - 1) as nat) + match fds[to - 1] {
            Some(fd) => seq![Task::Close(fd)],
            None => Seq::empty(),
        }
    }
}

/// A descriptor is closed, if there is one.
pub open spec fn close_one(fd: Option<i32>) -> Seq<Task> {
    match fd {
        Some(fd) => seq![Task::Close(fd)],
        None => Seq::empty(),
    }
}

/// How many of the streams there is a camera for.
pub open spec fn camera_count(r: ResourcesModel) -> nat {
    if r.streams.len() < MAX_CAMERAS {
        r.streams.len()
    } else {
        MAX_CAMERAS as nat
    }
}

/// What new resources lead to, when `active` cameras were there: the old ones stop before the
/// control socket changes, and nodes that are still wanted stay.
pub open spec fn resources_agenda(r: ResourcesModel, active: nat) -> Seq<Task> {
    stop_readers(active) + seq![Task::SwapControl(r.ctrl)] + destroy_nodes(
        camera_count(r),
        active,
    ) + seq![Task::Activate(camera_count(r) as usize)] + open_cameras(r, camera_count(r))
        + close_streams(r.streams, camera_count(r), r.streams.len())
}

/// What letting the connection go leads to.
pub open spec fn drop_agenda() -> Seq<Task> {
    destroy_nodes(0, MAX_CAMERAS as nat) + seq![Task::DropCore]
}

/// What stopping leads to.
pub open spec fn shutdown_agenda() -> Seq<Task> {
    stop_readers(MAX_CAMERAS as nat) + seq![Task::DropControl] + drop_agenda()
}

impl WorkerModel {
    /// What holds of every worker.
    pub open spec fn wf(self) -> bool {
        &&& self.cameras.len() == MAX_CAMERAS
        &&& self.active_cameras <= MAX_CAMERAS
        &&& cameras_valid(self.cameras)
        &&& tasks_fit(self.agenda)
    }

    pub open spec fn with_camera(self, i: int, camera: CameraModel) -> WorkerModel {
        WorkerModel { cameras: self.cameras.update(i, camera), ..self }
    }

    pub open spec fn with_data(self, i: int, data: DataModel) -> WorkerModel {
        self.with_camera(i, CameraModel { data, ..self.cameras[i] })
    }

    /// These tasks come first.
    pub open spec fn first(self, tasks: Seq<Task>) -> WorkerModel {
        WorkerModel { agenda: tasks + self.agenda, ..self }
    }

    /// These tasks come last.
    pub open spec fn also(self, tasks: Seq<Task>) -> WorkerModel {
        WorkerModel { agenda: self.agenda + tasks, ..self }
    }

    /// The service should record this camera: someone watches it, and there is a stream and a
    /// socket to say so.
    pub open spec fn wanted(self, i: int) -> bool {
        let data = self.cameras[i].data;
        data.streaming && data.live && self.ctrl is Some
    }

    /// The service was told, over the socket that is there now, to record this camera.
    pub open spec fn recorded(self, i: int) -> bool {
        let data = self.cameras[i].data;
        data.recording && data.recording_generation == self.ctrl_generation
    }

    /// The reader is to ask for memory, if there is one.
    pub open spec fn asking_for_memory(self, i: usize) -> (WorkerModel, Action) {
        (
            self,
            if self.cameras[i as int].reader {
                Action::RequestShm(i)
            } else {
                Action::Nothing
            },
        )
    }

    /// The service is told what it should record, if it was told something else.
    pub open spec fn reconciled(self, i: usize) -> (WorkerModel, Action) {
        let data = self.cameras[i as int].data;
        let want = self.wanted(i as int);
        if want == self.recorded(i as int) {
            if want {
                self.asking_for_memory(i)
            } else {
                (self, Action::Nothing)
            }
        } else {
            match self.ctrl {
                None => (self, Action::Nothing),
                Some(ctrl) => if !want {
                    (
                        self.first(seq![Task::Told { camera: i, want }]),
                        Action::StopRecord { ctrl, index: i as u8 },
                    )
                } else if frame_bytes(data.width, data.height) is Some {
                    (
                        self.first(seq![Task::Told { camera: i, want }]),
                        Action::StartRecord {
                            ctrl,
                            index: i as u8,
                            record_width: data.width as u16,
                            record_height: data.height as u16,
                        },
                    )
                } else {
                    (self, Action::Nothing)
                },
            }
        }
    }

    /// The service was told, or could not be.
    pub open spec fn told(self, i: usize, want: bool, ok: bool) -> (WorkerModel, Action) {
        if !ok {
            (self, Action::Nothing)
        } else {
            let s = self.with_data(
                i as int,
                DataModel {
                    recording: want,
                    recording_generation: self.ctrl_generation,
                    ..self.cameras[i as int].data
                },
            );
            if want {
                s.asking_for_memory(i)
            } else {
                (s, Action::Nothing)
            }
        }
    }

    /// The reader stops; what it still sends is out of date from here on.
    pub open spec fn reader_stopped(self, i: usize) -> (WorkerModel, Action) {
        let c = self.cameras[i as int];
        let s = self.with_camera(
            i as int,
            CameraModel {
                data: DataModel {
                    stream_generation: following(c.data.stream_generation),
                    live: false,
                    have_frame: false,
                    ..c.data
                },
                reader: false,
                ..c
            },
        ).first(seq![Task::ClearMailbox(i)]);
        (
            s,
            if c.reader {
                Action::StopReader(i)
            } else {
                Action::Nothing
            },
        )
    }

    /// The control socket is closed, if there is one.
    pub open spec fn control_closed(self, next: WorkerModel) -> (WorkerModel, Action) {
        (
            next,
            match self.ctrl {
                Some(ctrl) => Action::Close(ctrl),
                None => Action::Nothing,
            },
        )
    }

    /// A node is published for a camera that has none, in the size that is known of it.
    pub open spec fn node_created(self, i: usize) -> (WorkerModel, Action) {
        let c = self.cameras[i as int];
        if i >= self.active_cameras || c.node || !self.core {
            (self, Action::Nothing)
        } else {
            let unknown = c.data.width == 0 || c.data.height == 0;
            let data = DataModel {
                width: if unknown {
                    DEFAULT_WIDTH
                } else {
                    c.data.width
                },
                height: if unknown {
                    DEFAULT_HEIGHT
                } else {
                    c.data.height
                },
                streaming: false,
                process_seen: false,
                node_generation: following(c.data.node_generation),
                ..c.data
            };
            (
                self.with_data(i as int, data).first(seq![Task::NodeCreated(i)]),
                Action::CreateNode {
                    camera: i,
                    generation: data.node_generation,
                    width: data.width,
                    height: data.height,
                    format: data.format,
                },
            )
        }
    }

    /// A stream is read from here on.
    pub open spec fn reader_spawned(self, i: usize, stream: i32) -> (WorkerModel, Action) {
        let data = self.cameras[i as int].data;
        (
            self.with_data(i as int, DataModel { live: true, have_frame: false, ..data }).first(
                seq![Task::ReaderSpawned(i), Task::Reconcile(i)],
            ),
            Action::SpawnReader { camera: i, generation: data.stream_generation, stream },
        )
    }

    /// The frame is the camera's own, if it is still from the stream that is read.
    pub open spec fn frame_stored(self, i: usize, frame: FrameModel) -> WorkerModel {
        let data = self.cameras[i as int].data;
        if data.stream_generation != frame.stream_generation || !data.live {
            self
        } else {
            self.with_data(
                i as int,
                DataModel {
                    width: frame.width,
                    height: frame.height,
                    format: frame.format,
                    frame: frame.pixels,
                    have_frame: true,
                    ..data
                },
            )
        }
    }

    /// What a task does.
    pub open spec fn done(self, task: Task, ok: bool) -> (WorkerModel, Action) {
        match task {
            Task::StopReader(i) => self.reader_stopped(i),
            Task::ClearMailbox(i) => (self, Action::ClearMailbox(i)),
            Task::Reconcile(i) => self.reconciled(i),
            Task::Told { camera, want } => self.told(camera, want, ok),
            Task::SwapControl(ctrl) => self.control_closed(
                WorkerModel { ctrl, ctrl_generation: following(self.ctrl_generation), ..self },
            ),
            Task::DropControl => self.control_closed(WorkerModel { ctrl: None, ..self }),
            Task::Close(fd) => (self, Action::Close(fd)),
            Task::Connect => (
                self.first(seq![Task::Connected]),
                Action::ConnectCore { generation: self.core_generation },
            ),
            Task::Connected => (WorkerModel { core: ok, ..self }, Action::Nothing),
            Task::DropCore => (WorkerModel { core: false, ..self }, Action::DropCore),
            Task::Activate(n) => (WorkerModel { active_cameras: n, ..self }, Action::Nothing),
            Task::Resize { camera, width, height } => {
                let c = self.cameras[camera as int];
                if !c.node && frame_bytes(width, height) is Some {
                    (
                        self.with_data(camera as int, DataModel { width, height, ..c.data }),
                        Action::Nothing,
                    )
                } else {
                    (self, Action::Nothing)
                }
            },
            Task::CreateNode(i) => self.node_created(i),
            Task::NodeCreated(i) => (
                self.with_camera(
                    i as int,
                    CameraModel {
                        node: self.cameras[i as int].node || ok,
                        ..self.cameras[i as int]
                    },
                ),
                Action::Nothing,
            ),
            Task::DestroyNode(i) => {
                let data = self.cameras[i as int].data;
                (
                    self.with_data(
                        i as int,
                        DataModel {
                            node_generation: following(data.node_generation),
                            streaming: false,
                            ..data
                        },
                    ).first(seq![Task::Reconcile(i), Task::DropNode(i)]),
                    Action::Nothing,
                )
            },
            Task::DropNode(i) => {
                let c = self.cameras[i as int];
                (
                    self.with_camera(i as int, CameraModel { node: false, ..c }),
                    if c.node {
                        Action::DropNode(i)
                    } else {
                        Action::Nothing
                    },
                )
            },
            Task::AttachReader { camera, stream } => (
                self.first(
                    seq![
                        Task::StopReader(camera),
                        match stream {
                            Some(fd) => Task::SpawnReader { camera, fd },
                            None => Task::Reconcile(camera),
                        },
                    ],
                ),
                Action::Nothing,
            ),
            Task::SpawnReader { camera, fd } => self.reader_spawned(camera, fd),
            Task::ReaderSpawned(i) => {
                let c = self.cameras[i as int];
                (
                    self.with_camera(
                        i as int,
                        if ok {
                            CameraModel { reader: true, ..c }
                        } else {
                            CameraModel {
                                data: DataModel { live: false, have_frame: false, ..c.data },
                                ..c
                            }
                        },
                    ),
                    Action::Nothing,
                )
            },
            Task::FormatUpdated { camera, node_generation } => {
                let s = WorkerModel { pending: None, ..self };
                match self.pending {
                    None => (s, Action::Nothing),
                    Some(frame) => if ok {
                        (s.frame_stored(camera, frame), Action::Nothing)
                    } else {
                        (s, Action::ReportNodeFailed { camera, node_generation })
                    },
                }
            },
        }
    }

    /// What the first task on the agenda does.
    pub open spec fn stepped(self, ok: bool) -> (WorkerModel, Action) {
        if self.agenda.len() == 0 {
            (self, Action::Nothing)
        } else {
            WorkerModel { agenda: self.agenda.skip(1), ..self }.done(self.agenda[0], ok)
        }
    }

    /// What a command adds.
    pub open spec fn commanded(self, command: CommandModel) -> WorkerModel {
        match command {
            CommandModel::SetResources(r) => if self.stopping {
                self.also(close_one(r.ctrl) + close_streams(r.streams, 0, r.streams.len()))
            } else {
                self.also(resources_agenda(r, self.active_cameras as nat))
            },
            CommandModel::Clear => if self.stopping {
                self
            } else {
                self.also(
                    stop_readers(self.active_cameras as nat) + seq![Task::SwapControl(None)],
                )
            },
            CommandModel::Shutdown => self.shut_down(),
        }
    }

    /// The worker stops for good.
    pub open spec fn shut_down(self) -> WorkerModel {
        if self.stopping {
            self
        } else {
            WorkerModel { stopping: true, ..self }.also(shutdown_agenda())
        }
    }

    /// A connection is made if there is none, then the nodes that are missing.
    pub open spec fn maintained(self) -> WorkerModel {
        if self.stopping {
            self
        } else if self.core {
            self.also(keep_nodes(self.active_cameras as nat))
        } else {
            WorkerModel { core_generation: following(self.core_generation), ..self }.also(
                seq![Task::Connect] + keep_nodes(self.active_cameras as nat),
            )
        }
    }

    /// The event is about a camera, node, stream or connection that the worker has now, and
    /// tells something new.
    pub open spec fn concerns(self, event: WorkerEvent) -> bool {
        match event {
            WorkerEvent::Streaming { camera, node_generation, streaming } => {
                &&& camera < self.cameras.len()
                &&& self.cameras[camera as int].data.node_generation == node_generation
                &&& self.cameras[camera as int].data.streaming != streaming
            },
            WorkerEvent::ReaderClosed { camera, stream_generation } => {
                &&& camera < self.cameras.len()
                &&& self.cameras[camera as int].data.stream_generation == stream_generation
            },
            WorkerEvent::NodeFailed { camera, node_generation } => {
                &&& camera < self.cameras.len()
                &&& self.cameras[camera as int].data.node_generation == node_generation
            },
            WorkerEvent::PipeWireBroken(generation) => generation == self.core_generation,
        }
    }

    /// What an event changes and adds.
    pub open spec fn notified(self, event: WorkerEvent) -> WorkerModel {
        if self.stopping || !self.concerns(event) {
            self
        } else {
            match event {
                WorkerEvent::Streaming { camera, streaming, .. } => self.with_data(
                    camera as int,
                    DataModel { streaming, ..self.cameras[camera as int].data },
                ).also(seq![Task::Reconcile(camera)]),
                WorkerEvent::ReaderClosed { camera, .. } => self.with_data(
                    camera as int,
                    DataModel {
                        live: false,
                        have_frame: false,
                        ..self.cameras[camera as int].data
                    },
                ).also(seq![Task::Reconcile(camera)]),
                WorkerEvent::NodeFailed { camera, .. } => self.also(
                    seq![Task::DestroyNode(camera)],
                ),
                WorkerEvent::PipeWireBroken(_) => self.also(drop_agenda()),
            }
        }
    }

    /// A frame that is whole, and from the stream that is read.
    pub open spec fn acceptable(self, i: usize, frame: FrameModel) -> bool {
        &&& i < self.cameras.len()
        &&& frame_bytes(frame.width, frame.height) matches Some(bytes) && frame.pixels.len()
            == bytes
        &&& known_format(frame.format)
        &&& self.cameras[i as int].data.stream_generation == frame.stream_generation
        &&& self.cameras[i as int].data.live
    }

    /// What a frame leads to: it is stored, once the node has its format. Without a node, a frame
    /// in another format is dropped.
    pub open spec fn framed(self, i: usize, frame: FrameModel) -> (WorkerModel, Action) {
        if self.stopping || !self.acceptable(i, frame) {
            (self, Action::Nothing)
        } else {
            let c = self.cameras[i as int];
            if frame.width == c.data.width && frame.height == c.data.height && frame.format
                == c.data.format {
                (self.frame_stored(i, frame), Action::Nothing)
            } else if c.node {
                (
                    WorkerModel { pending: Some(frame), ..self }.first(
                        seq![
                            Task::FormatUpdated {
                                camera: i,
                                node_generation: c.data.node_generation,
                            },
                        ],
                    ),
                    Action::UpdateFormat {
                        camera: i,
                        width: frame.width,
                        height: frame.height,
                        format: frame.format,
                    },
                )
            } else {
                (self, Action::Nothing)
            }
        }
    }
}

} // verus!
