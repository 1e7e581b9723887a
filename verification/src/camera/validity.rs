//! Nothing makes a valid camera worker invalid.
use vstd::prelude::*;

#[allow(unused_imports)]
use crate::camera::model::{
    camera_count, cameras_valid, close_one, close_streams, destroy_nodes, drop_agenda, keep_nodes,
    named_size, open_cameras, resources_agenda, shutdown_agenda, stop_readers, task_fits,
    tasks_fit, CameraModel, CommandModel, ResourcesModel, Task, WorkerEvent, WorkerModel,
};
#[allow(unused_imports)]
use crate::camera::reader::FrameModel;
#[allow(unused_imports)]
use crate::camera::wire::MAX_CAMERAS;

verus! {

proof fn lemma_valid_update(cameras: Seq<CameraModel>, i: int, c: CameraModel)
    requires
        cameras_valid(cameras),
        0 <= i < cameras.len(),
        cameras[i].data.wf() ==> c.data.wf(),
    ensures
        cameras_valid(cameras.update(i, c)),
{
    reveal(cameras_valid);
    assert(cameras[i].data.wf());
}

proof fn lemma_fit_concat(a: Seq<Task>, b: Seq<Task>)
    requires
        tasks_fit(a),
        tasks_fit(b),
    ensures
        tasks_fit(a + b),
{
    reveal(tasks_fit);
    let both = a + b;
    assert forall|k: int| 0 <= k < both.len() implies task_fits(#[trigger] both[k]) by {
        if k >= a.len() {
            assert(both[k] == b[k - a.len()]);
        }
    }
}

proof fn lemma_fit_front(tasks: Seq<Task>, agenda: Seq<Task>)
    requires
        forall|k: int| 0 <= k < tasks.len() ==> task_fits(#[trigger] tasks[k]),
        tasks_fit(agenda),
    ensures
        tasks_fit(tasks + agenda),
{
    assert(tasks_fit(tasks)) by {
        reveal(tasks_fit);
    }
    lemma_fit_concat(tasks, agenda);
}

proof fn lemma_done_with_readers(m: WorkerModel, task: Task, ok: bool)
    requires
        m.wf(),
        task_fits(task),
        task is StopReader || task is AttachReader || task is SpawnReader || task is ReaderSpawned,
    ensures
        m.done(task, ok).0.wf(),
{
    match task {
        Task::StopReader(i) => {
            lemma_valid_update(m.cameras, i as int, m.done(task, ok).0.cameras[i as int]);
            lemma_fit_front(seq![Task::ClearMailbox(i)], m.agenda);
        },
        Task::AttachReader { camera, stream } => {
            let next = match stream {
                Some(fd) => Task::SpawnReader { camera, fd },
                None => Task::Reconcile(camera),
            };
            lemma_fit_front(seq![Task::StopReader(camera), next], m.agenda);
            assert(m.done(task, ok).0.agenda =~= seq![Task::StopReader(camera), next] + m.agenda);
        },
        Task::SpawnReader { camera, fd } => {
            lemma_valid_update(m.cameras, camera as int, m.done(task, ok).0.cameras[camera as int]);
            lemma_fit_front(
                seq![Task::ReaderSpawned(camera), Task::Reconcile(camera)],
                m.agenda,
            );
        },
        Task::ReaderSpawned(i) => {
            lemma_valid_update(m.cameras, i as int, m.done(task, ok).0.cameras[i as int]);
        },
        _ => {},
    }
}

proof fn lemma_done_with_nodes(m: WorkerModel, task: Task, ok: bool)
    requires
        m.wf(),
        task_fits(task),
        task is CreateNode || task is NodeCreated || task is DestroyNode || task is DropNode
            || task is Resize || task is FormatUpdated,
    ensures
        m.done(task, ok).0.wf(),
{
    match task {
        Task::CreateNode(i) => {
            lemma_valid_update(m.cameras, i as int, m.done(task, ok).0.cameras[i as int]);
            lemma_fit_front(seq![Task::NodeCreated(i)], m.agenda);
        },
        Task::DestroyNode(i) => {
            lemma_valid_update(m.cameras, i as int, m.done(task, ok).0.cameras[i as int]);
            lemma_fit_front(seq![Task::Reconcile(i), Task::DropNode(i)], m.agenda);
        },
        Task::NodeCreated(i) | Task::DropNode(i) => {
            lemma_valid_update(m.cameras, i as int, m.done(task, ok).0.cameras[i as int]);
        },
        Task::Resize { camera, .. } | Task::FormatUpdated { camera, .. } => {
            lemma_valid_update(m.cameras, camera as int, m.done(task, ok).0.cameras[camera as int]);
        },
        _ => {},
    }
}

proof fn lemma_done_otherwise(m: WorkerModel, task: Task, ok: bool)
    requires
        m.wf(),
        task_fits(task),
        !(task is StopReader || task is AttachReader || task is SpawnReader || task is ReaderSpawned
            || task is CreateNode || task is NodeCreated || task is DestroyNode || task is DropNode
            || task is Resize || task is FormatUpdated),
    ensures
        m.done(task, ok).0.wf(),
{
    match task {
        Task::Reconcile(i) => {
            lemma_fit_front(seq![Task::Told { camera: i, want: m.wanted(i as int) }], m.agenda);
        },
        Task::Told { camera, .. } => {
            lemma_valid_update(m.cameras, camera as int, m.done(task, ok).0.cameras[camera as int]);
        },
        Task::Connect => {
            lemma_fit_front(seq![Task::Connected], m.agenda);
        },
        _ => {},
    }
}

/// No task makes a valid worker invalid.
pub proof fn lemma_steps_keep_workers_valid(worker: WorkerModel, ok: bool)
    requires
        worker.wf(),
    ensures
        worker.stepped(ok).0.wf(),
        worker.agenda.len() > 0 ==> task_fits(worker.agenda[0]),
{
    if worker.agenda.len() > 0 {
        let popped = WorkerModel { agenda: worker.agenda.skip(1), ..worker };
        let task = worker.agenda[0];
        assert(tasks_fit(popped.agenda) && task_fits(task)) by {
            reveal(tasks_fit);
            assert forall|k: int| 0 <= k < popped.agenda.len() implies task_fits(
                #[trigger] popped.agenda[k],
            ) by {
                assert(popped.agenda[k] == worker.agenda[k + 1]);
            }
        }
        if task is StopReader || task is AttachReader || task is SpawnReader
            || task is ReaderSpawned {
            lemma_done_with_readers(popped, task, ok);
        } else if task is CreateNode || task is NodeCreated || task is DestroyNode
            || task is DropNode || task is Resize || task is FormatUpdated {
            lemma_done_with_nodes(popped, task, ok);
        } else {
            lemma_done_otherwise(popped, task, ok);
        }
    }
}

proof fn lemma_fit_back(agenda: Seq<Task>, tasks: Seq<Task>)
    requires
        tasks_fit(agenda),
        forall|k: int| 0 <= k < tasks.len() ==> task_fits(#[trigger] tasks[k]),
    ensures
        tasks_fit(agenda + tasks),
{
    assert(tasks_fit(tasks)) by {
        reveal(tasks_fit);
    }
    lemma_fit_concat(agenda, tasks);
}

proof fn lemma_stop_readers_fit(n: nat)
    requires
        n <= MAX_CAMERAS,
    ensures
        tasks_fit(stop_readers(n)),
    decreases n,
{
    if n == 0 {
        reveal(tasks_fit);
    } else {
        let i = (n - 1) as usize;
        lemma_stop_readers_fit((n - 1) as nat);
        lemma_fit_back(
            stop_readers((n - 1) as nat),
            seq![Task::StopReader(i), Task::Reconcile(i)],
        );
    }
}

proof fn lemma_destroy_nodes_fit(from: nat, to: nat)
    requires
        to <= MAX_CAMERAS,
    ensures
        tasks_fit(destroy_nodes(from, to)),
    decreases to,
{
    if to <= from {
        reveal(tasks_fit);
    } else {
        lemma_destroy_nodes_fit(from, (to - 1) as nat);
        lemma_fit_back(
            destroy_nodes(from, (to - 1) as nat),
            seq![Task::DestroyNode((to - 1) as usize)],
        );
    }
}

proof fn lemma_keep_nodes_fit(n: nat)
    requires
        n <= MAX_CAMERAS,
    ensures
        tasks_fit(keep_nodes(n)),
    decreases n,
{
    if n == 0 {
        reveal(tasks_fit);
    } else {
        let i = (n - 1) as usize;
        lemma_keep_nodes_fit((n - 1) as nat);
        lemma_fit_back(
            keep_nodes((n - 1) as nat),
            seq![Task::CreateNode(i), Task::Reconcile(i)],
        );
    }
}

proof fn lemma_open_cameras_fit(r: ResourcesModel, n: nat)
    requires
        n <= MAX_CAMERAS,
    ensures
        tasks_fit(open_cameras(r, n)),
    decreases n,
{
    if n == 0 {
        reveal(tasks_fit);
    } else {
        let i = (n - 1) as usize;
        let (width, height) = named_size(r.initial_sizes, i as int);
        lemma_open_cameras_fit(r, (n - 1) as nat);
        lemma_fit_back(
            open_cameras(r, (n - 1) as nat),
            seq![
                Task::Resize { camera: i, width, height },
                Task::CreateNode(i),
                Task::AttachReader { camera: i, stream: r.streams[i as int] },
            ],
        );
    }
}

proof fn lemma_close_streams_fit(fds: Seq<Option<i32>>, from: nat, to: nat)
    ensures
        tasks_fit(close_streams(fds, from, to)),
    decreases to,
{
    if to <= from {
        reveal(tasks_fit);
    } else {
        lemma_close_streams_fit(fds, from, (to - 1) as nat);
        lemma_fit_back(
            close_streams(fds, from, (to - 1) as nat),
            match fds[to - 1] {
                Some(fd) => seq![Task::Close(fd)],
                None => Seq::empty(),
            },
        );
    }
}

proof fn lemma_drop_agenda_fits()
    ensures
        tasks_fit(drop_agenda()),
{
    lemma_destroy_nodes_fit(0, MAX_CAMERAS as nat);
    lemma_fit_back(destroy_nodes(0, MAX_CAMERAS as nat), seq![Task::DropCore]);
}

/// Stopping makes no valid worker invalid.
pub proof fn lemma_shut_down_keeps_workers_valid(worker: WorkerModel)
    requires
        worker.wf(),
    ensures
        worker.shut_down().wf(),
{
    let n = MAX_CAMERAS as nat;
    lemma_stop_readers_fit(n);
    lemma_fit_back(stop_readers(n), seq![Task::DropControl]);
    lemma_drop_agenda_fits();
    lemma_fit_concat(stop_readers(n) + seq![Task::DropControl], drop_agenda());
    lemma_fit_concat(worker.agenda, shutdown_agenda());
}

proof fn lemma_resources_fit(r: ResourcesModel, active: nat)
    requires
        active <= MAX_CAMERAS,
    ensures
        tasks_fit(resources_agenda(r, active)),
{
    let n = camera_count(r);
    lemma_stop_readers_fit(active);
    let a = stop_readers(active) + seq![Task::SwapControl(r.ctrl)];
    lemma_fit_back(stop_readers(active), seq![Task::SwapControl(r.ctrl)]);
    lemma_destroy_nodes_fit(n, active);
    lemma_fit_concat(a, destroy_nodes(n, active));
    let b = a + destroy_nodes(n, active);
    lemma_fit_back(b, seq![Task::Activate(n as usize)]);
    let c = b + seq![Task::Activate(n as usize)];
    lemma_open_cameras_fit(r, n);
    lemma_fit_concat(c, open_cameras(r, n));
    let d = c + open_cameras(r, n);
    lemma_close_streams_fit(r.streams, n, r.streams.len());
    lemma_fit_concat(d, close_streams(r.streams, n, r.streams.len()));
}

/// No command makes a valid worker invalid.
pub proof fn lemma_commands_keep_workers_valid(worker: WorkerModel, command: CommandModel)
    requires
        worker.wf(),
    ensures
        worker.commanded(command).wf(),
{
    match command {
        CommandModel::SetResources(r) => {
            if worker.stopping {
                let rest = close_streams(r.streams, 0, r.streams.len());
                lemma_close_streams_fit(r.streams, 0, r.streams.len());
                lemma_fit_front(close_one(r.ctrl), rest);
                lemma_fit_concat(worker.agenda, close_one(r.ctrl) + rest);
            } else {
                lemma_resources_fit(r, worker.active_cameras as nat);
                lemma_fit_concat(
                    worker.agenda,
                    resources_agenda(r, worker.active_cameras as nat),
                );
            }
        },
        CommandModel::Clear => {
            let n = worker.active_cameras as nat;
            lemma_stop_readers_fit(n);
            lemma_fit_back(stop_readers(n), seq![Task::SwapControl(None)]);
            lemma_fit_concat(
                worker.agenda,
                stop_readers(n) + seq![Task::SwapControl(None)],
            );
        },
        CommandModel::Shutdown => {
            lemma_shut_down_keeps_workers_valid(worker);
        },
    }
}

/// No event makes a valid worker invalid.
pub proof fn lemma_events_keep_workers_valid(worker: WorkerModel, event: WorkerEvent)
    requires
        worker.wf(),
    ensures
        worker.notified(event).wf(),
{
    if !worker.stopping && worker.concerns(event) {
        match event {
            WorkerEvent::Streaming { camera, .. } | WorkerEvent::ReaderClosed { camera, .. } => {
                lemma_valid_update(
                    worker.cameras,
                    camera as int,
                    worker.notified(event).cameras[camera as int],
                );
                lemma_fit_back(worker.agenda, seq![Task::Reconcile(camera)]);
            },
            WorkerEvent::NodeFailed { camera, .. } => {
                lemma_fit_back(worker.agenda, seq![Task::DestroyNode(camera)]);
            },
            WorkerEvent::PipeWireBroken(_) => {
                lemma_drop_agenda_fits();
                lemma_fit_concat(worker.agenda, drop_agenda());
            },
        }
    }
}

/// The timer makes no valid worker invalid.
pub proof fn lemma_maintaining_keeps_workers_valid(worker: WorkerModel)
    requires
        worker.wf(),
    ensures
        worker.maintained().wf(),
{
    let n = worker.active_cameras as nat;
    lemma_keep_nodes_fit(n);
    lemma_fit_concat(worker.agenda, keep_nodes(n));
    lemma_fit_front(seq![Task::Connect], keep_nodes(n));
    lemma_fit_concat(worker.agenda, seq![Task::Connect] + keep_nodes(n));
}

/// No frame makes a valid worker invalid.
pub proof fn lemma_frames_keep_workers_valid(worker: WorkerModel, camera: usize, frame: FrameModel)
    requires
        worker.wf(),
    ensures
        worker.framed(camera, frame).0.wf(),
{
    if worker.acceptable(camera, frame) {
        let c = worker.cameras[camera as int];
        lemma_valid_update(
            worker.cameras,
            camera as int,
            worker.frame_stored(camera, frame).cameras[camera as int],
        );
        lemma_fit_front(
            seq![Task::FormatUpdated { camera, node_generation: c.data.node_generation }],
            worker.agenda,
        );
    }
}

} // verus!
