//! What holds of the camera worker over whole exchanges.
use vstd::prelude::*;

use crate::camera::frame::frame_bytes;
use crate::camera::model::{
    camera_count, close_one, close_streams, destroy_nodes, drop_agenda, open_cameras,
    resources_agenda, shutdown_agenda, stop_readers, task_fits, Action, CommandModel,
    ResourcesModel, Task, WorkerEvent, WorkerModel,
};
use crate::camera::reader::FrameModel;
use crate::camera::validity::lemma_steps_keep_workers_valid;
use crate::camera::wire::MAX_CAMERAS;

verus! {

/// How many steps a task takes at most, with all that it adds.
pub open spec fn task_work(task: Task) -> nat {
    match task {
        Task::StopReader(_) | Task::Reconcile(_) | Task::CreateNode(_) | Task::Connect => 2,
        Task::DestroyNode(_) | Task::SpawnReader { .. } => 4,
        Task::AttachReader { .. } => 7,
        _ => 1,
    }
}

/// How many steps an agenda takes at most.
pub open spec fn work(agenda: Seq<Task>) -> nat
    decreases agenda.len(),
{
    if agenda.len() == 0 {
        0
    } else {
        task_work(agenda[0]) + work(agenda.skip(1))
    }
}

proof fn lemma_work_front(tasks: Seq<Task>, agenda: Seq<Task>)
    ensures
        work(tasks + agenda) == work(tasks) + work(agenda),
    decreases tasks.len(),
{
    if tasks.len() == 0 {
        assert(tasks + agenda =~= agenda);
    } else {
        assert((tasks + agenda).skip(1) =~= tasks.skip(1) + agenda);
        lemma_work_front(tasks.skip(1), agenda);
    }
}

proof fn lemma_work_one(t: Task, agenda: Seq<Task>)
    ensures
        work(seq![t] + agenda) == task_work(t) + work(agenda),
{
    assert((seq![t] + agenda).skip(1) =~= agenda);
}

proof fn lemma_work_two(t: Task, u: Task, agenda: Seq<Task>)
    ensures
        work(seq![t, u] + agenda) == task_work(t) + task_work(u) + work(agenda),
{
    assert((seq![t, u] + agenda).skip(1) =~= seq![u] + agenda);
    lemma_work_one(u, agenda);
}

/// What a task puts in front of the agenda.
pub open spec fn added(m: WorkerModel, task: Task, ok: bool) -> Seq<Task> {
    match task {
        Task::StopReader(i) => seq![Task::ClearMailbox(i)],
        Task::Reconcile(i) => match m.reconciled(i).1 {
            Action::StartRecord { .. } | Action::StopRecord { .. } => seq![
                Task::Told { camera: i, want: m.wanted(i as int) },
            ],
            _ => Seq::empty(),
        },
        Task::Connect => seq![Task::Connected],
        Task::CreateNode(i) => match m.node_created(i).1 {
            Action::CreateNode { .. } => seq![Task::NodeCreated(i)],
            _ => Seq::empty(),
        },
        Task::DestroyNode(i) => seq![Task::Reconcile(i), Task::DropNode(i)],
        Task::AttachReader { camera, stream: Some(fd) } => seq![
            Task::StopReader(camera),
            Task::SpawnReader { camera, fd },
        ],
        Task::AttachReader { camera, stream: None } => seq![
            Task::StopReader(camera),
            Task::Reconcile(camera),
        ],
        Task::SpawnReader { camera, .. } => seq![
            Task::ReaderSpawned(camera),
            Task::Reconcile(camera),
        ],
        _ => Seq::empty(),
    }
}

/// What a task leaves on the agenda.
pub proof fn lemma_added(m: WorkerModel, task: Task, ok: bool)
    ensures
        m.done(task, ok).0.agenda == added(m, task, ok) + m.agenda,
{
    assert(m.done(task, ok).0.agenda =~= added(m, task, ok) + m.agenda);
}

proof fn lemma_added_is_less(m: WorkerModel, task: Task, ok: bool)
    ensures
        work(added(m, task, ok)) < task_work(task),
{
    let tasks = added(m, task, ok);
    assert(tasks + Seq::<Task>::empty() =~= tasks);
    assert(work(Seq::<Task>::empty()) == 0);
    if tasks.len() == 1 {
        lemma_work_one(tasks[0], Seq::empty());
        assert(seq![tasks[0]] + Seq::<Task>::empty() =~= tasks);
    } else if tasks.len() == 2 {
        lemma_work_two(tasks[0], tasks[1], Seq::empty());
        assert(seq![tasks[0], tasks[1]] + Seq::<Task>::empty() =~= tasks);
    }
}

/// Every exchange ends: each step leaves less to do.
pub proof fn law_work_ends(m: WorkerModel, ok: bool)
    requires
        m.agenda.len() > 0,
    ensures
        work(m.stepped(ok).0.agenda) < work(m.agenda),
{
    let popped = WorkerModel { agenda: m.agenda.skip(1), ..m };
    let task = m.agenda[0];
    lemma_added(popped, task, ok);
    lemma_added_is_less(popped, task, ok);
    lemma_work_front(added(popped, task, ok), popped.agenda);
}

/// Where a worker gets when its actions go as `outcomes` says; what it does not cover fails.
pub open spec fn run(m: WorkerModel, outcomes: Seq<bool>) -> WorkerModel
    decreases work(m.agenda),
{
    if m.agenda.len() == 0 {
        m
    } else {
        let ok = outcomes.len() > 0 && outcomes[0];
        proof {
            law_work_ends(m, ok);
        }
        run(m.stepped(ok).0, outcomes.skip(1))
    }
}

/// How often `fd` is meant by a task that owns it.
pub open spec fn task_holds(task: Task, fd: i32) -> nat {
    let owned = match task {
        Task::SwapControl(ctrl) => ctrl,
        Task::Close(f) => Some(f),
        Task::AttachReader { stream, .. } => stream,
        Task::SpawnReader { fd: f, .. } => Some(f),
        _ => None,
    };
    if owned == Some(fd) {
        1
    } else {
        0
    }
}

/// How often the tasks of an agenda own `fd`.
pub open spec fn tasks_hold(agenda: Seq<Task>, fd: i32) -> nat
    decreases agenda.len(),
{
    if agenda.len() == 0 {
        0
    } else {
        task_holds(agenda[0], fd) + tasks_hold(agenda.skip(1), fd)
    }
}

/// How often the worker owns `fd`.
pub open spec fn held(m: WorkerModel, fd: i32) -> nat {
    tasks_hold(m.agenda, fd) + if m.ctrl == Some(fd) {
        1nat
    } else {
        0
    }
}

/// How often an action closes `fd` or hands it to a reader.
pub open spec fn released(action: Action, fd: i32) -> nat {
    match action {
        Action::Close(f) => if f == fd {
            1
        } else {
            0
        },
        Action::SpawnReader { stream, .. } => if stream == fd {
            1
        } else {
            0
        },
        _ => 0,
    }
}

/// How often `fd` is among the first `n` streams.
pub open spec fn streams_hold(streams: Seq<Option<i32>>, n: nat, fd: i32) -> nat
    decreases n,
{
    if n == 0 {
        0
    } else {
        streams_hold(streams, (n - 1) as nat, fd) + if streams[n - 1] == Some(fd) {
            1nat
        } else {
            0
        }
    }
}

/// How often a command brings `fd`.
pub open spec fn brought(command: CommandModel, fd: i32) -> nat {
    match command {
        CommandModel::SetResources(r) => streams_hold(r.streams, r.streams.len(), fd) + if r.ctrl
            == Some(fd) {
            1nat
        } else {
            0
        },
        _ => 0,
    }
}

proof fn lemma_hold_concat(a: Seq<Task>, b: Seq<Task>, fd: i32)
    ensures
        tasks_hold(a + b, fd) == tasks_hold(a, fd) + tasks_hold(b, fd),
    decreases a.len(),
{
    if a.len() == 0 {
        assert(a + b =~= b);
    } else {
        assert((a + b).skip(1) =~= a.skip(1) + b);
        lemma_hold_concat(a.skip(1), b, fd);
    }
}

proof fn lemma_hold_few(tasks: Seq<Task>, fd: i32)
    ensures
        tasks.len() == 0 ==> tasks_hold(tasks, fd) == 0,
        tasks.len() == 1 ==> tasks_hold(tasks, fd) == task_holds(tasks[0], fd),
        tasks.len() == 2 ==> tasks_hold(tasks, fd) == task_holds(tasks[0], fd) + task_holds(
            tasks[1],
            fd,
        ),
        tasks.len() == 3 ==> tasks_hold(tasks, fd) == task_holds(tasks[0], fd) + task_holds(
            tasks[1],
            fd,
        ) + task_holds(tasks[2], fd),
{
    reveal_with_fuel(tasks_hold, 4);
}

/// What a task adds holds what the task held, but for what its action releases and what the
/// control socket was.
proof fn lemma_task_keeps_descriptors(m: WorkerModel, task: Task, ok: bool, fd: i32)
    ensures
        held(m, fd) + task_holds(task, fd) == held(m.done(task, ok).0, fd) + released(
            m.done(task, ok).1,
            fd,
        ),
{
    let tasks = added(m, task, ok);
    lemma_added(m, task, ok);
    lemma_hold_concat(tasks, m.agenda, fd);
    lemma_hold_few(tasks, fd);
}

/// Each descriptor has one owner: it stays in the worker's hands until it is closed or handed to
/// a reader, and that happens once.
pub proof fn law_descriptors_have_one_owner(m: WorkerModel, ok: bool, fd: i32)
    ensures
        held(m, fd) == held(m.stepped(ok).0, fd) + released(m.stepped(ok).1, fd),
{
    if m.agenda.len() > 0 {
        let popped = WorkerModel { agenda: m.agenda.skip(1), ..m };
        lemma_task_keeps_descriptors(popped, m.agenda[0], ok, fd);
    }
}

proof fn lemma_stop_readers_hold(n: nat, fd: i32)
    ensures
        tasks_hold(stop_readers(n), fd) == 0,
    decreases n,
{
    if n > 0 {
        let tasks = seq![
            Task::StopReader((n - 1) as usize),
            Task::Reconcile((n - 1) as usize),
        ];
        lemma_stop_readers_hold((n - 1) as nat, fd);
        lemma_hold_concat(stop_readers((n - 1) as nat), tasks, fd);
        lemma_hold_few(tasks, fd);
    }
}

proof fn lemma_destroy_nodes_hold(from: nat, to: nat, fd: i32)
    ensures
        tasks_hold(destroy_nodes(from, to), fd) == 0,
    decreases to,
{
    if to > from {
        let tasks = seq![Task::DestroyNode((to - 1) as usize)];
        lemma_destroy_nodes_hold(from, (to - 1) as nat, fd);
        lemma_hold_concat(destroy_nodes(from, (to - 1) as nat), tasks, fd);
        lemma_hold_few(tasks, fd);
    }
}

proof fn lemma_open_cameras_hold(r: ResourcesModel, n: nat, fd: i32)
    requires
        n <= r.streams.len(),
        n <= MAX_CAMERAS,
    ensures
        tasks_hold(open_cameras(r, n), fd) == streams_hold(r.streams, n, fd),
    decreases n,
{
    if n > 0 {
        let i = (n - 1) as usize;
        let (width, height) = crate::camera::model::named_size(r.initial_sizes, i as int);
        let tasks = seq![
            Task::Resize { camera: i, width, height },
            Task::CreateNode(i),
            Task::AttachReader { camera: i, stream: r.streams[i as int] },
        ];
        lemma_open_cameras_hold(r, (n - 1) as nat, fd);
        lemma_hold_concat(open_cameras(r, (n - 1) as nat), tasks, fd);
        lemma_hold_few(tasks, fd);
    }
}

proof fn lemma_close_streams_hold(streams: Seq<Option<i32>>, from: nat, to: nat, fd: i32)
    requires
        from <= to,
    ensures
        tasks_hold(close_streams(streams, from, to), fd) + streams_hold(streams, from, fd)
            == streams_hold(streams, to, fd),
    decreases to,
{
    if to > from {
        let tasks = match streams[to - 1] {
            Some(f) => seq![Task::Close(f)],
            None => Seq::empty(),
        };
        lemma_close_streams_hold(streams, from, (to - 1) as nat, fd);
        lemma_hold_concat(close_streams(streams, from, (to - 1) as nat), tasks, fd);
        lemma_hold_few(tasks, fd);
    }
}

/// A command puts every descriptor that it brings into the worker's hands, also when the worker
/// is stopped: it then closes them.
pub proof fn law_commands_hand_over_their_descriptors(
    m: WorkerModel,
    command: CommandModel,
    fd: i32,
)
    ensures
        held(m.commanded(command), fd) == held(m, fd) + brought(command, fd),
{
    match command {
        CommandModel::SetResources(r) => {
            let n = camera_count(r);
            if m.stopping {
                let rest = close_streams(r.streams, 0, r.streams.len());
                lemma_close_streams_hold(r.streams, 0, r.streams.len(), fd);
                lemma_hold_concat(close_one(r.ctrl), rest, fd);
                lemma_hold_few(close_one(r.ctrl), fd);
                lemma_hold_concat(m.agenda, close_one(r.ctrl) + rest, fd);
            } else {
                let active = m.active_cameras as nat;
                let a = stop_readers(active);
                let b = seq![Task::SwapControl(r.ctrl)];
                let c = destroy_nodes(n, active);
                let d = seq![Task::Activate(n as usize)];
                let e = open_cameras(r, n);
                let f = close_streams(r.streams, n, r.streams.len());
                lemma_stop_readers_hold(active, fd);
                lemma_hold_few(b, fd);
                lemma_destroy_nodes_hold(n, active, fd);
                lemma_hold_few(d, fd);
                lemma_open_cameras_hold(r, n, fd);
                lemma_close_streams_hold(r.streams, n, r.streams.len(), fd);
                lemma_hold_concat(a, b, fd);
                lemma_hold_concat(a + b, c, fd);
                lemma_hold_concat(a + b + c, d, fd);
                lemma_hold_concat(a + b + c + d, e, fd);
                lemma_hold_concat(a + b + c + d + e, f, fd);
                lemma_hold_concat(m.agenda, resources_agenda(r, active), fd);
            }
        },
        CommandModel::Clear => {
            let a = stop_readers(m.active_cameras as nat);
            let b = seq![Task::SwapControl(None)];
            lemma_stop_readers_hold(m.active_cameras as nat, fd);
            lemma_hold_few(b, fd);
            lemma_hold_concat(a, b, fd);
            lemma_hold_concat(m.agenda, a + b, fd);
        },
        CommandModel::Shutdown => {
            let n = MAX_CAMERAS as nat;
            let a = stop_readers(n);
            let b = seq![Task::DropControl];
            let c = destroy_nodes(0, n);
            let d = seq![Task::DropCore];
            lemma_stop_readers_hold(n, fd);
            lemma_hold_few(b, fd);
            lemma_destroy_nodes_hold(0, n, fd);
            lemma_hold_few(d, fd);
            lemma_hold_concat(c, d, fd);
            lemma_hold_concat(a, b, fd);
            lemma_hold_concat(a + b, drop_agenda(), fd);
            lemma_hold_concat(m.agenda, shutdown_agenda(), fd);
        },
    }
}

/// A task that belongs to stopping.
pub open spec fn is_closing(task: Task) -> bool {
    task is StopReader || task is ClearMailbox || task is Reconcile || task is Told
        || task is DropControl || task is DestroyNode || task is DropNode || task is DropCore
}

/// A task that belongs to letting the consumer go.
pub open spec fn is_clearing(task: Task) -> bool {
    task is StopReader || task is ClearMailbox || task is Reconcile || task is Told || task
        == Task::SwapControl(None)
}

/// Only such tasks are left.
#[verifier::opaque]
pub open spec fn only_closing(agenda: Seq<Task>) -> bool {
    forall|k: int| 0 <= k < agenda.len() ==> is_closing(#[trigger] agenda[k])
}

#[verifier::opaque]
pub open spec fn only_clearing(agenda: Seq<Task>) -> bool {
    forall|k: int| 0 <= k < agenda.len() ==> is_clearing(#[trigger] agenda[k])
}

/// `task` is still to be done.
#[verifier::opaque]
pub open spec fn due(agenda: Seq<Task>, task: Task) -> bool {
    exists|k: int| 0 <= k < agenda.len() && #[trigger] agenda[k] == task
}

proof fn lemma_due_none(task: Task)
    ensures
        !due(Seq::empty(), task),
{
    reveal(due);
}

proof fn lemma_due_after(agenda: Seq<Task>, tasks: Seq<Task>, task: Task)
    requires
        agenda.len() > 0,
        due(agenda, task),
    ensures
        agenda[0] == task || due(tasks + agenda.skip(1), task),
{
    reveal(due);
    let k = choose|k: int| 0 <= k < agenda.len() && #[trigger] agenda[k] == task;
    let next = tasks + agenda.skip(1);
    if k > 0 {
        assert(next[tasks.len() + k - 1] == task);
    }
}

proof fn lemma_due_in_front(tasks: Seq<Task>, agenda: Seq<Task>, k: int)
    requires
        0 <= k < tasks.len(),
    ensures
        due(tasks + agenda, tasks[k]),
{
    reveal(due);
    assert((tasks + agenda)[k] == tasks[k]);
}

proof fn lemma_due_concat(a: Seq<Task>, b: Seq<Task>, task: Task)
    requires
        due(a, task) || due(b, task),
    ensures
        due(a + b, task),
{
    reveal(due);
    if due(a, task) {
        let k = choose|k: int| 0 <= k < a.len() && #[trigger] a[k] == task;
        assert((a + b)[k] == task);
    } else {
        let k = choose|k: int| 0 <= k < b.len() && #[trigger] b[k] == task;
        assert((a + b)[a.len() + k] == task);
    }
}

proof fn lemma_stop_readers_due(n: nat, i: nat)
    requires
        i < n <= MAX_CAMERAS,
    ensures
        due(stop_readers(n), Task::StopReader(i as usize)),
    decreases n,
{
    let before = stop_readers((n - 1) as nat);
    let tasks = seq![
        Task::StopReader((n - 1) as usize),
        Task::Reconcile((n - 1) as usize),
    ];
    if i < n - 1 {
        lemma_stop_readers_due((n - 1) as nat, i);
    } else {
        lemma_due_in_front(tasks, Seq::empty(), 0);
        assert(tasks + Seq::<Task>::empty() =~= tasks);
    }
    lemma_due_concat(before, tasks, Task::StopReader(i as usize));
}

proof fn lemma_destroy_nodes_due(n: nat, i: nat)
    requires
        i < n <= MAX_CAMERAS,
    ensures
        due(destroy_nodes(0, n), Task::DestroyNode(i as usize)),
    decreases n,
{
    let before = destroy_nodes(0, (n - 1) as nat);
    let tasks = seq![Task::DestroyNode((n - 1) as usize)];
    if i < n - 1 {
        lemma_destroy_nodes_due((n - 1) as nat, i);
    } else {
        lemma_due_in_front(tasks, Seq::empty(), 0);
        assert(tasks + Seq::<Task>::empty() =~= tasks);
    }
    lemma_due_concat(before, tasks, Task::DestroyNode(i as usize));
}

proof fn lemma_closing_concat(a: Seq<Task>, b: Seq<Task>)
    requires
        only_closing(a),
        only_closing(b),
    ensures
        only_closing(a + b),
{
    reveal(only_closing);
    let both = a + b;
    assert forall|k: int| 0 <= k < both.len() implies is_closing(#[trigger] both[k]) by {
        if k >= a.len() {
            assert(both[k] == b[k - a.len()]);
        }
    }
}

proof fn lemma_clearing_concat(a: Seq<Task>, b: Seq<Task>)
    requires
        only_clearing(a),
        only_clearing(b),
    ensures
        only_clearing(a + b),
{
    reveal(only_clearing);
    let both = a + b;
    assert forall|k: int| 0 <= k < both.len() implies is_clearing(#[trigger] both[k]) by {
        if k >= a.len() {
            assert(both[k] == b[k - a.len()]);
        }
    }
}

proof fn lemma_stop_readers_only(n: nat)
    ensures
        only_closing(stop_readers(n)),
        only_clearing(stop_readers(n)),
    decreases n,
{
    if n == 0 {
        reveal(only_closing);
        reveal(only_clearing);
    } else {
        let tasks = seq![
            Task::StopReader((n - 1) as usize),
            Task::Reconcile((n - 1) as usize),
        ];
        lemma_stop_readers_only((n - 1) as nat);
        assert(only_closing(tasks) && only_clearing(tasks)) by {
            reveal(only_closing);
            reveal(only_clearing);
        }
        lemma_closing_concat(stop_readers((n - 1) as nat), tasks);
        lemma_clearing_concat(stop_readers((n - 1) as nat), tasks);
    }
}

proof fn lemma_destroy_nodes_only(from: nat, to: nat)
    ensures
        only_closing(destroy_nodes(from, to)),
    decreases to,
{
    if to <= from {
        reveal(only_closing);
    } else {
        let tasks = seq![Task::DestroyNode((to - 1) as usize)];
        lemma_destroy_nodes_only(from, (to - 1) as nat);
        assert(only_closing(tasks)) by {
            reveal(only_closing);
        }
        lemma_closing_concat(destroy_nodes(from, (to - 1) as nat), tasks);
    }
}

/// Whatever camera `i` still has, and the control socket and the connection, something on the
/// agenda lets go; nothing on it adds anything.
pub open spec fn closing(m: WorkerModel, i: nat) -> bool {
    &&& only_closing(m.agenda)
    &&& m.cameras[i as int].reader ==> due(m.agenda, Task::StopReader(i as usize))
    &&& m.cameras[i as int].data.live ==> due(m.agenda, Task::StopReader(i as usize))
    &&& m.cameras[i as int].node ==> due(m.agenda, Task::DestroyNode(i as usize)) || due(
        m.agenda,
        Task::DropNode(i as usize),
    )
    &&& m.ctrl is Some ==> due(m.agenda, Task::DropControl)
    &&& m.core ==> due(m.agenda, Task::DropCore)
}

proof fn lemma_closing_step(m: WorkerModel, ok: bool, i: nat)
    requires
        m.wf(),
        m.agenda.len() > 0,
        i < MAX_CAMERAS,
        closing(m, i),
    ensures
        closing(m.stepped(ok).0, i),
        m.stepped(ok).0.stopping == m.stopping,
{
    let popped = WorkerModel { agenda: m.agenda.skip(1), ..m };
    let task = m.agenda[0];
    let tasks = added(popped, task, ok);
    lemma_steps_keep_workers_valid(m, ok);
    lemma_added(popped, task, ok);
    assert(is_closing(task) && only_closing(popped.agenda)) by {
        reveal(only_closing);
        assert forall|k: int| 0 <= k < popped.agenda.len() implies is_closing(
            #[trigger] popped.agenda[k],
        ) by {
            assert(popped.agenda[k] == m.agenda[k + 1]);
        }
    }
    assert(only_closing(tasks)) by {
        reveal(only_closing);
    }
    lemma_closing_concat(tasks, popped.agenda);
    let stop = Task::StopReader(i as usize);
    let destroy = Task::DestroyNode(i as usize);
    let drop = Task::DropNode(i as usize);
    if due(m.agenda, stop) {
        lemma_due_after(m.agenda, tasks, stop);
    }
    if due(m.agenda, destroy) {
        lemma_due_after(m.agenda, tasks, destroy);
    }
    if due(m.agenda, drop) {
        lemma_due_after(m.agenda, tasks, drop);
    }
    if due(m.agenda, Task::DropControl) {
        lemma_due_after(m.agenda, tasks, Task::DropControl);
    }
    if due(m.agenda, Task::DropCore) {
        lemma_due_after(m.agenda, tasks, Task::DropCore);
    }
    if task == destroy {
        lemma_due_in_front(tasks, popped.agenda, 1);
    }
}

proof fn lemma_closing_run(m: WorkerModel, outcomes: Seq<bool>, i: nat)
    requires
        m.wf(),
        i < MAX_CAMERAS,
        closing(m, i),
    ensures
        ({
            let end = run(m, outcomes);
            &&& end.agenda.len() == 0
            &&& end.stopping == m.stopping
            &&& end.cameras.len() == MAX_CAMERAS
            &&& !end.cameras[i as int].reader
            &&& !end.cameras[i as int].data.live
            &&& !end.cameras[i as int].node
            &&& end.ctrl is None
            &&& !end.core
        }),
    decreases work(m.agenda),
{
    if m.agenda.len() == 0 {
        assert(m.agenda =~= Seq::empty());
        lemma_due_none(Task::StopReader(i as usize));
        lemma_due_none(Task::DestroyNode(i as usize));
        lemma_due_none(Task::DropNode(i as usize));
        lemma_due_none(Task::DropControl);
        lemma_due_none(Task::DropCore);
    } else {
        let ok = outcomes.len() > 0 && outcomes[0];
        law_work_ends(m, ok);
        lemma_closing_step(m, ok, i);
        lemma_steps_keep_workers_valid(m, ok);
        lemma_closing_run(m.stepped(ok).0, outcomes.skip(1), i);
    }
}

/// Stopping leaves nothing behind, however the actions go: no reader, no stream, no node, no
/// control socket, no connection. The worker stays stopped.
pub proof fn law_shutdown_releases_everything(m: WorkerModel, outcomes: Seq<bool>)
    requires
        m.wf(),
        m.agenda.len() == 0,
        !m.stopping,
    ensures
        ({
            let end = run(m.shut_down(), outcomes);
            &&& end.stopping
            &&& end.agenda.len() == 0
            &&& end.ctrl is None
            &&& !end.core
            &&& forall|i: int|
                0 <= i < MAX_CAMERAS ==> !(#[trigger] end.cameras[i]).reader
                    && !end.cameras[i].node && !end.cameras[i].data.live
        }),
{
    let start = m.shut_down();
    let n = MAX_CAMERAS as nat;
    let control = seq![Task::DropControl];
    let core = seq![Task::DropCore];
    let end = run(start, outcomes);
    assert(start.agenda =~= shutdown_agenda());
    crate::camera::validity::lemma_shut_down_keeps_workers_valid(m);
    lemma_stop_readers_only(n);
    lemma_destroy_nodes_only(0, n);
    assert(only_closing(control) && only_closing(core)) by {
        reveal(only_closing);
    }
    lemma_closing_concat(stop_readers(n), control);
    lemma_closing_concat(destroy_nodes(0, n), core);
    lemma_closing_concat(stop_readers(n) + control, drop_agenda());
    assert(due(control, Task::DropControl) && due(core, Task::DropCore)) by {
        lemma_due_in_front(control, Seq::empty(), 0);
        assert(control + Seq::<Task>::empty() =~= control);
        lemma_due_in_front(core, Seq::empty(), 0);
        assert(core + Seq::<Task>::empty() =~= core);
    }
    lemma_due_concat(stop_readers(n), control, Task::DropControl);
    lemma_due_concat(stop_readers(n) + control, drop_agenda(), Task::DropControl);
    lemma_due_concat(destroy_nodes(0, n), core, Task::DropCore);
    lemma_due_concat(stop_readers(n) + control, drop_agenda(), Task::DropCore);
    assert forall|i: int| 0 <= i < MAX_CAMERAS implies !(#[trigger] end.cameras[i]).reader
        && !end.cameras[i].node && !end.cameras[i].data.live && end.ctrl is None && !end.core
        && end.stopping && end.agenda.len() == 0 by {
        let stop = Task::StopReader(i as usize);
        let destroy = Task::DestroyNode(i as usize);
        lemma_stop_readers_due(n, i as nat);
        lemma_due_concat(stop_readers(n), control, stop);
        lemma_due_concat(stop_readers(n) + control, drop_agenda(), stop);
        lemma_destroy_nodes_due(n, i as nat);
        lemma_due_concat(destroy_nodes(0, n), core, destroy);
        lemma_due_concat(stop_readers(n) + control, drop_agenda(), destroy);
        lemma_closing_run(start, outcomes, i as nat);
    }
    assert(!end.cameras[0].reader);
}

/// The consumer is being let go, and camera `i` is as `start` had it but for its stream.
pub open spec fn clearing(m: WorkerModel, start: WorkerModel, i: nat) -> bool {
    &&& only_clearing(m.agenda)
    &&& m.core == start.core
    &&& m.active_cameras == start.active_cameras
    &&& m.stopping == start.stopping
    &&& m.cameras[i as int].node == start.cameras[i as int].node
    &&& m.cameras[i as int].data.width == start.cameras[i as int].data.width
    &&& m.cameras[i as int].data.height == start.cameras[i as int].data.height
    &&& m.cameras[i as int].data.streaming == start.cameras[i as int].data.streaming
    &&& m.cameras[i as int].data.node_generation == start.cameras[i as int].data.node_generation
    &&& m.cameras[i as int].reader ==> due(m.agenda, Task::StopReader(i as usize))
    &&& m.cameras[i as int].data.live ==> due(m.agenda, Task::StopReader(i as usize))
    &&& m.ctrl is Some ==> due(m.agenda, Task::SwapControl(None))
}

/// A task that lets the consumer go concerns nothing of a camera but its stream.
proof fn lemma_clearing_camera(m: WorkerModel, task: Task, ok: bool, i: nat)
    requires
        m.cameras.len() == MAX_CAMERAS,
        task_fits(task),
        is_clearing(task),
        i < MAX_CAMERAS,
    ensures
        ({
            let after = m.done(task, ok).0;
            let (b, a) = (m.cameras[i as int], after.cameras[i as int]);
            &&& after.core == m.core
            &&& after.active_cameras == m.active_cameras
            &&& after.stopping == m.stopping
            &&& a.node == b.node
            &&& a.data.width == b.data.width
            &&& a.data.height == b.data.height
            &&& a.data.streaming == b.data.streaming
            &&& a.data.node_generation == b.data.node_generation
            &&& a.reader ==> b.reader && task != Task::StopReader(i as usize)
            &&& a.data.live ==> b.data.live && task != Task::StopReader(i as usize)
            &&& after.ctrl is Some ==> m.ctrl is Some && task != Task::SwapControl(None)
        }),
{
}

/// What a task of that kind adds is of that kind.
proof fn lemma_clearing_added(m: WorkerModel, task: Task, ok: bool)
    requires
        is_clearing(task),
    ensures
        only_clearing(added(m, task, ok)),
{
    reveal(only_clearing);
}

proof fn lemma_clearing_step(m: WorkerModel, start: WorkerModel, ok: bool, i: nat)
    requires
        m.wf(),
        m.agenda.len() > 0,
        i < MAX_CAMERAS,
        clearing(m, start, i),
    ensures
        clearing(m.stepped(ok).0, start, i),
{
    let popped = WorkerModel { agenda: m.agenda.skip(1), ..m };
    let task = m.agenda[0];
    let tasks = added(popped, task, ok);
    lemma_steps_keep_workers_valid(m, ok);
    lemma_added(popped, task, ok);
    assert(is_clearing(task) && only_clearing(popped.agenda)) by {
        reveal(only_clearing);
        assert forall|k: int| 0 <= k < popped.agenda.len() implies is_clearing(
            #[trigger] popped.agenda[k],
        ) by {
            assert(popped.agenda[k] == m.agenda[k + 1]);
        }
    }
    lemma_clearing_added(popped, task, ok);
    lemma_clearing_concat(tasks, popped.agenda);
    lemma_clearing_camera(popped, task, ok, i);
    if due(m.agenda, Task::StopReader(i as usize)) {
        lemma_due_after(m.agenda, tasks, Task::StopReader(i as usize));
    }
    if due(m.agenda, Task::SwapControl(None)) {
        lemma_due_after(m.agenda, tasks, Task::SwapControl(None));
    }
}

proof fn lemma_clearing_run(m: WorkerModel, start: WorkerModel, outcomes: Seq<bool>, i: nat)
    requires
        m.wf(),
        i < MAX_CAMERAS,
        clearing(m, start, i),
    ensures
        clearing(run(m, outcomes), start, i),
        run(m, outcomes).agenda.len() == 0,
        run(m, outcomes).wf(),
    decreases work(m.agenda),
{
    if m.agenda.len() > 0 {
        let ok = outcomes.len() > 0 && outcomes[0];
        law_work_ends(m, ok);
        lemma_clearing_step(m, start, ok, i);
        lemma_steps_keep_workers_valid(m, ok);
        lemma_clearing_run(m.stepped(ok).0, start, outcomes.skip(1), i);
    }
}

/// Letting the consumer go keeps every node and its size, and whoever watches it: the cameras are
/// published as before. No camera has a stream then, so each of them shows grey, and there is no
/// control socket.
pub proof fn law_clear_keeps_the_nodes(m: WorkerModel, outcomes: Seq<bool>, i: nat)
    requires
        m.wf(),
        m.agenda.len() == 0,
        !m.stopping,
        i < m.active_cameras,
    ensures
        ({
            let end = run(m.commanded(CommandModel::Clear), outcomes);
            let (before, after) = (m.cameras[i as int], end.cameras[i as int]);
            &&& end.agenda.len() == 0
            &&& end.ctrl is None
            &&& end.core == m.core
            &&& end.active_cameras == m.active_cameras
            &&& after.node == before.node
            &&& after.data.width == before.data.width
            &&& after.data.height == before.data.height
            &&& after.data.streaming == before.data.streaming
            &&& after.data.node_generation == before.data.node_generation
            &&& !after.reader
            &&& !after.data.live
            &&& !after.data.have_frame
        }),
{
    let start = m.commanded(CommandModel::Clear);
    let n = m.active_cameras as nat;
    let control = seq![Task::SwapControl(None)];
    let stop = Task::StopReader(i as usize);
    assert(start.agenda =~= stop_readers(n) + control);
    crate::camera::validity::lemma_commands_keep_workers_valid(m, CommandModel::Clear);
    lemma_stop_readers_only(n);
    assert(only_clearing(control)) by {
        reveal(only_clearing);
    }
    lemma_clearing_concat(stop_readers(n), control);
    lemma_stop_readers_due(n, i);
    lemma_due_concat(stop_readers(n), control, stop);
    lemma_due_in_front(control, Seq::empty(), 0);
    assert(control + Seq::<Task>::empty() =~= control);
    lemma_due_concat(stop_readers(n), control, Task::SwapControl(None));
    lemma_clearing_run(start, m, outcomes, i);
    let end = run(start, outcomes);
    assert(end.agenda =~= Seq::empty());
    lemma_due_none(stop);
    lemma_due_none(Task::SwapControl(None));
    assert(end.cameras[i as int].data.wf()) by {
        reveal(crate::camera::model::cameras_valid);
    }
}

/// The service records exactly what is watched: once it could be told, what it was told is what
/// is wanted. Where the size is not one of a frame, it cannot be told to start.
pub proof fn law_recording_follows_demand(m: WorkerModel, i: usize)
    requires
        m.wf(),
        i < MAX_CAMERAS,
        m.agenda == seq![Task::Reconcile(i)],
        m.ctrl is Some,
        frame_bytes(m.cameras[i as int].data.width, m.cameras[i as int].data.height) is Some,
    ensures
        ({
            let end = run(m, seq![true, true]);
            &&& end.agenda.len() == 0
            &&& end.recorded(i as int) == m.wanted(i as int)
            &&& end.wanted(i as int) == m.wanted(i as int)
        }),
{
    reveal_with_fuel(run, 3);
    let o = seq![true, true];
    assert(o[0] && o.skip(1)[0]);
    assert(m.agenda.skip(1) =~= Seq::empty());
    let one = m.stepped(true).0;
    if one.agenda.len() > 0 {
        assert(one.agenda[0] == (Task::Told { camera: i, want: m.wanted(i as int) }));
        assert(one.agenda.skip(1) =~= Seq::empty());
    }
}

/// What a reader, a node or a connection still sends after it was replaced is ignored, and so are
/// the frames that an old reader left.
pub proof fn law_late_events_are_ignored(m: WorkerModel, i: usize, streaming: bool, f: FrameModel)
    requires
        m.wf(),
        i < MAX_CAMERAS,
    ensures
        ({
            let was = m.cameras[i as int].data;
            let stopped = m.reader_stopped(i).0;
            let destroyed = m.done(Task::DestroyNode(i), true).0;
            &&& !stopped.concerns(
                WorkerEvent::ReaderClosed { camera: i, stream_generation: was.stream_generation },
            )
            &&& f.stream_generation == was.stream_generation ==> !stopped.acceptable(i, f)
            &&& !destroyed.concerns(
                WorkerEvent::NodeFailed { camera: i, node_generation: was.node_generation },
            )
            &&& !destroyed.concerns(
                WorkerEvent::Streaming {
                    camera: i,
                    node_generation: was.node_generation,
                    streaming,
                },
            )
        }),
        !m.core && !m.stopping ==> !m.maintained().concerns(
            WorkerEvent::PipeWireBroken(m.core_generation),
        ),
{
}

/// A worker that is stopped stays as it is: events, frames and the timer change nothing, and a
/// second shutdown does nothing.
pub proof fn law_a_stopped_worker_stays_so(
    m: WorkerModel,
    event: WorkerEvent,
    camera: usize,
    frame: FrameModel,
)
    requires
        m.stopping,
    ensures
        m.notified(event) == m,
        m.framed(camera, frame) == (m, Action::Nothing),
        m.maintained() == m,
        m.shut_down() == m,
        m.commanded(CommandModel::Clear) == m,
        m.commanded(CommandModel::Shutdown) == m,
{
}

} // verus!
