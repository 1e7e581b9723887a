//! What becomes of the cameras when the worker is given new resources, and every action succeeds.
use vstd::prelude::*;

use crate::camera::laws::{added, law_work_ends, lemma_added, work};
use crate::camera::model::{
    camera_count, close_streams, destroy_nodes, named_size, open_cameras, resources_agenda,
    stop_readers, task_camera, CameraModel, CommandModel, ResourcesModel, Task, WorkerModel,
};
use crate::camera::validity::{lemma_commands_keep_workers_valid, lemma_steps_keep_workers_valid};
use crate::camera::wire::MAX_CAMERAS;

verus! {

/// Where a worker gets when every action succeeds.
pub open spec fn run_ok(m: WorkerModel) -> WorkerModel
    decreases work(m.agenda),
{
    if m.agenda.len() == 0 {
        m
    } else {
        proof {
            law_work_ends(m, true);
        }
        run_ok(m.stepped(true).0)
    }
}

/// The same worker with another agenda.
pub open spec fn with_agenda(m: WorkerModel, agenda: Seq<Task>) -> WorkerModel {
    WorkerModel { agenda, ..m }
}

/// No task on the agenda is about this camera.
#[verifier::opaque]
pub open spec fn leaves_camera(agenda: Seq<Task>, i: int) -> bool {
    forall|k: int|
        0 <= k < agenda.len() ==> (task_camera(#[trigger] agenda[k]) matches Some(c) ==> c != i)
}

/// A task that is about cameras alone.
pub open spec fn is_local(task: Task) -> bool {
    !(task is SwapControl || task is DropControl || task is Activate || task is Connect
        || task is Connected || task is DropCore)
}

/// All tasks on the agenda are about cameras alone.
#[verifier::opaque]
pub open spec fn only_local(agenda: Seq<Task>) -> bool {
    forall|k: int| 0 <= k < agenda.len() ==> is_local(#[trigger] agenda[k])
}

proof fn lemma_local_concat(a: Seq<Task>, b: Seq<Task>)
    requires
        only_local(a),
        only_local(b),
    ensures
        only_local(a + b),
{
    reveal(only_local);
    let both = a + b;
    assert forall|k: int| 0 <= k < both.len() implies is_local(#[trigger] both[k]) by {
        if k >= a.len() {
            assert(both[k] == b[k - a.len()]);
        }
    }
}

proof fn lemma_leaves_concat(a: Seq<Task>, b: Seq<Task>, i: int)
    requires
        leaves_camera(a, i),
        leaves_camera(b, i),
    ensures
        leaves_camera(a + b, i),
{
    reveal(leaves_camera);
    let both = a + b;
    assert forall|k: int| 0 <= k < both.len() implies (task_camera(
        #[trigger] both[k],
    ) matches Some(c) ==> c != i) by {
        if k >= a.len() {
            assert(both[k] == b[k - a.len()]);
        }
    }
}

proof fn lemma_first_task(agenda: Seq<Task>, i: int)
    requires
        agenda.len() > 0,
    ensures
        only_local(agenda) ==> is_local(agenda[0]) && only_local(agenda.skip(1)),
        leaves_camera(agenda, i) ==> leaves_camera(agenda.skip(1), i) && (task_camera(
            agenda[0],
        ) matches Some(c) ==> c != i),
{
    reveal(only_local);
    reveal(leaves_camera);
    assert forall|k: int| 0 <= k < agenda.skip(1).len() implies agenda.skip(1)[k] == agenda[k + 1] by {
    }
}

/// A task changes the worker in the same way whatever follows it.
proof fn lemma_done_ignores_the_rest(m: WorkerModel, a: Seq<Task>, b: Seq<Task>, task: Task)
    ensures
        with_agenda(with_agenda(m, a).done(task, true).0, Seq::empty()) == with_agenda(
            with_agenda(m, b).done(task, true).0,
            Seq::empty(),
        ),
        added(with_agenda(m, a), task, true) == added(with_agenda(m, b), task, true),
{
}

/// Tasks that follow others see what these left.
proof fn lemma_run_in_turn(m: WorkerModel, a: Seq<Task>, b: Seq<Task>)
    ensures
        run_ok(with_agenda(m, a + b)) == run_ok(with_agenda(run_ok(with_agenda(m, a)), b)),
    decreases work(a),
{
    if a.len() == 0 {
        assert(a + b =~= b);
        assert(with_agenda(run_ok(with_agenda(m, a)), b) == with_agenda(m, b));
    } else {
        let task = a[0];
        let (long, short) = (with_agenda(m, a + b), with_agenda(m, a));
        assert((a + b).skip(1) =~= a.skip(1) + b);
        lemma_done_ignores_the_rest(m, a.skip(1) + b, a.skip(1), task);
        lemma_added(with_agenda(m, a.skip(1) + b), task, true);
        lemma_added(with_agenda(m, a.skip(1)), task, true);
        let next = short.stepped(true).0;
        let rest = next.agenda;
        law_work_ends(short, true);
        assert(long.stepped(true).0.agenda =~= rest + b);
        assert(long.stepped(true).0 == with_agenda(next, rest + b));
        lemma_run_in_turn(next, rest, b);
        assert(with_agenda(next, rest) == next);
    }
}

/// Tasks about cameras alone leave the rest of the worker, and cameras that they are not about.
proof fn lemma_local_run(m: WorkerModel, i: int)
    requires
        m.wf(),
        only_local(m.agenda),
        0 <= i < MAX_CAMERAS,
    ensures
        run_ok(m).wf(),
        run_ok(m).agenda.len() == 0,
        run_ok(m).ctrl == m.ctrl,
        run_ok(m).active_cameras == m.active_cameras,
        run_ok(m).core == m.core,
        run_ok(m).stopping == m.stopping,
        leaves_camera(m.agenda, i) ==> run_ok(m).cameras[i] == m.cameras[i],
    decreases work(m.agenda),
{
    if m.agenda.len() > 0 {
        let popped = with_agenda(m, m.agenda.skip(1));
        let task = m.agenda[0];
        let next = m.stepped(true).0;
        law_work_ends(m, true);
        lemma_steps_keep_workers_valid(m, true);
        lemma_first_task(m.agenda, i);
        lemma_added(popped, task, true);
        let tasks = added(popped, task, true);
        assert(only_local(tasks)) by {
            reveal(only_local);
        }
        lemma_local_concat(tasks, popped.agenda);
        if leaves_camera(m.agenda, i) {
            assert(leaves_camera(tasks, i)) by {
                reveal(leaves_camera);
            }
            lemma_leaves_concat(tasks, popped.agenda, i);
            lemma_other_camera_stays(popped, task, i);
        }
        lemma_local_done(popped, task);
        lemma_local_run(next, i);
    }
}

proof fn lemma_other_camera_stays(m: WorkerModel, task: Task, i: int)
    requires
        0 <= i < m.cameras.len(),
        task_camera(task) matches Some(c) ==> c != i && c < m.cameras.len(),
    ensures
        m.done(task, true).0.cameras[i] == m.cameras[i],
{
}

proof fn lemma_local_done(m: WorkerModel, task: Task)
    requires
        is_local(task),
    ensures
        m.done(task, true).0.ctrl == m.ctrl,
        m.done(task, true).0.active_cameras == m.active_cameras,
        m.done(task, true).0.core == m.core,
        m.done(task, true).0.stopping == m.stopping,
{
}

proof fn lemma_stop_readers_local(n: nat)
    ensures
        only_local(stop_readers(n)),
    decreases n,
{
    if n == 0 {
        reveal(only_local);
    } else {
        let tasks = seq![
            Task::StopReader((n - 1) as usize),
            Task::Reconcile((n - 1) as usize),
        ];
        lemma_stop_readers_local((n - 1) as nat);
        assert(only_local(tasks)) by {
            reveal(only_local);
        }
        lemma_local_concat(stop_readers((n - 1) as nat), tasks);
    }
}

proof fn lemma_destroy_nodes_local(from: nat, to: nat)
    ensures
        only_local(destroy_nodes(from, to)),
    decreases to,
{
    if to <= from {
        reveal(only_local);
    } else {
        let tasks = seq![Task::DestroyNode((to - 1) as usize)];
        lemma_destroy_nodes_local(from, (to - 1) as nat);
        assert(only_local(tasks)) by {
            reveal(only_local);
        }
        lemma_local_concat(destroy_nodes(from, (to - 1) as nat), tasks);
    }
}

proof fn lemma_close_streams_local(fds: Seq<Option<i32>>, from: nat, to: nat, i: int)
    ensures
        only_local(close_streams(fds, from, to)),
        leaves_camera(close_streams(fds, from, to), i),
    decreases to,
{
    if to <= from {
        reveal(only_local);
        reveal(leaves_camera);
    } else {
        let tasks = match fds[to - 1] {
            Some(fd) => seq![Task::Close(fd)],
            None => Seq::empty(),
        };
        lemma_close_streams_local(fds, from, (to - 1) as nat, i);
        assert(only_local(tasks) && leaves_camera(tasks, i)) by {
            reveal(only_local);
            reveal(leaves_camera);
        }
        lemma_local_concat(close_streams(fds, from, (to - 1) as nat), tasks);
        lemma_leaves_concat(close_streams(fds, from, (to - 1) as nat), tasks, i);
    }
}

/// What opening one camera adds.
pub open spec fn open_one(r: ResourcesModel, i: usize) -> Seq<Task> {
    let (width, height) = named_size(r.initial_sizes, i as int);
    seq![
        Task::Resize { camera: i, width, height },
        Task::CreateNode(i),
        Task::AttachReader { camera: i, stream: r.streams[i as int] },
    ]
}

/// What opening the cameras from `from` up to `to` adds.
pub open spec fn open_from(r: ResourcesModel, from: nat, to: nat) -> Seq<Task>
    decreases to,
{
    if to <= from {
        Seq::empty()
    } else {
        open_from(r, from, (to - 1) as nat) + open_one(r, (to - 1) as usize)
    }
}

proof fn lemma_open_split(r: ResourcesModel, from: nat, to: nat)
    requires
        from <= to,
    ensures
        open_cameras(r, to) == open_cameras(r, from) + open_from(r, from, to),
    decreases to,
{
    if from < to {
        lemma_open_split(r, from, (to - 1) as nat);
        assert(open_cameras(r, to) =~= open_cameras(r, from) + open_from(r, from, to));
    } else {
        assert(open_cameras(r, to) =~= open_cameras(r, from) + open_from(r, from, to));
    }
}

proof fn lemma_open_one_local(r: ResourcesModel, i: usize)
    ensures
        only_local(open_one(r, i)),
{
    reveal(only_local);
}

proof fn lemma_open_cameras_local(r: ResourcesModel, n: nat)
    ensures
        only_local(open_cameras(r, n)),
    decreases n,
{
    if n == 0 {
        reveal(only_local);
    } else {
        lemma_open_cameras_local(r, (n - 1) as nat);
        lemma_open_one_local(r, (n - 1) as usize);
        lemma_local_concat(open_cameras(r, (n - 1) as nat), open_one(r, (n - 1) as usize));
    }
}

proof fn lemma_open_from_local(r: ResourcesModel, from: nat, to: nat, i: int)
    requires
        0 <= i < from,
        to <= MAX_CAMERAS,
    ensures
        only_local(open_from(r, from, to)),
        leaves_camera(open_from(r, from, to), i),
    decreases to,
{
    if to <= from {
        reveal(only_local);
        reveal(leaves_camera);
    } else {
        let tasks = open_one(r, (to - 1) as usize);
        lemma_open_from_local(r, from, (to - 1) as nat, i);
        assert(only_local(tasks) && leaves_camera(tasks, i)) by {
            reveal(only_local);
            reveal(leaves_camera);
        }
        lemma_local_concat(open_from(r, from, (to - 1) as nat), tasks);
        lemma_leaves_concat(open_from(r, from, (to - 1) as nat), tasks, i);
    }
}

/// A camera whose stream is read, or that has none.
pub open spec fn reads(c: CameraModel, stream: Option<i32>) -> bool {
    c.reader == (stream is Some) && c.data.live == (stream is Some)
}

/// Telling the service leaves readers, streams and nodes as they are.
proof fn lemma_reconcile_run(m: WorkerModel, i: usize)
    requires
        m.wf(),
        i < MAX_CAMERAS,
        m.agenda == seq![Task::Reconcile(i)],
    ensures
        ({
            let (before, after) = (m.cameras[i as int], run_ok(m).cameras[i as int]);
            &&& after.reader == before.reader
            &&& after.data.live == before.data.live
            &&& after.node == before.node
        }),
{
    reveal_with_fuel(run_ok, 3);
    assert(m.agenda.skip(1) =~= Seq::empty());
    let one = m.stepped(true).0;
    if one.agenda.len() > 0 {
        assert(one.agenda.skip(1) =~= Seq::empty());
    }
}

proof fn lemma_create_run(m: WorkerModel, i: usize)
    requires
        m.wf(),
        i < MAX_CAMERAS,
        m.agenda == seq![Task::CreateNode(i)],
    ensures
        run_ok(m).cameras[i as int].node == (m.cameras[i as int].node || (m.core && i
            < m.active_cameras)),
{
    reveal_with_fuel(run_ok, 3);
    assert(m.agenda.skip(1) =~= Seq::empty());
    let one = m.stepped(true).0;
    if one.agenda.len() > 0 {
        assert(one.agenda.skip(1) =~= Seq::empty());
    }
}

proof fn lemma_resize_run(m: WorkerModel, i: usize, width: u32, height: u32)
    requires
        m.wf(),
        i < MAX_CAMERAS,
        m.agenda == seq![Task::Resize { camera: i, width, height }],
    ensures
        run_ok(m).cameras[i as int].node == m.cameras[i as int].node,
{
    reveal_with_fuel(run_ok, 2);
    assert(m.agenda.skip(1) =~= Seq::empty());
}

proof fn lemma_attach_run(m: WorkerModel, i: usize, stream: Option<i32>)
    requires
        m.wf(),
        i < MAX_CAMERAS,
        m.agenda == seq![Task::AttachReader { camera: i, stream }],
    ensures
        reads(run_ok(m).cameras[i as int], stream),
        run_ok(m).cameras[i as int].node == m.cameras[i as int].node,
{
    let attach = Task::AttachReader { camera: i, stream };
    let reconcile = seq![Task::Reconcile(i)];
    assert(m.agenda.skip(1) =~= Seq::empty());
    lemma_steps_keep_workers_valid(m, true);
    let m1 = m.stepped(true).0;
    assert(m1.agenda.len() == 2 && m1.agenda[0] == Task::StopReader(i));
    lemma_steps_keep_workers_valid(m1, true);
    let m2 = m1.stepped(true).0;
    assert(m2.agenda.len() == 2 && m2.agenda[0] == Task::ClearMailbox(i));
    lemma_steps_keep_workers_valid(m2, true);
    let m3 = m2.stepped(true).0;
    assert(m3.agenda.len() == 1);
    assert(run_ok(m) == run_ok(m3)) by {
        reveal_with_fuel(run_ok, 4);
    }
    match stream {
        None => {
            assert(m3.agenda =~= reconcile);
            lemma_reconcile_run(m3, i);
        },
        Some(fd) => {
            assert(m3.agenda[0] == (Task::SpawnReader { camera: i, fd }));
            lemma_steps_keep_workers_valid(m3, true);
            let m4 = m3.stepped(true).0;
            assert(m4.agenda.len() == 2 && m4.agenda[0] == Task::ReaderSpawned(i));
            lemma_steps_keep_workers_valid(m4, true);
            let m5 = m4.stepped(true).0;
            assert(m5.agenda =~= reconcile);
            assert(run_ok(m3) == run_ok(m5)) by {
                reveal_with_fuel(run_ok, 3);
            }
            lemma_reconcile_run(m5, i);
        },
    }
}

/// Opening a camera reads its stream, and publishes its node if there is a connection.
proof fn lemma_open_run(m: WorkerModel, r: ResourcesModel, i: usize)
    requires
        m.wf(),
        i < MAX_CAMERAS,
        m.agenda == open_one(r, i),
    ensures
        reads(run_ok(m).cameras[i as int], r.streams[i as int]),
        run_ok(m).cameras[i as int].node == (m.cameras[i as int].node || (m.core && i
            < m.active_cameras)),
{
    let (width, height) = named_size(r.initial_sizes, i as int);
    let stream = r.streams[i as int];
    let a = seq![Task::Resize { camera: i, width, height }];
    let b = seq![Task::CreateNode(i)];
    let c = seq![Task::AttachReader { camera: i, stream }];
    assert(open_one(r, i) =~= a + (b + c));
    assert(only_local(a) && only_local(b) && only_local(c)) by {
        reveal(only_local);
    }
    lemma_parts_are_valid(m, a, b + c);
    lemma_run_in_turn(m, a, b + c);
    lemma_local_run(with_agenda(m, a), i as int);
    lemma_resize_run(with_agenda(m, a), i, width, height);
    let m1 = run_ok(with_agenda(m, a));
    lemma_parts_are_valid(with_agenda(m, b + c), b, c);
    lemma_agenda_swap(m1, b + c);
    lemma_agenda_swap(m1, b);
    lemma_run_in_turn(m1, b, c);
    lemma_local_run(with_agenda(m1, b), i as int);
    lemma_create_run(with_agenda(m1, b), i);
    let m2 = run_ok(with_agenda(m1, b));
    lemma_agenda_swap(m2, c);
    lemma_attach_run(with_agenda(m2, c), i, stream);
    assert(with_agenda(m, a + (b + c)) == m);
}

/// Parts of a valid agenda are valid.
proof fn lemma_parts_are_valid(m: WorkerModel, a: Seq<Task>, b: Seq<Task>)
    requires
        m.wf(),
        m.agenda == a + b,
    ensures
        with_agenda(m, a).wf(),
        with_agenda(m, b).wf(),
        crate::camera::model::tasks_fit(a),
        crate::camera::model::tasks_fit(b),
{
    reveal(crate::camera::model::tasks_fit);
    assert forall|k: int| 0 <= k < a.len() implies crate::camera::model::task_fits(
        #[trigger] a[k],
    ) by {
        assert(m.agenda[k] == a[k]);
    }
    assert forall|k: int| 0 <= k < b.len() implies crate::camera::model::task_fits(
        #[trigger] b[k],
    ) by {
        assert(m.agenda[a.len() + k] == b[k]);
    }
}

/// A valid worker with another agenda that it can do is valid.
proof fn lemma_agenda_swap(m: WorkerModel, agenda: Seq<Task>)
    requires
        m.wf(),
        crate::camera::model::tasks_fit(agenda),
    ensures
        with_agenda(m, agenda).wf(),
{
}

/// Runs a local part of an agenda: what is left is the rest, on a valid worker that is the same
/// but for its cameras.
proof fn lemma_run_part(m: WorkerModel, a: Seq<Task>, b: Seq<Task>, i: int) -> (next: WorkerModel)
    requires
        m.wf(),
        m.agenda == a + b,
        only_local(a),
        0 <= i < MAX_CAMERAS,
    ensures
        next.wf(),
        next.agenda == b,
        run_ok(m) == run_ok(next),
        next.ctrl == m.ctrl,
        next.active_cameras == m.active_cameras,
        next.core == m.core,
        next.cameras == run_ok(with_agenda(m, a)).cameras,
        leaves_camera(a, i) ==> next.cameras[i] == m.cameras[i],
{
    lemma_parts_are_valid(m, a, b);
    lemma_run_in_turn(m, a, b);
    lemma_local_run(with_agenda(m, a), i);
    let next = with_agenda(run_ok(with_agenda(m, a)), b);
    lemma_agenda_swap(run_ok(with_agenda(m, a)), b);
    assert(with_agenda(m, a + b) == m);
    next
}

/// New resources are what the worker uses from then on, where every action succeeds: the control
/// socket is the new one, there are as many cameras as streams (up to the most that can be
/// published), each camera that has a stream is read, each other one is not, and with a connection
/// each of them has a node.
pub proof fn law_new_resources_are_used(m: WorkerModel, r: ResourcesModel, i: usize)
    requires
        m.wf(),
        m.agenda.len() == 0,
        !m.stopping,
        i < camera_count(r),
    ensures
        ({
            let end = run_ok(m.commanded(CommandModel::SetResources(r)));
            &&& end.agenda.len() == 0
            &&& end.ctrl == r.ctrl
            &&& end.active_cameras == camera_count(r)
            &&& reads(end.cameras[i as int], r.streams[i as int])
            &&& m.core ==> end.cameras[i as int].node
        }),
{
    let start = m.commanded(CommandModel::SetResources(r));
    let active = m.active_cameras as nat;
    let n = camera_count(r);
    let at = i as int;
    let stop = stop_readers(active);
    let swap = seq![Task::SwapControl(r.ctrl)];
    let destroy = destroy_nodes(n, active);
    let activate = seq![Task::Activate(n as usize)];
    let before = open_cameras(r, i as nat);
    let own = open_one(r, i);
    let after = open_from(r, (i + 1) as nat, n);
    let close = close_streams(r.streams, n, r.streams.len());
    let g = after + close;
    let f = own + g;
    let e = before + f;
    let d = activate + e;
    let c = destroy + d;
    let b = swap + c;
    lemma_commands_keep_workers_valid(m, CommandModel::SetResources(r));
    lemma_open_split(r, (i + 1) as nat, n);
    lemma_open_split(r, i as nat, (i + 1) as nat);
    assert(open_from(r, i as nat, (i + 1) as nat) =~= own) by {
        reveal_with_fuel(open_from, 2);
    }
    assert(start.agenda =~= stop + b);
    lemma_stop_readers_local(active);
    let s1 = lemma_run_part(start, stop, b, at);
    lemma_steps_keep_workers_valid(s1, true);
    let s2 = s1.stepped(true).0;
    assert(s1.agenda.skip(1) =~= c);
    assert(s2.agenda =~= c);
    lemma_destroy_nodes_local(n, active);
    let s3 = lemma_run_part(s2, destroy, d, at);
    lemma_steps_keep_workers_valid(s3, true);
    let s4 = s3.stepped(true).0;
    assert(s3.agenda.skip(1) =~= e);
    assert(s4.agenda =~= e);
    lemma_open_cameras_local(r, i as nat);
    let s5 = lemma_run_part(s4, before, f, at);
    lemma_open_one_local(r, i);
    let s6 = lemma_run_part(s5, own, g, at);
    lemma_parts_are_valid(s5, own, g);
    lemma_open_run(with_agenda(s5, own), r, i);
    lemma_open_from_local(r, (i + 1) as nat, n, at);
    lemma_close_streams_local(r.streams, n, r.streams.len(), at);
    lemma_local_concat(after, close);
    lemma_leaves_concat(after, close, at);
    lemma_local_run(s6, at);
}

} // verus!
