//! The camera worker: which cameras it publishes, which streams it reads, and what it has the
//! service record.
//!
//! The worker keeps an agenda. A command or an event adds tasks to it; each
//! [`WorkerState::step`] takes the first task and names the action that it needs, if it needs
//! one. The next step takes how that action went.
use std::collections::VecDeque;

use vstd::prelude::*;

use crate::camera::frame::{frame_size, is_camera_format};
#[allow(unused_imports)]
use crate::camera::model::{
    camera_models, cameras_valid, close_one, close_streams, destroy_nodes, drop_agenda, keep_nodes,
    open_cameras, resources_agenda, shutdown_agenda, stop_readers, task_fits, tasks_fit,
    WorkerModel,
};
use crate::camera::model::{
    Action, Camera, Command, Resources, Task, WorkerEvent, WorkerState,
};
#[allow(unused_imports)]
use crate::camera::node::DataModel;
use crate::camera::node::{CameraData, DEFAULT_HEIGHT, DEFAULT_WIDTH};
use crate::camera::reader::ReaderFrame;
#[allow(unused_imports)]
use crate::camera::validity::{
    lemma_commands_keep_workers_valid, lemma_events_keep_workers_valid,
    lemma_frames_keep_workers_valid, lemma_maintaining_keeps_workers_valid,
    lemma_shut_down_keeps_workers_valid, lemma_steps_keep_workers_valid,
};
use crate::camera::wire::MAX_CAMERAS;

verus! {

proof fn lemma_camera_update(before: Seq<Camera>, after: Seq<Camera>, i: int)
    requires
        0 <= i < before.len(),
        after.len() == before.len(),
        forall|j: int| 0 <= j < before.len() && j != i ==> after[j] == before[j],
    ensures
        camera_models(after) == camera_models(before).update(i, after[i]@),
{
    assert(camera_models(after) =~= camera_models(before).update(i, after[i]@));
}

impl WorkerState {
    /// What holds of every worker.
    pub open spec fn wf(&self) -> bool {
        self@.wf()
    }

    /// A worker without a connection, a control socket or a camera.
    pub fn new() -> (worker: WorkerState)
        ensures
            worker.wf(),
            worker@.core == false,
            worker@.core_generation == 0,
            worker@.ctrl is None,
            worker@.ctrl_generation == 0,
            worker@.active_cameras == 0,
            worker@.stopping == false,
            worker@.agenda.len() == 0,
            worker@.pending is None,
            forall|i: int|
                0 <= i < MAX_CAMERAS ==> {
                    let c = #[trigger] worker@.cameras[i];
                    &&& !c.node
                    &&& !c.reader
                    &&& c.data == (DataModel {
                        width: 0,
                        height: 0,
                        format: crate::camera::frame::FORMAT_NV21,
                        streaming: false,
                        recording: false,
                        recording_generation: 0,
                        live: false,
                        process_seen: false,
                        have_frame: false,
                        frame: Seq::empty(),
                        stream_generation: 0,
                        node_generation: 0,
                    })
                },
    {
        let mut cameras: Vec<Camera> = Vec::new();
        let mut i: usize = 0;
        while i < MAX_CAMERAS
            invariant
                i <= MAX_CAMERAS,
                cameras@.len() == i,
                forall|j: int|
                    0 <= j < i ==> {
                        let c = #[trigger] cameras@[j];
                        &&& !c.node
                        &&& !c.reader
                        &&& c.data@ == (DataModel {
                            width: 0,
                            height: 0,
                            format: crate::camera::frame::FORMAT_NV21,
                            streaming: false,
                            recording: false,
                            recording_generation: 0,
                            live: false,
                            process_seen: false,
                            have_frame: false,
                            frame: Seq::empty(),
                            stream_generation: 0,
                            node_generation: 0,
                        })
                    },
            decreases MAX_CAMERAS - i,
        {
            cameras.push(Camera { data: CameraData::new(), node: false, reader: false });
            i += 1;
        }
        proof {
            reveal(tasks_fit);
            reveal(cameras_valid);
        }
        WorkerState {
            core: false,
            core_generation: 0,
            ctrl: None,
            ctrl_generation: 0,
            active_cameras: 0,
            cameras,
            stopping: false,
            agenda: VecDeque::new(),
            pending: None,
        }
    }

    fn stop_reader(&mut self, i: usize) -> (action: Action)
        requires
            i < old(self).cameras@.len(),
        ensures
            (final(self)@, action) == old(self)@.reader_stopped(i),
    {
        let camera = &mut self.cameras[i];
        let had_reader = camera.reader;
        camera.data.stream_generation = camera.data.stream_generation.wrapping_add(1);
        camera.data.live = false;
        camera.data.have_frame = false;
        camera.reader = false;
        self.agenda.push_front(Task::ClearMailbox(i));
        proof {
            lemma_camera_update(old(self).cameras@, self.cameras@, i as int);
        }
        if had_reader {
            Action::StopReader(i)
        } else {
            Action::Nothing
        }
    }

    fn ask_for_memory(&self, i: usize) -> (action: Action)
        requires
            i < self.cameras@.len(),
        ensures
            (self@, action) == self@.asking_for_memory(i),
    {
        if self.cameras[i].reader {
            Action::RequestShm(i)
        } else {
            Action::Nothing
        }
    }

    fn reconcile_recording(&mut self, i: usize) -> (action: Action)
        requires
            i < old(self).cameras@.len(),
            i < MAX_CAMERAS,
        ensures
            (final(self)@, action) == old(self)@.reconciled(i),
    {
        let data = &self.cameras[i].data;
        let want = data.streaming && data.live && self.ctrl.is_some();
        let recording = data.recording && data.recording_generation == self.ctrl_generation;
        if want == recording {
            if want {
                return self.ask_for_memory(i);
            }
            return Action::Nothing;
        }
        let Some(ctrl) = self.ctrl else {
            return Action::Nothing;
        };
        if !want {
            self.agenda.push_front(Task::Told { camera: i, want });
            return Action::StopRecord { ctrl, index: i as u8 };
        }
        let width = data.width;
        let height = data.height;
        if frame_size(width, height).is_none() {
            return Action::Nothing;
        }
        self.agenda.push_front(Task::Told { camera: i, want });
        Action::StartRecord {
            ctrl,
            index: i as u8,
            record_width: width as u16,
            record_height: height as u16,
        }
    }

    fn recording_told(&mut self, i: usize, want: bool, ok: bool) -> (action: Action)
        requires
            i < old(self).cameras@.len(),
        ensures
            (final(self)@, action) == old(self)@.told(i, want, ok),
    {
        if !ok {
            return Action::Nothing;
        }
        let generation = self.ctrl_generation;
        let camera = &mut self.cameras[i];
        camera.data.recording = want;
        camera.data.recording_generation = generation;
        proof {
            lemma_camera_update(old(self).cameras@, self.cameras@, i as int);
        }
        if want {
            self.ask_for_memory(i)
        } else {
            Action::Nothing
        }
    }

    fn replace_control(&mut self, ctrl: Option<i32>) -> (action: Action)
        ensures
            (final(self)@, action) == old(self)@.control_closed(
                WorkerModel { ctrl, ..old(self)@ },
            ),
    {
        let before = self.ctrl;
        self.ctrl = ctrl;
        match before {
            Some(fd) => Action::Close(fd),
            None => Action::Nothing,
        }
    }

    fn create_node(&mut self, i: usize) -> (action: Action)
        requires
            i < old(self).cameras@.len(),
        ensures
            (final(self)@, action) == old(self)@.node_created(i),
    {
        if i >= self.active_cameras || self.cameras[i].node || !self.core {
            return Action::Nothing;
        }
        let camera = &mut self.cameras[i];
        if camera.data.width == 0 || camera.data.height == 0 {
            camera.data.width = DEFAULT_WIDTH;
            camera.data.height = DEFAULT_HEIGHT;
        }
        camera.data.streaming = false;
        camera.data.process_seen = false;
        camera.data.node_generation = camera.data.node_generation.wrapping_add(1);
        let generation = camera.data.node_generation;
        let width = camera.data.width;
        let height = camera.data.height;
        let format = camera.data.format;
        self.agenda.push_front(Task::NodeCreated(i));
        proof {
            lemma_camera_update(old(self).cameras@, self.cameras@, i as int);
        }
        Action::CreateNode { camera: i, generation, width, height, format }
    }

    fn destroy_node(&mut self, i: usize) -> (action: Action)
        requires
            i < old(self).cameras@.len(),
        ensures
            (final(self)@, action) == old(self)@.done(Task::DestroyNode(i), true),
    {
        let camera = &mut self.cameras[i];
        camera.data.node_generation = camera.data.node_generation.wrapping_add(1);
        camera.data.streaming = false;
        self.agenda.push_front(Task::DropNode(i));
        self.agenda.push_front(Task::Reconcile(i));
        proof {
            lemma_camera_update(old(self).cameras@, self.cameras@, i as int);
            assert(self.agenda@ =~= seq![Task::Reconcile(i), Task::DropNode(i)] + old(
                self,
            ).agenda@);
        }
        Action::Nothing
    }

    fn drop_node(&mut self, i: usize) -> (action: Action)
        requires
            i < old(self).cameras@.len(),
        ensures
            (final(self)@, action) == old(self)@.done(Task::DropNode(i), true),
    {
        let camera = &mut self.cameras[i];
        let had_node = camera.node;
        camera.node = false;
        proof {
            lemma_camera_update(old(self).cameras@, self.cameras@, i as int);
        }
        if had_node {
            Action::DropNode(i)
        } else {
            Action::Nothing
        }
    }

    fn finish_node(&mut self, i: usize, ok: bool) -> (action: Action)
        requires
            i < old(self).cameras@.len(),
        ensures
            (final(self)@, action) == old(self)@.done(Task::NodeCreated(i), ok),
    {
        let camera = &mut self.cameras[i];
        if ok {
            camera.node = true;
        }
        proof {
            lemma_camera_update(old(self).cameras@, self.cameras@, i as int);
        }
        Action::Nothing
    }

    fn resize(&mut self, i: usize, width: u32, height: u32) -> (action: Action)
        requires
            i < old(self).cameras@.len(),
        ensures
            (final(self)@, action) == old(self)@.done(
                Task::Resize { camera: i, width, height },
                true,
            ),
    {
        if self.cameras[i].node || frame_size(width, height).is_none() {
            return Action::Nothing;
        }
        let camera = &mut self.cameras[i];
        camera.data.width = width;
        camera.data.height = height;
        proof {
            lemma_camera_update(old(self).cameras@, self.cameras@, i as int);
        }
        Action::Nothing
    }

    fn attach_reader(&mut self, i: usize, stream: Option<i32>) -> (action: Action)
        ensures
            (final(self)@, action) == old(self)@.done(
                Task::AttachReader { camera: i, stream },
                true,
            ),
    {
        let next = match stream {
            Some(fd) => Task::SpawnReader { camera: i, fd },
            None => Task::Reconcile(i),
        };
        self.agenda.push_front(next);
        self.agenda.push_front(Task::StopReader(i));
        proof {
            let tasks = seq![
                Task::StopReader(i),
                match stream {
                    Some(fd) => Task::SpawnReader { camera: i, fd },
                    None => Task::Reconcile(i),
                },
            ];
            assert(self.agenda@ =~= tasks + old(self).agenda@);
        }
        Action::Nothing
    }

    fn spawn_reader(&mut self, i: usize, stream: i32) -> (action: Action)
        requires
            i < old(self).cameras@.len(),
        ensures
            (final(self)@, action) == old(self)@.reader_spawned(i, stream),
    {
        let camera = &mut self.cameras[i];
        camera.data.live = true;
        camera.data.have_frame = false;
        let generation = camera.data.stream_generation;
        self.agenda.push_front(Task::Reconcile(i));
        self.agenda.push_front(Task::ReaderSpawned(i));
        proof {
            lemma_camera_update(old(self).cameras@, self.cameras@, i as int);
            assert(self.agenda@ =~= seq![Task::ReaderSpawned(i), Task::Reconcile(i)] + old(
                self,
            ).agenda@);
        }
        Action::SpawnReader { camera: i, generation, stream }
    }

    fn finish_reader(&mut self, i: usize, ok: bool) -> (action: Action)
        requires
            i < old(self).cameras@.len(),
        ensures
            (final(self)@, action) == old(self)@.done(Task::ReaderSpawned(i), ok),
    {
        let camera = &mut self.cameras[i];
        if ok {
            camera.reader = true;
        } else {
            camera.data.live = false;
            camera.data.have_frame = false;
        }
        proof {
            lemma_camera_update(old(self).cameras@, self.cameras@, i as int);
        }
        Action::Nothing
    }

    fn store_frame(&mut self, i: usize, frame: ReaderFrame)
        requires
            i < old(self).cameras@.len(),
        ensures
            final(self)@ == old(self)@.frame_stored(i, frame@),
    {
        let data = &self.cameras[i].data;
        if data.stream_generation != frame.stream_generation || !data.live {
            return ;
        }
        let camera = &mut self.cameras[i];
        camera.data.width = frame.width;
        camera.data.height = frame.height;
        camera.data.format = frame.format;
        camera.data.frame = frame.pixels;
        camera.data.have_frame = true;
        proof {
            lemma_camera_update(old(self).cameras@, self.cameras@, i as int);
        }
    }

    fn finish_format(&mut self, i: usize, node_generation: u64, ok: bool) -> (action: Action)
        requires
            i < old(self).cameras@.len(),
        ensures
            (final(self)@, action) == old(self)@.done(
                Task::FormatUpdated { camera: i, node_generation },
                ok,
            ),
    {
        match self.pending.take() {
            None => Action::Nothing,
            Some(frame) => {
                if ok {
                    self.store_frame(i, frame);
                    Action::Nothing
                } else {
                    Action::ReportNodeFailed { camera: i, node_generation }
                }
            },
        }
    }

    fn plan(&mut self, task: Task)
        ensures
            final(self)@ == old(self)@.also(seq![task]),
    {
        self.agenda.push_back(task);
        assert(self.agenda@ =~= old(self).agenda@ + seq![task]);
    }

    fn plan_stop_readers(&mut self, n: usize)
        ensures
            final(self)@ == old(self)@.also(stop_readers(n as nat)),
    {
        let mut i: usize = 0;
        assert(self@.agenda =~= self@.also(stop_readers(0)).agenda);
        while i < n
            invariant
                i <= n,
                self@ == old(self)@.also(stop_readers(i as nat)),
            decreases n - i,
        {
            self.plan(Task::StopReader(i));
            self.plan(Task::Reconcile(i));
            i += 1;
            assert(self@.agenda =~= old(self)@.also(stop_readers(i as nat)).agenda);
        }
    }

    fn plan_destroy_nodes(&mut self, from: usize, to: usize)
        ensures
            final(self)@ == old(self)@.also(destroy_nodes(from as nat, to as nat)),
    {
        let mut i: usize = from;
        assert(self@.agenda =~= self@.also(destroy_nodes(from as nat, from as nat)).agenda);
        while i < to
            invariant
                from <= i,
                i <= to || i == from,
                self@ == old(self)@.also(destroy_nodes(from as nat, i as nat)),
            decreases to - i,
        {
            self.plan(Task::DestroyNode(i));
            i += 1;
            assert(self@.agenda =~= old(self)@.also(
                destroy_nodes(from as nat, i as nat),
            ).agenda);
        }
        assert(destroy_nodes(from as nat, to as nat) =~= destroy_nodes(from as nat, i as nat));
    }

    fn plan_keep_nodes(&mut self, n: usize)
        ensures
            final(self)@ == old(self)@.also(keep_nodes(n as nat)),
    {
        let mut i: usize = 0;
        assert(self@.agenda =~= self@.also(keep_nodes(0)).agenda);
        while i < n
            invariant
                i <= n,
                self@ == old(self)@.also(keep_nodes(i as nat)),
            decreases n - i,
        {
            self.plan(Task::CreateNode(i));
            self.plan(Task::Reconcile(i));
            i += 1;
            assert(self@.agenda =~= old(self)@.also(keep_nodes(i as nat)).agenda);
        }
    }

    fn plan_open_cameras(&mut self, resources: &Resources, n: usize)
        requires
            n <= resources.streams@.len(),
        ensures
            final(self)@ == old(self)@.also(open_cameras(resources@, n as nat)),
    {
        let mut i: usize = 0;
        assert(self@.agenda =~= self@.also(open_cameras(resources@, 0)).agenda);
        while i < n
            invariant
                i <= n,
                n <= resources.streams@.len(),
                self@ == old(self)@.also(open_cameras(resources@, i as nat)),
            decreases n - i,
        {
            let (width, height) = if i < resources.initial_sizes.len() {
                resources.initial_sizes[i]
            } else {
                (0, 0)
            };
            self.plan(Task::Resize { camera: i, width, height });
            self.plan(Task::CreateNode(i));
            self.plan(Task::AttachReader { camera: i, stream: resources.streams[i] });
            i += 1;
            assert(self@.agenda =~= old(self)@.also(open_cameras(resources@, i as nat)).agenda);
        }
    }

    fn plan_close_streams(&mut self, streams: &Vec<Option<i32>>, from: usize)
        requires
            from <= streams@.len(),
        ensures
            final(self)@ == old(self)@.also(
                close_streams(streams@, from as nat, streams@.len()),
            ),
    {
        let mut i: usize = from;
        assert(self@.agenda =~= self@.also(
            close_streams(streams@, from as nat, from as nat),
        ).agenda);
        while i < streams.len()
            invariant
                from <= i <= streams@.len(),
                self@ == old(self)@.also(close_streams(streams@, from as nat, i as nat)),
            decreases streams@.len() - i,
        {
            if let Some(fd) = streams[i] {
                self.plan(Task::Close(fd));
            }
            i += 1;
            assert(self@.agenda =~= old(self)@.also(
                close_streams(streams@, from as nat, i as nat),
            ).agenda);
        }
    }

    fn drop_pipewire(&mut self)
        ensures
            final(self)@ == old(self)@.also(drop_agenda()),
    {
        self.plan_destroy_nodes(0, MAX_CAMERAS);
        self.plan(Task::DropCore);
        assert(self@.agenda =~= old(self)@.also(drop_agenda()).agenda);
    }

    fn set_resources(&mut self, resources: Resources)
        ensures
            final(self)@ == old(self)@.also(
                resources_agenda(resources@, old(self).active_cameras as nat),
            ),
    {
        let active = self.active_cameras;
        let count: usize = if resources.streams.len() < MAX_CAMERAS {
            resources.streams.len()
        } else {
            MAX_CAMERAS
        };
        self.plan_stop_readers(active);
        self.plan(Task::SwapControl(resources.ctrl));
        self.plan_destroy_nodes(count, active);
        self.plan(Task::Activate(count));
        self.plan_open_cameras(&resources, count);
        self.plan_close_streams(&resources.streams, count);
        assert(self@.agenda =~= old(self)@.also(resources_agenda(resources@, active as nat)).agenda);
    }

    fn clear_resources(&mut self)
        ensures
            final(self)@ == old(self)@.also(
                stop_readers(old(self).active_cameras as nat) + seq![Task::SwapControl(None)],
            ),
    {
        let active = self.active_cameras;
        self.plan_stop_readers(active);
        self.plan(Task::SwapControl(None));
        assert(self@.agenda =~= old(self)@.also(
            stop_readers(active as nat) + seq![Task::SwapControl(None)],
        ).agenda);
    }

    /// Stops for good.
    pub fn shutdown(&mut self)
        requires
            old(self).wf(),
        ensures
            final(self).wf(),
            final(self)@ == old(self)@.shut_down(),
    {
        proof {
            lemma_shut_down_keeps_workers_valid(self@);
        }
        if self.stopping {
            return ;
        }
        self.stopping = true;
        self.plan_stop_readers(MAX_CAMERAS);
        self.plan(Task::DropControl);
        self.drop_pipewire();
        assert(self@.agenda =~= old(self)@.agenda + shutdown_agenda());
    }

    /// Takes a command.
    pub fn handle_command(&mut self, command: Command)
        requires
            old(self).wf(),
        ensures
            final(self).wf(),
            final(self)@ == old(self)@.commanded(command@),
    {
        proof {
            lemma_commands_keep_workers_valid(self@, command@);
        }
        match command {
            Command::SetResources(resources) => {
                if !self.stopping {
                    return self.set_resources(resources);
                }
                if let Some(ctrl) = resources.ctrl {
                    self.plan(Task::Close(ctrl));
                }
                assert(self@.agenda =~= old(self)@.also(close_one(resources.ctrl)).agenda);
                self.plan_close_streams(&resources.streams, 0);
                assert(self@.agenda =~= old(self)@.commanded(command@).agenda);
            },
            Command::Clear => {
                if !self.stopping {
                    self.clear_resources();
                }
            },
            Command::Shutdown => self.shutdown(),
        }
    }

    /// Takes an event. One about something that is no longer there changes nothing.
    pub fn handle_event(&mut self, event: WorkerEvent)
        requires
            old(self).wf(),
        ensures
            final(self).wf(),
            final(self)@ == old(self)@.notified(event),
    {
        proof {
            lemma_events_keep_workers_valid(self@, event);
        }
        if self.stopping {
            return ;
        }
        match event {
            WorkerEvent::Streaming { camera, node_generation, streaming } => {
                if camera >= self.cameras.len() {
                    return ;
                }
                let data = &self.cameras[camera].data;
                if data.node_generation != node_generation || data.streaming == streaming {
                    return ;
                }
                let slot = &mut self.cameras[camera];
                slot.data.streaming = streaming;
                proof {
                    lemma_camera_update(old(self).cameras@, self.cameras@, camera as int);
                }
                self.plan(Task::Reconcile(camera));
            },
            WorkerEvent::ReaderClosed { camera, stream_generation } => {
                if camera >= self.cameras.len() {
                    return ;
                }
                if self.cameras[camera].data.stream_generation != stream_generation {
                    return ;
                }
                let slot = &mut self.cameras[camera];
                slot.data.live = false;
                slot.data.have_frame = false;
                proof {
                    lemma_camera_update(old(self).cameras@, self.cameras@, camera as int);
                }
                self.plan(Task::Reconcile(camera));
            },
            WorkerEvent::NodeFailed { camera, node_generation } => {
                if camera >= self.cameras.len() {
                    return ;
                }
                if self.cameras[camera].data.node_generation != node_generation {
                    return ;
                }
                self.plan(Task::DestroyNode(camera));
            },
            WorkerEvent::PipeWireBroken(generation) => {
                if generation == self.core_generation {
                    self.drop_pipewire();
                }
            },
        }
    }

    /// Makes the connection and the nodes that are missing.
    pub fn maintain_pipewire(&mut self)
        requires
            old(self).wf(),
        ensures
            final(self).wf(),
            final(self)@ == old(self)@.maintained(),
    {
        proof {
            lemma_maintaining_keeps_workers_valid(self@);
        }
        if self.stopping {
            return ;
        }
        if !self.core {
            self.core_generation = self.core_generation.wrapping_add(1);
            self.plan(Task::Connect);
        }
        let active = self.active_cameras;
        self.plan_keep_nodes(active);
        assert(self@.agenda =~= old(self)@.maintained().agenda);
    }

    /// Takes the frame that a reader left, if there is one.
    pub fn handle_frame(&mut self, camera: usize, frame: Option<ReaderFrame>) -> (action: Action)
        requires
            old(self).wf(),
        ensures
            final(self).wf(),
            match frame {
                Some(f) => (final(self)@, action) == old(self)@.framed(camera, f@),
                None => final(self)@ == old(self)@ && action is Nothing,
            },
    {
        let Some(frame) = frame else {
            return Action::Nothing;
        };
        proof {
            lemma_frames_keep_workers_valid(self@, camera, frame@);
        }
        if self.stopping || camera >= self.cameras.len() {
            return Action::Nothing;
        }
        let Some(expected) = frame_size(frame.width, frame.height) else {
            return Action::Nothing;
        };
        if !is_camera_format(frame.format) || frame.pixels.len() != expected {
            return Action::Nothing;
        }
        let data = &self.cameras[camera].data;
        if data.stream_generation != frame.stream_generation || !data.live {
            return Action::Nothing;
        }
        let changed = frame.width != data.width || frame.height != data.height || frame.format
            != data.format;
        if !changed {
            self.store_frame(camera, frame);
            return Action::Nothing;
        }
        if !self.cameras[camera].node {
            return Action::Nothing;
        }
        let node_generation = data.node_generation;
        let width = frame.width;
        let height = frame.height;
        let format = frame.format;
        self.pending = Some(frame);
        self.agenda.push_front(Task::FormatUpdated { camera, node_generation });
        Action::UpdateFormat { camera, width, height, format }
    }

    /// There is something on the agenda.
    pub fn busy(&self) -> (busy: bool)
        ensures
            busy == (self@.agenda.len() > 0),
    {
        self.agenda.len() > 0
    }

    /// Takes how the last action went, does the first task on the agenda, and names the action
    /// that it needs.
    pub fn step(&mut self, ok: bool) -> (action: Action)
        requires
            old(self).wf(),
        ensures
            final(self).wf(),
            (final(self)@, action) == old(self)@.stepped(ok),
    {
        proof {
            lemma_steps_keep_workers_valid(self@, ok);
            assert(self@.agenda.len() > 0 ==> self@.agenda.skip(1) =~= self@.agenda.subrange(
                1,
                self@.agenda.len() as int,
            ));
        }
        let Some(task) = self.agenda.pop_front() else {
            return Action::Nothing;
        };
        assert(task_fits(task));
        match task {
            Task::StopReader(i) => self.stop_reader(i),
            Task::ClearMailbox(i) => Action::ClearMailbox(i),
            Task::Reconcile(i) => self.reconcile_recording(i),
            Task::Told { camera, want } => self.recording_told(camera, want, ok),
            Task::SwapControl(ctrl) => {
                let action = self.replace_control(ctrl);
                self.ctrl_generation = self.ctrl_generation.wrapping_add(1);
                action
            },
            Task::DropControl => self.replace_control(None),
            Task::Close(fd) => Action::Close(fd),
            Task::Connect => {
                self.agenda.push_front(Task::Connected);
                Action::ConnectCore { generation: self.core_generation }
            },
            Task::Connected => {
                self.core = ok;
                Action::Nothing
            },
            Task::DropCore => {
                self.core = false;
                Action::DropCore
            },
            Task::Activate(n) => {
                self.active_cameras = n;
                Action::Nothing
            },
            Task::Resize { camera, width, height } => self.resize(camera, width, height),
            Task::CreateNode(i) => self.create_node(i),
            Task::NodeCreated(i) => self.finish_node(i, ok),
            Task::DestroyNode(i) => self.destroy_node(i),
            Task::DropNode(i) => self.drop_node(i),
            Task::AttachReader { camera, stream } => self.attach_reader(camera, stream),
            Task::SpawnReader { camera, fd } => self.spawn_reader(camera, fd),
            Task::ReaderSpawned(i) => self.finish_reader(i, ok),
            Task::FormatUpdated { camera, node_generation } => {
                self.finish_format(camera, node_generation, ok)
            },
        }
    }
}

} // verus!
