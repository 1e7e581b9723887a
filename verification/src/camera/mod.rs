//! Cameras.
//!
//! The functions here are what the rest of the program calls; the modules hold the worker behind
//! them.
pub mod adopt;
pub mod frame;
pub mod info;
pub mod laws;
pub mod mapping;
pub mod message_laws;
pub mod model;
pub mod node;
pub mod open_laws;
pub mod promises;
pub mod reader;
pub mod reader_laws;
pub mod reader_runs;
pub mod validity;
pub mod wire;
pub mod worker;

use vstd::prelude::*;

use crate::camera::adopt::Adoption;
#[allow(unused_imports)]
use crate::camera::adopt::{times_a_stream, times_in};
use crate::camera::model::{Command, Resources};
#[allow(unused_imports)]
use crate::camera::model::{CommandModel, ResourcesModel};
use crate::engine::{Engine, EngineAction};

pub use crate::camera::adopt::set_resources;

verus! {

/// Starts the camera worker, if none runs.
pub fn start(engine: &mut Engine) -> (action: EngineAction)
    ensures
        final(engine).wf(),
        (*final(engine), action) == old(engine).starting(false),
{
    engine.start(false)
}

/// Stops the camera worker, if one runs.
pub fn stop(engine: &mut Engine) -> (action: EngineAction)
    ensures
        final(engine).wf(),
        (*final(engine), action) == old(engine).stopping(),
{
    engine.stop()
}

/// Lets the consumer go, while the nodes stay: what the worker is sent, if one runs.
pub fn clear(engine: &Engine) -> (command: Option<Command>)
    ensures
        match command {
            Some(c) => engine.running && c@ == CommandModel::Clear,
            None => !engine.running,
        },
{
    if engine.running {
        Some(Command::Clear)
    } else {
        None
    }
}

/// The sizes of cameras that nothing is known of.
pub fn no_sizes(count: usize) -> (sizes: Vec<(u32, u32)>)
    ensures
        sizes@ == Seq::new(count as nat, |i: int| (0u32, 0u32)),
{
    let mut sizes: Vec<(u32, u32)> = Vec::new();
    let mut i: usize = 0;
    while i < count
        invariant
            i <= count,
            sizes@ == Seq::new(i as nat, |i: int| (0u32, 0u32)),
        decreases count - i,
    {
        sizes.push((0, 0));
        i += 1;
        assert(sizes@ =~= Seq::new(i as nat, |i: int| (0u32, 0u32)));
    }
    sizes
}

/// What becomes of descriptors that were taken over.
pub enum Delivery {
    /// Send this to the worker.
    Send(Command),
    /// Nobody takes them: close these.
    Close(Vec<i32>),
}

/// The descriptors among `streams`.
pub open spec fn present(streams: Seq<Option<i32>>) -> Seq<i32>
    decreases streams.len(),
{
    if streams.len() == 0 {
        Seq::empty()
    } else {
        match streams.last() {
            Some(fd) => present(streams.drop_last()).push(fd),
            None => present(streams.drop_last()),
        }
    }
}

/// All descriptors of some resources: the streams, then the control socket.
pub open spec fn all_descriptors(r: ResourcesModel) -> Seq<i32> {
    present(r.streams) + (match r.ctrl {
        Some(ctrl) => seq![ctrl],
        None => Seq::empty(),
    })
}

/// The descriptors of resources that nobody takes, to be closed.
pub fn undelivered(resources: &Resources) -> (fds: Vec<i32>)
    ensures
        fds@ == all_descriptors(resources@),
{
    let mut fds: Vec<i32> = Vec::new();
    let mut i: usize = 0;
    while i < resources.streams.len()
        invariant
            i <= resources.streams@.len(),
            fds@ == present(resources.streams@.take(i as int)),
        decreases resources.streams@.len() - i,
    {
        assert(resources.streams@.take(i + 1).drop_last() =~= resources.streams@.take(i as int));
        if let Some(fd) = resources.streams[i] {
            fds.push(fd);
        }
        i += 1;
    }
    assert(resources.streams@.take(i as int) =~= resources.streams@);
    let ghost before = fds@;
    if let Some(ctrl) = resources.ctrl {
        fds.push(ctrl);
        assert(fds@ =~= before + seq![ctrl]);
    }
    fds
}

/// What was taken over goes to a worker.
pub open spec fn goes_to_worker(refused: bool, started: i32, running: bool) -> bool {
    !refused && started == 0 && running
}

/// Hands what was taken over to the worker, unless the request was refused. `started` is what
/// starting the worker told.
pub fn deliver_resources(
    engine: &Engine,
    started: i32,
    adoption: Adoption,
    initial_sizes: Vec<(u32, u32)>,
) -> (delivery: Delivery)
    ensures
        ({
            let r = ResourcesModel {
                ctrl: adoption.ctrl,
                streams: adoption.streams@,
                initial_sizes: initial_sizes@,
            };
            match delivery {
                Delivery::Send(command) => goes_to_worker(
                    adoption.refused,
                    started,
                    engine.running,
                ) && command@ == CommandModel::SetResources(r),
                Delivery::Close(fds) => !goes_to_worker(
                    adoption.refused,
                    started,
                    engine.running,
                ) && fds@ == all_descriptors(r),
            }
        }),
{
    let resources = Resources {
        ctrl: adoption.ctrl,
        streams: adoption.streams,
        initial_sizes,
    };
    if !adoption.refused && started == 0 && engine.running {
        Delivery::Send(Command::SetResources(resources))
    } else {
        Delivery::Close(undelivered(&resources))
    }
}

proof fn lemma_present_counts(streams: Seq<Option<i32>>, fd: i32)
    ensures
        times_in(present(streams), fd) == times_a_stream(streams, streams.len() as int, fd),
    decreases streams.len(),
{
    if streams.len() > 0 {
        let before = streams.drop_last();
        lemma_present_counts(before, fd);
        lemma_same_prefix(streams, before, before.len() as int, fd);
        if let Some(f) = streams.last() {
            assert(present(streams).drop_last() =~= present(before));
        }
    }
}

proof fn lemma_same_prefix(a: Seq<Option<i32>>, b: Seq<Option<i32>>, n: int, fd: i32)
    requires
        0 <= n <= a.len(),
        n <= b.len(),
        forall|i: int| 0 <= i < n ==> a[i] == b[i],
    ensures
        times_a_stream(a, n, fd) == times_a_stream(b, n, fd),
    decreases n,
{
    if n > 0 {
        lemma_same_prefix(a, b, n - 1, fd);
    }
}

/// When nobody takes the resources, each of their descriptors is closed, as often as they hold
/// it, and nothing else is.
pub proof fn law_undelivered_descriptors_are_closed(r: ResourcesModel, fd: i32)
    ensures
        times_in(all_descriptors(r), fd) == times_a_stream(
            r.streams,
            r.streams.len() as int,
            fd,
        ) + (if r.ctrl == Some(fd) {
            1nat
        } else {
            0
        }),
{
    lemma_present_counts(r.streams, fd);
    if let Some(ctrl) = r.ctrl {
        assert(all_descriptors(r).drop_last() =~= present(r.streams));
    } else {
        assert(all_descriptors(r) =~= present(r.streams));
    }
}

} // verus!
