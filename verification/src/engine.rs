//! The life of a worker thread: started at most once, stopped at most once.
//!
//! Starting and stopping take several actions. Each function gives the first; handing back how
//! that went, with [`Engine::resume`], gives the next, until one is [`EngineAction::Return`] or
//! [`EngineAction::Done`].
use vstd::prelude::*;

verus! {

/// What is to be done with the worker thread.
#[derive(Debug, Clone, Copy, PartialEq, Eq, Structural)]
pub enum EngineAction {
    /// Start the thread.
    Spawn,
    /// Wait until the thread says whether it could set itself up.
    AwaitReady,
    /// Tell the thread to end.
    SendShutdown,
    /// Wait until the thread has ended.
    Join,
    /// Starting is over: 0 if a worker runs, -1 if it does not.
    Return(i32),
    /// Stopping is over.
    Done,
}

/// The action whose outcome is awaited.
#[derive(Debug, Clone, Copy, PartialEq, Eq, Structural)]
pub enum EnginePhase {
    Nothing,
    /// A worker that ended by itself is being joined.
    Replacing,
    Spawning,
    Readying,
    /// A worker that could not set itself up is being joined.
    Abandoning,
    Stopping,
    Joining,
}

/// Whether a worker runs, and what is being done about it.
#[derive(Debug, Clone, Copy, PartialEq, Eq, Structural)]
pub struct Engine {
    pub running: bool,
    pub phase: EnginePhase,
}

impl Engine {
    /// What holds of every engine: one that is being started or stopped counts as not running.
    pub open spec fn wf(self) -> bool {
        self.phase is Nothing || !self.running
    }

    /// What starting leads to. `finished` tells that the worker ended by itself.
    pub open spec fn starting(self, finished: bool) -> (Engine, EngineAction) {
        if self.running && finished {
            (Engine { running: false, phase: EnginePhase::Replacing }, EngineAction::Join)
        } else if self.running {
            (Engine { running: true, phase: EnginePhase::Nothing }, EngineAction::Return(0))
        } else {
            (Engine { running: false, phase: EnginePhase::Spawning }, EngineAction::Spawn)
        }
    }

    /// What stopping leads to.
    pub open spec fn stopping(self) -> (Engine, EngineAction) {
        if self.running {
            (Engine { running: false, phase: EnginePhase::Stopping }, EngineAction::SendShutdown)
        } else {
            (Engine { running: false, phase: EnginePhase::Nothing }, EngineAction::Done)
        }
    }

    /// What follows the outcome of the last action.
    pub open spec fn resumed(self, ok: bool) -> (Engine, EngineAction) {
        let idle = Engine { phase: EnginePhase::Nothing, ..self };
        match self.phase {
            EnginePhase::Nothing => (idle, EngineAction::Done),
            EnginePhase::Replacing => (
                Engine { phase: EnginePhase::Spawning, ..self },
                EngineAction::Spawn,
            ),
            EnginePhase::Spawning => if ok {
                (Engine { phase: EnginePhase::Readying, ..self }, EngineAction::AwaitReady)
            } else {
                (idle, EngineAction::Return(-1i32))
            },
            EnginePhase::Readying => if ok {
                (Engine { running: true, ..idle }, EngineAction::Return(0))
            } else {
                (Engine { phase: EnginePhase::Abandoning, ..self }, EngineAction::Join)
            },
            EnginePhase::Abandoning => (idle, EngineAction::Return(-1i32)),
            EnginePhase::Stopping => (
                Engine { phase: EnginePhase::Joining, ..self },
                EngineAction::Join,
            ),
            EnginePhase::Joining => (idle, EngineAction::Done),
        }
    }

    /// How many actions can still follow, at most.
    pub open spec fn actions_left(self) -> nat {
        match self.phase {
            EnginePhase::Nothing => 0,
            EnginePhase::Joining | EnginePhase::Abandoning => 1,
            EnginePhase::Stopping | EnginePhase::Readying => 2,
            EnginePhase::Spawning => 3,
            EnginePhase::Replacing => 4,
        }
    }

    /// No worker runs.
    pub fn new() -> (engine: Engine)
        ensures
            engine == (Engine { running: false, phase: EnginePhase::Nothing }),
            engine.wf(),
    {
        Engine { running: false, phase: EnginePhase::Nothing }
    }

    /// Starts a worker if none runs. One that ended by itself is replaced.
    pub fn start(&mut self, finished: bool) -> (action: EngineAction)
        ensures
            final(self).wf(),
            (*final(self), action) == old(self).starting(finished),
    {
        if self.running && finished {
            self.running = false;
            self.phase = EnginePhase::Replacing;
            return EngineAction::Join;
        }
        if self.running {
            self.phase = EnginePhase::Nothing;
            return EngineAction::Return(0);
        }
        self.phase = EnginePhase::Spawning;
        EngineAction::Spawn
    }

    /// Stops the worker, if one runs.
    pub fn stop(&mut self) -> (action: EngineAction)
        ensures
            final(self).wf(),
            (*final(self), action) == old(self).stopping(),
    {
        if self.running {
            self.running = false;
            self.phase = EnginePhase::Stopping;
            EngineAction::SendShutdown
        } else {
            self.phase = EnginePhase::Nothing;
            EngineAction::Done
        }
    }

    /// Takes how the last action went, and says what is next.
    pub fn resume(&mut self, ok: bool) -> (action: EngineAction)
        ensures
            old(self).wf() ==> final(self).wf(),
            (*final(self), action) == old(self).resumed(ok),
    {
        let phase = self.phase;
        self.phase = EnginePhase::Nothing;
        match phase {
            EnginePhase::Nothing => EngineAction::Done,
            EnginePhase::Replacing => {
                self.phase = EnginePhase::Spawning;
                EngineAction::Spawn
            },
            EnginePhase::Spawning => {
                if ok {
                    self.phase = EnginePhase::Readying;
                    EngineAction::AwaitReady
                } else {
                    EngineAction::Return(-1)
                }
            },
            EnginePhase::Readying => {
                if ok {
                    self.running = true;
                    EngineAction::Return(0)
                } else {
                    self.phase = EnginePhase::Abandoning;
                    EngineAction::Join
                }
            },
            EnginePhase::Abandoning => EngineAction::Return(-1),
            EnginePhase::Stopping => {
                self.phase = EnginePhase::Joining;
                EngineAction::Join
            },
            EnginePhase::Joining => EngineAction::Done,
        }
    }
}

/// Where an action leads when everything that follows goes as `outcomes` says; what it does not
/// cover fails.
pub open spec fn settled(engine: Engine, action: EngineAction, outcomes: Seq<bool>) -> (
    Engine,
    EngineAction,
)
    decreases engine.actions_left(),
{
    if engine.phase is Nothing {
        (engine, action)
    } else {
        let (next, act) = engine.resumed(outcomes.len() > 0 && outcomes[0]);
        settled(next, act, outcomes.skip(1))
    }
}

/// Starting ends with 0 exactly if a worker runs then, and with -1 exactly if none does.
pub proof fn law_start_tells_whether_a_worker_runs(
    engine: Engine,
    finished: bool,
    outcomes: Seq<bool>,
)
    requires
        engine.phase is Nothing,
    ensures
        ({
            let (first, action) = engine.starting(finished);
            let (end, told) = settled(first, action, outcomes);
            told == EngineAction::Return(
                if end.running {
                    0i32
                } else {
                    -1i32
                },
            )
        }),
{
    reveal_with_fuel(settled, 6);
}

/// Starting again while a worker runs changes nothing, and tells 0.
pub proof fn law_start_is_idempotent(engine: Engine)
    requires
        engine.phase is Nothing,
        engine.running,
    ensures
        engine.starting(false) == (engine, EngineAction::Return(0)),
{
}

/// After stopping no worker runs, however that went; stopping once more does nothing.
pub proof fn law_stop_is_final_and_idempotent(engine: Engine, outcomes: Seq<bool>)
    requires
        engine.phase is Nothing,
    ensures
        ({
            let (first, action) = engine.stopping();
            let (end, told) = settled(first, action, outcomes);
            &&& !end.running
            &&& end.phase is Nothing
            &&& told is Done
            &&& end.stopping() == (end, EngineAction::Done)
        }),
{
    reveal_with_fuel(settled, 4);
}

/// A worker that can be started runs in the end: it is started, and then waited for. One that ended
/// by itself is joined before that.
pub proof fn law_workers_are_started(engine: Engine)
    requires
        engine.phase is Nothing,
    ensures
        !engine.running ==> ({
            let (e1, a1) = engine.starting(false);
            let (e2, a2) = e1.resumed(true);
            let (e3, a3) = e2.resumed(true);
            a1 is Spawn && a2 is AwaitReady && a3 == EngineAction::Return(0) && e3.running
        }),
        engine.running ==> ({
            let (e1, a1) = engine.starting(true);
            let (e2, a2) = e1.resumed(true);
            a1 is Join && a2 is Spawn && !e2.running
        }),
        !engine.running ==> ({
            let (e1, _) = engine.starting(false);
            let (e2, a2) = e1.resumed(false);
            let (e3, a3) = e1.resumed(true).0.resumed(false);
            let (e4, a4) = e3.resumed(true);
            &&& a2 == EngineAction::Return(-1i32) && !e2.running
            &&& a3 is Join && a4 == EngineAction::Return(-1i32) && !e4.running
        }),
{
}

/// A worker that runs is told to end and then joined.
pub proof fn law_workers_are_stopped(engine: Engine, ok: bool, joined: bool)
    requires
        engine.phase is Nothing,
        engine.running,
    ensures
        ({
            let (e1, a1) = engine.stopping();
            let (e2, a2) = e1.resumed(ok);
            let (e3, a3) = e2.resumed(joined);
            a1 is SendShutdown && a2 is Join && a3 is Done && !e3.running
        }),
{
}

} // verus!
