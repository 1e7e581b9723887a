//! The thread that reads one camera's stream.
//!
//! The reader decides, and something else acts. Each step names descriptors that are to be closed
//! first and then an action; the method named after the action takes how that went.
use vstd::prelude::*;

use crate::camera::frame::{frame_size, is_camera_format};
#[allow(unused_imports)]
use crate::camera::frame::{frame_bytes, known_format};
use crate::camera::mapping::{Mapping, SlotRead};
use crate::camera::wire::{
    ReceiveResult, StreamMessage, STREAM_DONE, STREAM_GET_SHM, STREAM_READY, STREAM_SHM_OFFER,
};
use crate::poll::PollOutcome;

verus! {

/// How many messages are taken in before commands and calls are looked at again.
pub const MAX_STREAM_DRAIN_BATCH: u32 = 32;

/// What the worker tells a reader.
#[derive(Debug, Clone, Copy, PartialEq, Eq, Structural)]
pub enum ReaderCommand {
    RequestShm,
    Stop,
}

/// How reading a stretch of memory went.
#[derive(Debug)]
pub enum ReadOutcome {
    Data(Vec<u8>),
    Interrupted,
    Failed,
}

/// A frame on its way to the worker.
#[derive(Debug)]
pub struct ReaderFrame {
    pub stream_generation: u64,
    pub width: u32,
    pub height: u32,
    pub format: u16,
    pub pixels: Vec<u8>,
}

/// The same, as a plain value.
pub struct FrameModel {
    pub stream_generation: u64,
    pub width: u32,
    pub height: u32,
    pub format: u16,
    pub pixels: Seq<u8>,
}

impl View for ReaderFrame {
    type V = FrameModel;

    open spec fn view(&self) -> FrameModel {
        FrameModel {
            stream_generation: self.stream_generation,
            width: self.width,
            height: self.height,
            format: self.format,
            pixels: self.pixels@,
        }
    }
}

/// Where a reader leaves its latest frame for the worker.
#[derive(Debug)]
pub struct Mailbox {
    pub latest: Option<ReaderFrame>,
}

impl Mailbox {
    /// The frame that is there.
    pub open spec fn frame(&self) -> Option<FrameModel> {
        match self.latest {
            Some(frame) => Some(frame@),
            None => None,
        }
    }

    /// An empty mailbox.
    pub fn new() -> (mailbox: Mailbox)
        ensures
            mailbox.frame() is None,
    {
        Mailbox { latest: None }
    }

    /// Leaves a frame in place of the one that may be there. Tells whether the worker is to be
    /// told: it was, if a frame was there.
    pub fn put(&mut self, frame: ReaderFrame) -> (notify: bool)
        ensures
            notify == (old(self).frame() is None),
            final(self).frame() == Some(frame@),
    {
        let notify = self.latest.is_none();
        self.latest = Some(frame);
        notify
    }

    /// Takes the frame out.
    pub fn take(&mut self) -> (frame: Option<ReaderFrame>)
        ensures
            final(self).frame() is None,
            match frame {
                Some(f) => old(self).frame() == Some(f@),
                None => old(self).frame() is None,
            },
    {
        self.latest.take()
    }
}

/// What the reader does next.
#[derive(Debug, Clone, Copy, PartialEq, Eq, Structural)]
pub enum ReaderAction {
    /// Look for a command: [`Reader::commanded`].
    TryCommand,
    /// Send a message: [`Reader::sent`].
    SendStream { kind: u8, slot: u8 },
    /// Wait for a call or for input: [`Reader::polled`].
    Poll,
    /// Take in all calls: [`Reader::woken`].
    DrainWake,
    /// Receive a message, without waiting: [`Reader::received`].
    Receive,
    /// Find out how large the file is: [`Reader::measured`].
    GetSize(i32),
    /// Read a stretch of memory: [`Reader::copied`].
    Read(SlotRead),
    /// Leave the frame for the worker: [`Reader::deliver`].
    Deliver,
    /// Tell the worker that the reader ended, and end.
    ReportClosed,
}

/// Where commands are looked for.
#[derive(Debug, Clone, Copy, PartialEq, Eq, Structural)]
pub enum Checkpoint {
    BeforePoll,
    /// After calls; `stop` tells that the worker is gone.
    AfterWake { stop: bool },
    AfterMessage,
}

/// The action whose outcome is awaited.
#[derive(Debug, Clone, Copy, PartialEq, Eq, Structural)]
pub enum ReaderPhase {
    Commands(Checkpoint),
    Requesting(Checkpoint),
    Polling,
    Waking,
    Receiving,
    Measuring { fd: i32, slot_bytes: usize },
    /// The frame of this message is being copied.
    Copying { message: StreamMessage, read: SlotRead },
    /// The slot of this message is being released.
    Releasing { message: StreamMessage, copied: bool },
    Delivering { message: StreamMessage },
    Ended,
}

/// The state of a reader.
pub struct Reader {
    pub generation: u64,
    pub mapping: Option<Mapping>,
    /// Memory is wanted.
    pub needs_shm: bool,
    /// Memory was asked for.
    pub shm_requested: bool,
    /// How many messages may follow in this batch.
    pub batch: u32,
    pub input: bool,
    pub hangup: bool,
    pub phase: ReaderPhase,
    /// What was copied of a frame.
    pub pixels: Vec<u8>,
}

/// The same, as a plain value.
pub struct ReaderModel {
    pub generation: u64,
    pub mapping: Option<Mapping>,
    pub needs_shm: bool,
    pub shm_requested: bool,
    pub batch: u32,
    pub input: bool,
    pub hangup: bool,
    pub phase: ReaderPhase,
    pub pixels: Seq<u8>,
}

impl View for Reader {
    type V = ReaderModel;

    open spec fn view(&self) -> ReaderModel {
        ReaderModel {
            generation: self.generation,
            mapping: self.mapping,
            needs_shm: self.needs_shm,
            shm_requested: self.shm_requested,
            batch: self.batch,
            input: self.input,
            hangup: self.hangup,
            phase: self.phase,
            pixels: self.pixels@,
        }
    }
}

/// What is to be closed, and what is to be done then.
pub struct ReaderStep {
    pub close: Vec<i32>,
    pub action: ReaderAction,
}

/// A step, with the reader after it.
pub struct StepModel {
    pub reader: ReaderModel,
    pub close: Seq<i32>,
    pub action: ReaderAction,
}

/// What is left of a stretch when `done` bytes of it are read.
pub open spec fn rest_of(read: SlotRead, done: nat) -> SlotRead {
    SlotRead {
        fd: read.fd,
        offset: (read.offset + done) as usize,
        len: (read.len - done) as usize,
    }
}

impl ReaderModel {
    /// What holds of every reader.
    pub open spec fn wf(self) -> bool {
        &&& self.mapping matches Some(m) ==> m.wf()
        &&& self.phase is Receiving ==> self.batch > 0
        &&& self.phase matches ReaderPhase::Commands(Checkpoint::AfterMessage) ==> self.batch > 0
        &&& self.phase matches ReaderPhase::Requesting(Checkpoint::AfterMessage) ==> self.batch > 0
        &&& self.phase is Measuring ==> self.batch > 0
        &&& self.phase matches ReaderPhase::Copying { message, read } ==> {
            &&& self.batch > 0
            &&& read.offset + read.len <= usize::MAX
            &&& self.pixels.len() < read.len
            &&& frame_bytes(message.a, message.b) == Some(read.len)
            &&& known_format(message.format)
        }
        &&& self.phase matches ReaderPhase::Releasing { message, copied } ==> {
            &&& self.batch > 0
            &&& copied ==> frame_bytes(message.a, message.b) == Some(self.pixels.len() as usize)
                && self.pixels.len() <= usize::MAX && known_format(message.format)
        }
        &&& self.phase matches ReaderPhase::Delivering { message } ==> {
            &&& self.batch > 0
            &&& frame_bytes(message.a, message.b) == Some(self.pixels.len() as usize)
            &&& self.pixels.len() <= usize::MAX
            &&& known_format(message.format)
        }
    }

    /// A reader that has no memory yet.
    pub open spec fn started(generation: u64) -> ReaderModel {
        ReaderModel {
            generation,
            mapping: None,
            needs_shm: true,
            shm_requested: false,
            batch: 0,
            input: false,
            hangup: false,
            phase: ReaderPhase::Commands(Checkpoint::BeforePoll),
            pixels: Seq::empty(),
        }
    }

    pub open spec fn doing(
        self,
        phase: ReaderPhase,
        close: Seq<i32>,
        action: ReaderAction,
    ) -> StepModel {
        StepModel { reader: ReaderModel { phase, ..self }, close, action }
    }

    /// Commands are looked for.
    pub open spec fn checking(self, at: Checkpoint, close: Seq<i32>) -> StepModel {
        self.doing(ReaderPhase::Commands(at), close, ReaderAction::TryCommand)
    }

    /// The reader ends, and lets its memory go.
    pub open spec fn ended(self, close: Seq<i32>) -> StepModel {
        let left = match self.mapping {
            Some(m) => close.push(m.fd),
            None => close,
        };
        ReaderModel { mapping: None, ..self }.doing(
            ReaderPhase::Ended,
            left,
            ReaderAction::ReportClosed,
        )
    }

    /// There is nothing more to receive for now.
    pub open spec fn drained(self, close: Seq<i32>) -> StepModel {
        if self.hangup {
            self.ended(close)
        } else {
            self.checking(Checkpoint::BeforePoll, close)
        }
    }

    pub open spec fn receiving(self) -> StepModel {
        self.doing(ReaderPhase::Receiving, Seq::empty(), ReaderAction::Receive)
    }

    /// Receives a batch if there is input.
    pub open spec fn reading(self) -> StepModel {
        if self.input {
            ReaderModel { batch: MAX_STREAM_DRAIN_BATCH, ..self }.receiving()
        } else {
            self.drained(Seq::empty())
        }
    }

    /// There are no more commands.
    pub open spec fn checked(self, at: Checkpoint, stop: bool) -> StepModel {
        match at {
            Checkpoint::BeforePoll => if stop {
                self.ended(Seq::empty())
            } else {
                self.doing(ReaderPhase::Polling, Seq::empty(), ReaderAction::Poll)
            },
            Checkpoint::AfterWake { stop: gone } => if stop || gone {
                self.ended(Seq::empty())
            } else {
                self.reading()
            },
            Checkpoint::AfterMessage => if stop {
                self.ended(Seq::empty())
            } else if self.batch > 1 {
                ReaderModel { batch: (self.batch - 1) as u32, ..self }.receiving()
            } else {
                ReaderModel { batch: 0, ..self }.drained(Seq::empty())
            },
        }
    }

    /// What follows a command, or that there is none.
    pub open spec fn after_command(self, at: Checkpoint, command: Option<ReaderCommand>) -> StepModel {
        match command {
            None => self.checked(at, false),
            Some(ReaderCommand::Stop) => self.checked(at, true),
            Some(ReaderCommand::RequestShm) => if self.needs_shm && !self.shm_requested {
                self.doing(
                    ReaderPhase::Requesting(at),
                    Seq::empty(),
                    ReaderAction::SendStream { kind: STREAM_GET_SHM, slot: 0 },
                )
            } else {
                self.checking(at, Seq::empty())
            },
        }
    }

    /// What follows a message that was sent, or could not be.
    pub open spec fn after_sending(self, ok: bool) -> StepModel {
        match self.phase {
            ReaderPhase::Requesting(at) => ReaderModel { shm_requested: ok, ..self }.checking(
                at,
                Seq::empty(),
            ),
            ReaderPhase::Releasing { message, copied } => if copied {
                self.doing(
                    ReaderPhase::Delivering { message },
                    Seq::empty(),
                    ReaderAction::Deliver,
                )
            } else {
                ReaderModel { needs_shm: true, shm_requested: false, ..self }.checking(
                    Checkpoint::AfterMessage,
                    Seq::empty(),
                )
            },
            _ => self.ended(Seq::empty()),
        }
    }

    /// What follows a wait.
    pub open spec fn after_poll(self, outcome: PollOutcome) -> StepModel {
        match outcome {
            PollOutcome::Interrupted => self.checking(Checkpoint::BeforePoll, Seq::empty()),
            PollOutcome::Failed => self.ended(Seq::empty()),
            PollOutcome::Ready { wake, input, hangup } => {
                let s = ReaderModel { input, hangup, ..self };
                if wake {
                    s.doing(ReaderPhase::Waking, Seq::empty(), ReaderAction::DrainWake)
                } else {
                    s.reading()
                }
            },
        }
    }

    /// The slot is given back, whatever became of the frame in it.
    pub open spec fn releasing(self, message: StreamMessage, copied: bool, close: Seq<i32>) -> StepModel {
        self.doing(
            ReaderPhase::Releasing { message, copied },
            close,
            ReaderAction::SendStream { kind: STREAM_DONE, slot: message.slot },
        )
    }

    /// The stretch of memory that holds the frame of a message, if there can be one.
    pub open spec fn frame_at(self, message: StreamMessage) -> Option<SlotRead> {
        match (self.mapping, frame_bytes(message.a, message.b)) {
            (Some(m), Some(bytes)) => if known_format(message.format) {
                m.slot(message.slot, bytes)
            } else {
                None
            },
            _ => None,
        }
    }

    /// What follows a message. Only an offer of memory keeps a descriptor, the first.
    pub open spec fn after_message(self, message: StreamMessage, fds: Seq<i32>) -> StepModel {
        if message.kind == STREAM_SHM_OFFER {
            if fds.len() == 0 {
                ReaderModel { needs_shm: true, shm_requested: false, ..self }.checking(
                    Checkpoint::AfterMessage,
                    Seq::empty(),
                )
            } else {
                self.doing(
                    ReaderPhase::Measuring { fd: fds[0], slot_bytes: message.a as usize },
                    fds.skip(1),
                    ReaderAction::GetSize(fds[0]),
                )
            }
        } else if message.kind == STREAM_READY {
            match self.frame_at(message) {
                Some(read) => ReaderModel { pixels: Seq::empty(), ..self }.doing(
                    ReaderPhase::Copying { message, read },
                    fds,
                    ReaderAction::Read(read),
                ),
                None => self.releasing(message, false, fds),
            }
        } else {
            self.checking(Checkpoint::AfterMessage, fds)
        }
    }

    /// What follows an offer of memory: it replaces what was there, or is turned down.
    pub open spec fn after_size(self, size: Option<i64>) -> StepModel {
        match self.phase {
            ReaderPhase::Measuring { fd, slot_bytes } => match Mapping::of(fd, slot_bytes, size) {
                Some(mapping) => ReaderModel {
                    mapping: Some(mapping),
                    needs_shm: false,
                    shm_requested: false,
                    ..self
                }.checking(
                    Checkpoint::AfterMessage,
                    match self.mapping {
                        Some(m) => seq![m.fd],
                        None => Seq::empty(),
                    },
                ),
                None => ReaderModel { needs_shm: true, shm_requested: false, ..self }.checking(
                    Checkpoint::AfterMessage,
                    seq![fd],
                ),
            },
            _ => self.ended(Seq::empty()),
        }
    }

    /// What follows reading: more of the same frame, or the release of its slot.
    pub open spec fn after_data(self, data: Seq<u8>) -> StepModel {
        match self.phase {
            ReaderPhase::Copying { message, read } => {
                let pixels = self.pixels + data;
                if data.len() == 0 || pixels.len() > read.len {
                    self.releasing(message, false, Seq::empty())
                } else if pixels.len() < read.len {
                    ReaderModel { pixels, ..self }.doing(
                        self.phase,
                        Seq::empty(),
                        ReaderAction::Read(rest_of(read, pixels.len())),
                    )
                } else {
                    ReaderModel { pixels, ..self }.releasing(message, true, Seq::empty())
                }
            },
            _ => self.ended(Seq::empty()),
        }
    }

    /// What follows reading that was interrupted, or failed.
    pub open spec fn after_no_data(self, again: bool) -> StepModel {
        match self.phase {
            ReaderPhase::Copying { message, read } => if again {
                self.doing(
                    self.phase,
                    Seq::empty(),
                    ReaderAction::Read(rest_of(read, self.pixels.len())),
                )
            } else {
                self.releasing(message, false, Seq::empty())
            },
            _ => self.ended(Seq::empty()),
        }
    }

    /// What follows a delivery.
    pub open spec fn after_delivery(self) -> StepModel {
        ReaderModel { pixels: Seq::empty(), ..self }.checking(
            Checkpoint::AfterMessage,
            Seq::empty(),
        )
    }

    /// The frame that is delivered.
    pub open spec fn delivered(self, message: StreamMessage) -> FrameModel {
        FrameModel {
            stream_generation: self.generation,
            width: message.a,
            height: message.b,
            format: message.format,
            pixels: self.pixels,
        }
    }
}

/// A step and the reader after it are what the model says.
pub open spec fn follows(reader: Reader, step: ReaderStep, model: StepModel) -> bool {
    reader@ == model.reader && step.close@ == model.close && step.action == model.action
}

fn nothing_to_close() -> (v: Vec<i32>)
    ensures
        v@ == Seq::<i32>::empty(),
{
    Vec::new()
}

impl Reader {
    /// What holds of every reader.
    pub open spec fn wf(&self) -> bool {
        self@.wf()
    }

    /// A reader that has no memory yet, and its first step.
    pub fn start(generation: u64) -> (r: (Reader, ReaderStep))
        ensures
            r.0.wf(),
            r.0@ == ReaderModel::started(generation),
            r.1.close@ == Seq::<i32>::empty(),
            r.1.action == ReaderAction::TryCommand,
    {
        let reader = Reader {
            generation,
            mapping: None,
            needs_shm: true,
            shm_requested: false,
            batch: 0,
            input: false,
            hangup: false,
            phase: ReaderPhase::Commands(Checkpoint::BeforePoll),
            pixels: Vec::new(),
        };
        (reader, ReaderStep { close: nothing_to_close(), action: ReaderAction::TryCommand })
    }

    fn check(&mut self, at: Checkpoint, close: Vec<i32>) -> (step: ReaderStep)
        ensures
            follows(*final(self), step, old(self)@.checking(at, close@)),
    {
        self.phase = ReaderPhase::Commands(at);
        ReaderStep { close, action: ReaderAction::TryCommand }
    }

    fn end(&mut self, close: Vec<i32>) -> (step: ReaderStep)
        ensures
            follows(*final(self), step, old(self)@.ended(close@)),
    {
        let mut close = close;
        if let Some(mapping) = self.mapping {
            close.push(mapping.fd);
        }
        self.mapping = None;
        self.phase = ReaderPhase::Ended;
        ReaderStep { close, action: ReaderAction::ReportClosed }
    }

    fn drain(&mut self, close: Vec<i32>) -> (step: ReaderStep)
        ensures
            follows(*final(self), step, old(self)@.drained(close@)),
    {
        if self.hangup {
            self.end(close)
        } else {
            self.check(Checkpoint::BeforePoll, close)
        }
    }

    fn receive(&mut self) -> (step: ReaderStep)
        ensures
            follows(*final(self), step, old(self)@.receiving()),
    {
        self.phase = ReaderPhase::Receiving;
        ReaderStep { close: nothing_to_close(), action: ReaderAction::Receive }
    }

    fn read(&mut self) -> (step: ReaderStep)
        ensures
            follows(*final(self), step, old(self)@.reading()),
    {
        if self.input {
            self.batch = MAX_STREAM_DRAIN_BATCH;
            self.receive()
        } else {
            self.drain(nothing_to_close())
        }
    }

    fn finish_commands(&mut self, at: Checkpoint, stop: bool) -> (step: ReaderStep)
        ensures
            follows(*final(self), step, old(self)@.checked(at, stop)),
    {
        match at {
            Checkpoint::BeforePoll => {
                if stop {
                    return self.end(nothing_to_close());
                }
                self.phase = ReaderPhase::Polling;
                ReaderStep { close: nothing_to_close(), action: ReaderAction::Poll }
            },
            Checkpoint::AfterWake { stop: gone } => {
                if stop || gone {
                    return self.end(nothing_to_close());
                }
                self.read()
            },
            Checkpoint::AfterMessage => {
                if stop {
                    return self.end(nothing_to_close());
                }
                if self.batch > 1 {
                    self.batch = self.batch - 1;
                    self.receive()
                } else {
                    self.batch = 0;
                    self.drain(nothing_to_close())
                }
            },
        }
    }

    /// Takes a command, or that there is none.
    pub fn commanded(&mut self, command: Option<ReaderCommand>) -> (step: ReaderStep)
        requires
            old(self).wf(),
            old(self).phase is Commands,
        ensures
            final(self).wf(),
            follows(
                *final(self),
                step,
                old(self)@.after_command(old(self).phase->Commands_0, command),
            ),
    {
        let ReaderPhase::Commands(at) = self.phase else {
            return self.end(nothing_to_close());
        };
        self.handle_reader_command(at, command)
    }

    fn handle_reader_command(&mut self, at: Checkpoint, command: Option<ReaderCommand>) -> (step:
        ReaderStep)
        ensures
            follows(*final(self), step, old(self)@.after_command(at, command)),
    {
        match command {
            None => self.finish_commands(at, false),
            Some(ReaderCommand::Stop) => self.finish_commands(at, true),
            Some(ReaderCommand::RequestShm) => {
                if self.needs_shm && !self.shm_requested {
                    self.phase = ReaderPhase::Requesting(at);
                    ReaderStep {
                        close: nothing_to_close(),
                        action: ReaderAction::SendStream { kind: STREAM_GET_SHM, slot: 0 },
                    }
                } else {
                    self.check(at, nothing_to_close())
                }
            },
        }
    }

    /// A message was sent, or could not be.
    pub fn sent(&mut self, ok: bool) -> (step: ReaderStep)
        requires
            old(self).wf(),
            old(self).phase is Requesting || old(self).phase is Releasing,
        ensures
            final(self).wf(),
            follows(*final(self), step, old(self)@.after_sending(ok)),
    {
        match self.phase {
            ReaderPhase::Requesting(at) => {
                self.shm_requested = ok;
                self.check(at, nothing_to_close())
            },
            ReaderPhase::Releasing { message, copied } => {
                if copied {
                    self.phase = ReaderPhase::Delivering { message };
                    ReaderStep { close: nothing_to_close(), action: ReaderAction::Deliver }
                } else {
                    self.needs_shm = true;
                    self.shm_requested = false;
                    self.check(Checkpoint::AfterMessage, nothing_to_close())
                }
            },
            _ => self.end(nothing_to_close()),
        }
    }

    /// Takes how waiting ended.
    pub fn polled(&mut self, outcome: PollOutcome) -> (step: ReaderStep)
        requires
            old(self).wf(),
            old(self).phase is Polling,
        ensures
            final(self).wf(),
            follows(*final(self), step, old(self)@.after_poll(outcome)),
    {
        match outcome {
            PollOutcome::Interrupted => self.check(Checkpoint::BeforePoll, nothing_to_close()),
            PollOutcome::Failed => self.end(nothing_to_close()),
            PollOutcome::Ready { wake, input, hangup } => {
                self.input = input;
                self.hangup = hangup;
                if wake {
                    self.phase = ReaderPhase::Waking;
                    ReaderStep { close: nothing_to_close(), action: ReaderAction::DrainWake }
                } else {
                    self.read()
                }
            },
        }
    }

    /// All calls are taken in; `stop` tells that no more can come.
    pub fn woken(&mut self, stop: bool) -> (step: ReaderStep)
        requires
            old(self).wf(),
            old(self).phase is Waking,
        ensures
            final(self).wf(),
            follows(
                *final(self),
                step,
                old(self)@.checking(Checkpoint::AfterWake { stop }, Seq::empty()),
            ),
    {
        self.check(Checkpoint::AfterWake { stop }, nothing_to_close())
    }

    fn release(&mut self, message: StreamMessage, copied: bool, close: Vec<i32>) -> (step:
        ReaderStep)
        ensures
            follows(*final(self), step, old(self)@.releasing(message, copied, close@)),
    {
        self.phase = ReaderPhase::Releasing { message, copied };
        ReaderStep {
            close,
            action: ReaderAction::SendStream { kind: STREAM_DONE, slot: message.slot },
        }
    }

    fn find_frame(&self, message: StreamMessage) -> (read: Option<SlotRead>)
        requires
            self.wf(),
        ensures
            read == self@.frame_at(message),
            read matches Some(r) ==> r.offset + r.len <= usize::MAX,
    {
        if !is_camera_format(message.format) {
            return None;
        }
        match (self.mapping, frame_size(message.a, message.b)) {
            (Some(mapping), Some(bytes)) => mapping.copy_slot(message.slot, bytes),
            _ => None,
        }
    }

    fn handle_message(&mut self, message: StreamMessage, fds: Vec<i32>) -> (step: ReaderStep)
        requires
            old(self).wf(),
            old(self).phase is Receiving,
        ensures
            final(self).wf(),
            follows(*final(self), step, old(self)@.after_message(message, fds@)),
    {
        let mut fds = fds;
        if message.kind == STREAM_SHM_OFFER {
            if fds.len() == 0 {
                self.needs_shm = true;
                self.shm_requested = false;
                return self.check(Checkpoint::AfterMessage, nothing_to_close());
            }
            let ghost all = fds@;
            let fd = fds.remove(0);
            assert(fds@ =~= all.skip(1));
            self.phase = ReaderPhase::Measuring { fd, slot_bytes: message.a as usize };
            ReaderStep { close: fds, action: ReaderAction::GetSize(fd) }
        } else if message.kind == STREAM_READY {
            match self.find_frame(message) {
                Some(read) => {
                    self.pixels = Vec::new();
                    self.phase = ReaderPhase::Copying { message, read };
                    ReaderStep { close: fds, action: ReaderAction::Read(read) }
                },
                None => self.release(message, false, fds),
            }
        } else {
            self.check(Checkpoint::AfterMessage, fds)
        }
    }

    /// Takes what was received.
    pub fn received(&mut self, result: ReceiveResult) -> (step: ReaderStep)
        requires
            old(self).wf(),
            old(self).phase is Receiving,
        ensures
            final(self).wf(),
            match result {
                ReceiveResult::Message(message, fds) => follows(
                    *final(self),
                    step,
                    old(self)@.after_message(message, fds@),
                ),
                ReceiveResult::Again(fds) => follows(
                    *final(self),
                    step,
                    old(self)@.drained(fds@),
                ),
                _ => follows(*final(self), step, old(self)@.ended(Seq::empty())),
            },
    {
        match result {
            ReceiveResult::Message(message, fds) => self.handle_message(message, fds),
            ReceiveResult::Again(fds) => self.drain(fds),
            ReceiveResult::Closed => self.end(nothing_to_close()),
            ReceiveResult::Error => self.end(nothing_to_close()),
        }
    }

    /// Takes the size of a file that was offered, if it could be found out.
    pub fn measured(&mut self, size: Option<i64>) -> (step: ReaderStep)
        requires
            old(self).wf(),
            old(self).phase is Measuring,
        ensures
            final(self).wf(),
            follows(*final(self), step, old(self)@.after_size(size)),
    {
        let ReaderPhase::Measuring { fd, slot_bytes } = self.phase else {
            return self.end(nothing_to_close());
        };
        self.shm_requested = false;
        match Mapping::new(fd, slot_bytes, size) {
            Some(mapping) => {
                let mut close = nothing_to_close();
                if let Some(old) = self.mapping {
                    close.push(old.fd);
                    assert(close@ =~= seq![old.fd]);
                }
                self.mapping = Some(mapping);
                self.needs_shm = false;
                self.check(Checkpoint::AfterMessage, close)
            },
            None => {
                self.needs_shm = true;
                let mut close = nothing_to_close();
                close.push(fd);
                assert(close@ =~= seq![fd]);
                self.check(Checkpoint::AfterMessage, close)
            },
        }
    }

    /// Takes what was read of a frame.
    pub fn copied(&mut self, outcome: ReadOutcome) -> (step: ReaderStep)
        requires
            old(self).wf(),
            old(self).phase is Copying,
        ensures
            final(self).wf(),
            match outcome {
                ReadOutcome::Data(data) => follows(
                    *final(self),
                    step,
                    old(self)@.after_data(data@),
                ),
                ReadOutcome::Interrupted => follows(
                    *final(self),
                    step,
                    old(self)@.after_no_data(true),
                ),
                ReadOutcome::Failed => follows(
                    *final(self),
                    step,
                    old(self)@.after_no_data(false),
                ),
            },
    {
        let ReaderPhase::Copying { message, read } = self.phase else {
            return self.end(nothing_to_close());
        };
        let done: usize = self.pixels.len();
        match outcome {
            ReadOutcome::Failed => self.release(message, false, nothing_to_close()),
            ReadOutcome::Interrupted => ReaderStep {
                close: nothing_to_close(),
                action: ReaderAction::Read(
                    SlotRead { fd: read.fd, offset: read.offset + done, len: read.len - done },
                ),
            },
            ReadOutcome::Data(data) => {
                let mut data = data;
                if data.len() == 0 || data.len() > read.len - done {
                    return self.release(message, false, nothing_to_close());
                }
                let ghost before = self.pixels@;
                let ghost added = data@;
                self.pixels.append(&mut data);
                assert(self.pixels@ =~= before + added);
                let done: usize = self.pixels.len();
                if done < read.len {
                    ReaderStep {
                        close: nothing_to_close(),
                        action: ReaderAction::Read(
                            SlotRead {
                                fd: read.fd,
                                offset: read.offset + done,
                                len: read.len - done,
                            },
                        ),
                    }
                } else {
                    self.release(message, true, nothing_to_close())
                }
            },
        }
    }

    /// Leaves the frame in the mailbox. Tells whether the worker is to be told of it.
    pub fn deliver(&mut self, mailbox: &mut Mailbox) -> (r: (bool, ReaderStep))
        requires
            old(self).wf(),
            old(self).phase is Delivering,
        ensures
            final(self).wf(),
            r.0 == (old(mailbox).frame() is None),
            final(mailbox).frame() == Some(
                old(self)@.delivered(old(self).phase->Delivering_message),
            ),
            follows(*final(self), r.1, old(self)@.after_delivery()),
    {
        let ReaderPhase::Delivering { message } = self.phase else {
            return (false, self.end(nothing_to_close()));
        };
        let mut pixels: Vec<u8> = Vec::new();
        std::mem::swap(&mut pixels, &mut self.pixels);
        let frame = ReaderFrame {
            stream_generation: self.generation,
            width: message.a,
            height: message.b,
            format: message.format,
            pixels,
        };
        let notify = mailbox.put(frame);
        (notify, self.check(Checkpoint::AfterMessage, nothing_to_close()))
    }
}

} // verus!
