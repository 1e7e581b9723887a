//! The audio worker: which socket it reads, which streams it keeps, and in which formats.
//!
//! The worker decides, and something else acts. Handing it a command or an event gives the first
//! action; handing back how that went, with [`WorkerState::resume`], gives the next, until one of
//! them is [`Action::Done`] or [`Action::Acknowledge`].
use vstd::prelude::*;

use crate::audio::datagram::{
    frame_stride, FormatAnnouncement, AUDIO_FORMAT_S16LE, AUDIO_ROLE_CAPTURE, AUDIO_ROLE_PLAYBACK,
    DEFAULT_CAP_CHANNELS, DEFAULT_PLAY_CHANNELS, DEFAULT_RATE,
};
#[allow(unused_imports)]
use crate::audio::datagram::stride_of;
use crate::audio::ring::CaptureBuffer;
#[allow(unused_imports)]
use crate::audio::ring::Captured;
#[allow(unused_imports)]
use crate::counter::following;

verus! {

/// The object that stands for the connection itself.
pub const PW_ID_CORE: u32 = 0;
/// The error that a lost connection reports.
pub const EPIPE: i32 = 32;

/// The format of a stream.
#[derive(Debug, Clone, Copy, PartialEq, Eq, Structural)]
pub struct CurrentFormat {
    pub rate: u32,
    pub channels: u32,
    /// Frames per period, or 0 to leave that open.
    pub quantum: u32,
}

impl CurrentFormat {
    /// A format that leaves the period open.
    pub fn new(rate: u32, channels: u32) -> (format: CurrentFormat)
        ensures
            format == (CurrentFormat { rate, channels, quantum: 0 }),
    {
        CurrentFormat { rate, channels, quantum: 0 }
    }

    /// The samples differ, not only the period.
    pub open spec fn differs(self, other: CurrentFormat) -> bool {
        self.rate != other.rate || self.channels != other.channels
    }
}

/// What the worker is told to do.
#[derive(Debug, Clone, Copy, PartialEq, Eq, Structural)]
pub enum Command {
    /// Talk to this socket, which the worker now owns, or to none.
    SetSocket(Option<i32>),
    Shutdown,
}

/// What happened elsewhere.
#[derive(Debug, Clone, Copy, PartialEq, Eq, Structural)]
pub enum WorkerEvent {
    /// The reader of that generation got an announcement, and waits until it is applied.
    Format { socket_generation: u64, format: FormatAnnouncement },
    /// The reader of that generation ended.
    ReaderClosed(u64),
    /// The connection of that generation, or one of its streams, failed.
    PipeWireBroken(u64),
}

/// What is to be done next.
#[derive(Debug, Clone, Copy, PartialEq, Eq, Structural)]
pub enum Action {
    /// Nothing more.
    Done,
    /// Nothing more, but to let the reader go on.
    Acknowledge,
    /// End the reader and wait until it is gone.
    StopReader,
    /// Close this socket.
    Close(i32),
    /// Start a reader on this socket.
    SpawnReader { socket: i32, generation: u64 },
    /// Give the stream another format.
    UpdateFormat { playback: bool, rate: u32, channels: u32 },
    /// Give the stream another latency.
    UpdateLatency { playback: bool, quantum: u32, rate: u32 },
    /// Connect to the server.
    ConnectCore { generation: u64 },
    /// Create both streams on the connection.
    CreateStreams { speaker: CurrentFormat, microphone: CurrentFormat, generation: u64 },
    /// Drop both streams, then the connection.
    DropPipewire,
}

/// What follows when the socket is detached.
#[derive(Debug, Clone, Copy, PartialEq, Eq, Structural)]
pub enum After {
    Nothing,
    Attach(i32),
    DropPipewire,
}

/// A change of format under way.
#[derive(Debug, Clone, Copy, PartialEq, Eq, Structural)]
pub struct Update {
    pub playback: bool,
    pub format_changed: bool,
    pub next: CurrentFormat,
    pub stride: u32,
}

/// The action whose outcome is awaited.
#[derive(Debug, Clone, Copy, PartialEq, Eq, Structural)]
pub enum Awaiting {
    Nothing,
    /// The reader is being stopped.
    Detaching(After),
    /// The old socket is being closed.
    Closing(After),
    Spawning(i32),
    UpdatingFormat(Update),
    UpdatingLatency(Update),
    Connecting { acknowledge: bool },
    Creating { acknowledge: bool },
    /// The connection is being dropped, to be made again.
    Rebuilding { acknowledge: bool },
    /// The last action.
    Ending { acknowledge: bool },
}

/// The state of the worker.
#[derive(Debug, Clone, Copy, PartialEq, Eq, Structural)]
pub struct WorkerState {
    /// The most channels that a stream can have.
    pub max_channels: usize,
    /// There is a connection.
    pub core: bool,
    /// There are streams.
    pub streams: bool,
    pub core_generation: u64,
    pub socket_generation: u64,
    /// The socket that playback goes to.
    pub socket: Option<i32>,
    /// A reader runs on the socket.
    pub reader: bool,
    pub playback_format: CurrentFormat,
    pub capture_format: CurrentFormat,
    pub desired_playback_format: CurrentFormat,
    pub desired_capture_format: CurrentFormat,
    pub stopping: bool,
    pub awaiting: Awaiting,
}

/// The worker, the samples and the next action.
pub struct Turn {
    pub worker: WorkerState,
    pub buffer: Captured,
    pub action: Action,
}

/// No samples; the frames stay as large.
pub open spec fn emptied(b: Captured) -> Captured {
    Captured { held: Seq::empty(), stride: b.stride }
}

/// No samples, and frames of `stride` bytes from here on.
pub open spec fn restarted(stride: u32) -> Captured {
    Captured { held: Seq::empty(), stride }
}

/// A format announcement with the defaults put in, if streams can have it.
pub open spec fn announced(
    a: FormatAnnouncement,
    max_channels: usize,
) -> Option<(bool, CurrentFormat)> {
    let playback = a.role == AUDIO_ROLE_PLAYBACK;
    let rate = if a.rate == 0 {
        DEFAULT_RATE
    } else {
        a.rate
    };
    let channels = if a.channels != 0 {
        a.channels
    } else if playback {
        DEFAULT_PLAY_CHANNELS
    } else {
        DEFAULT_CAP_CHANNELS
    };
    if a.format == AUDIO_FORMAT_S16LE && (playback || a.role == AUDIO_ROLE_CAPTURE) && stride_of(
        channels,
    ) is Some && rate <= i32::MAX && channels <= max_channels {
        Some((playback, CurrentFormat { rate, channels, quantum: a.quantum }))
    } else {
        None
    }
}

impl WorkerState {
    /// A format whose frames have a size.
    pub open spec fn framed(format: CurrentFormat) -> bool {
        stride_of(format.channels) is Some
    }

    /// An update holds the frame size that belongs to its format.
    pub open spec fn consistent(u: Update) -> bool {
        stride_of(u.next.channels) == Some(u.stride)
    }

    /// What holds of every worker.
    pub open spec fn wf(self) -> bool {
        &&& Self::framed(self.capture_format)
        &&& Self::framed(self.desired_capture_format)
        &&& Self::framed(self.playback_format)
        &&& Self::framed(self.desired_playback_format)
        &&& self.streams ==> self.core
        &&& match self.awaiting {
            Awaiting::Detaching(_) => !self.reader && self.socket is Some,
            Awaiting::Closing(_) | Awaiting::Spawning(_) => !self.reader && self.socket is None,
            Awaiting::UpdatingFormat(u) => self.reader == (self.socket is Some)
                && Self::consistent(u) && u.format_changed,
            Awaiting::UpdatingLatency(u) => self.reader == (self.socket is Some)
                && Self::consistent(u) && (!u.format_changed && !u.playback
                ==> !u.next.differs(self.capture_format)),
            Awaiting::Creating { .. } => self.reader == (self.socket is Some) && self.core
                && !self.streams,
            Awaiting::Connecting { .. } => self.reader == (self.socket is Some) && !self.core,
            _ => self.reader == (self.socket is Some),
        }
    }

    /// The frames in the buffer are those of the capture format that the stream has.
    pub open spec fn matches_frames(self, b: Captured) -> bool {
        stride_of(self.capture_format.channels) == Some(b.stride)
    }

    /// Nothing more to do.
    pub open spec fn finished(self, b: Captured, acknowledge: bool) -> Turn {
        Turn {
            worker: WorkerState { awaiting: Awaiting::Nothing, ..self },
            buffer: b,
            action: if acknowledge {
                Action::Acknowledge
            } else {
                Action::Done
            },
        }
    }

    /// One more action, whose outcome is awaited.
    pub open spec fn acting(self, b: Captured, awaiting: Awaiting, action: Action) -> Turn {
        Turn { worker: WorkerState { awaiting, ..self }, buffer: b, action }
    }

    pub open spec fn without_pipewire(self) -> WorkerState {
        WorkerState { streams: false, core: false, ..self }
    }

    /// The connection and its streams go, and nothing follows.
    pub open spec fn dropped(self, b: Captured, acknowledge: bool) -> Turn {
        self.without_pipewire().acting(b, Awaiting::Ending { acknowledge }, Action::DropPipewire)
    }

    /// The connection and its streams go, and are made again.
    pub open spec fn rebuilt(self, b: Captured, acknowledge: bool) -> Turn {
        self.without_pipewire().acting(
            b,
            Awaiting::Rebuilding { acknowledge },
            Action::DropPipewire,
        )
    }

    /// What follows when the socket is detached.
    pub open spec fn detached(self, b: Captured, after: After) -> Turn {
        match after {
            After::Nothing => self.finished(b, false),
            After::Attach(socket) => self.acting(
                b,
                Awaiting::Spawning(socket),
                Action::SpawnReader { socket, generation: self.socket_generation },
            ),
            After::DropPipewire => self.dropped(b, false),
        }
    }

    /// The reader is gone: the samples are forgotten, and the socket is closed.
    pub open spec fn reader_gone(self, b: Captured, after: After) -> Turn {
        match self.socket {
            Some(socket) => WorkerState { socket: None, ..self }.acting(
                emptied(b),
                Awaiting::Closing(after),
                Action::Close(socket),
            ),
            None => self.detached(emptied(b), after),
        }
    }

    /// The socket is detached: what its reader still sends is out of date from here on.
    pub open spec fn detaching(self, b: Captured, after: After) -> Turn {
        let s = WorkerState { socket_generation: following(self.socket_generation), ..self };
        if self.reader {
            WorkerState { reader: false, ..s }.acting(
                b,
                Awaiting::Detaching(after),
                Action::StopReader,
            )
        } else {
            s.reader_gone(b, after)
        }
    }

    /// The worker stops for good.
    pub open spec fn shut_down(self, b: Captured) -> Turn {
        if self.stopping {
            self.finished(b, false)
        } else {
            WorkerState { stopping: true, ..self }.detaching(b, After::DropPipewire)
        }
    }

    /// What a command leads to.
    pub open spec fn commanded(self, b: Captured, command: Command) -> Turn {
        match command {
            Command::Shutdown => self.shut_down(b),
            Command::SetSocket(None) => if self.stopping {
                self.finished(b, false)
            } else {
                self.detaching(b, After::Nothing)
            },
            Command::SetSocket(Some(socket)) => if self.stopping {
                self.acting(b, Awaiting::Ending { acknowledge: false }, Action::Close(socket))
            } else {
                self.detaching(b, After::Attach(socket))
            },
        }
    }

    /// Streams are created if there are none.
    pub open spec fn streams_ensured(self, b: Captured, acknowledge: bool) -> Turn {
        if self.streams {
            self.finished(b, acknowledge)
        } else {
            self.acting(
                b,
                Awaiting::Creating { acknowledge },
                Action::CreateStreams {
                    speaker: self.desired_playback_format,
                    microphone: self.desired_capture_format,
                    generation: self.core_generation,
                },
            )
        }
    }

    /// A connection is made if there is none, then streams if there are none.
    pub open spec fn maintained(self, b: Captured, acknowledge: bool) -> Turn {
        if self.stopping {
            self.finished(b, acknowledge)
        } else if !self.core {
            let generation = following(self.core_generation);
            WorkerState { core_generation: generation, ..self }.acting(
                b,
                Awaiting::Connecting { acknowledge },
                Action::ConnectCore { generation },
            )
        } else {
            self.streams_ensured(b, acknowledge)
        }
    }

    /// The latency goes to the stream before the format counts as its own.
    pub open spec fn latency_updated(self, b: Captured, u: Update) -> Turn {
        self.acting(
            b,
            Awaiting::UpdatingLatency(u),
            Action::UpdateLatency {
                playback: u.playback,
                quantum: u.next.quantum,
                rate: u.next.rate,
            },
        )
    }

    /// The format counts as the stream's own. New capture samples start on an empty buffer.
    pub open spec fn committed(self, b: Captured, u: Update) -> Turn {
        if u.playback {
            WorkerState { playback_format: u.next, ..self }.finished(b, true)
        } else {
            WorkerState { capture_format: u.next, ..self }.finished(
                if u.format_changed {
                    restarted(u.stride)
                } else {
                    b
                },
                true,
            )
        }
    }

    /// What an announcement leads to.
    pub open spec fn applied(self, b: Captured, announcement: FormatAnnouncement) -> Turn {
        match announced(announcement, self.max_channels) {
            None => self.finished(b, true),
            Some((playback, next)) => {
                let current = if playback {
                    self.playback_format
                } else {
                    self.capture_format
                };
                let s = if playback {
                    WorkerState { desired_playback_format: next, ..self }
                } else {
                    WorkerState { desired_capture_format: next, ..self }
                };
                let u = Update {
                    playback,
                    format_changed: current.differs(next),
                    next,
                    stride: stride_of(next.channels)->0,
                };
                if current == next {
                    s.finished(b, true)
                } else if !self.streams {
                    s.maintained(b, true)
                } else if u.format_changed {
                    s.acting(
                        b,
                        Awaiting::UpdatingFormat(u),
                        Action::UpdateFormat {
                            playback,
                            rate: next.rate,
                            channels: next.channels,
                        },
                    )
                } else {
                    s.latency_updated(b, u)
                }
            },
        }
    }

    /// The event is about the socket or connection that the worker has now.
    pub open spec fn concerns(self, event: WorkerEvent) -> bool {
        match event {
            WorkerEvent::Format { socket_generation, .. } => socket_generation
                == self.socket_generation && self.reader,
            WorkerEvent::ReaderClosed(generation) => generation == self.socket_generation,
            WorkerEvent::PipeWireBroken(generation) => generation == self.core_generation,
        }
    }

    /// What an event leads to.
    pub open spec fn notified(self, b: Captured, event: WorkerEvent) -> Turn {
        if self.stopping || !self.concerns(event) {
            self.finished(b, false)
        } else {
            match event {
                WorkerEvent::Format { format, .. } => self.applied(b, format),
                WorkerEvent::ReaderClosed(_) => self.detaching(b, After::Nothing),
                WorkerEvent::PipeWireBroken(_) => self.rebuilt(b, false),
            }
        }
    }

    /// The streams have the formats that were wanted of them.
    pub open spec fn streams_created(self, b: Captured, acknowledge: bool) -> Turn {
        WorkerState {
            streams: true,
            playback_format: self.desired_playback_format,
            capture_format: self.desired_capture_format,
            ..self
        }.finished(
            if self.capture_format.differs(self.desired_capture_format) {
                restarted(stride_of(self.desired_capture_format.channels)->0)
            } else {
                b
            },
            acknowledge,
        )
    }

    /// What follows the outcome of the last action.
    pub open spec fn resumed(self, b: Captured, ok: bool) -> Turn {
        match self.awaiting {
            Awaiting::Nothing => self.finished(b, false),
            Awaiting::Detaching(after) => self.reader_gone(b, after),
            Awaiting::Closing(after) => self.detached(b, after),
            Awaiting::Spawning(socket) => if ok {
                WorkerState { socket: Some(socket), reader: true, ..self }.finished(b, false)
            } else {
                self.acting(b, Awaiting::Ending { acknowledge: false }, Action::Close(socket))
            },
            Awaiting::UpdatingFormat(u) => if ok {
                self.latency_updated(b, u)
            } else {
                self.rebuilt(b, true)
            },
            Awaiting::UpdatingLatency(u) => self.committed(b, u),
            Awaiting::Connecting { acknowledge } => if ok {
                WorkerState { core: true, ..self }.streams_ensured(b, acknowledge)
            } else {
                self.finished(b, acknowledge)
            },
            Awaiting::Creating { acknowledge } => if ok {
                self.streams_created(b, acknowledge)
            } else {
                self.dropped(b, acknowledge)
            },
            Awaiting::Rebuilding { acknowledge } => self.maintained(b, acknowledge),
            Awaiting::Ending { acknowledge } => self.finished(b, acknowledge),
        }
    }

    /// A worker without a connection, a socket or samples.
    pub open spec fn initial(max_channels: usize) -> WorkerState {
        WorkerState {
            max_channels,
            core: false,
            streams: false,
            core_generation: 0,
            socket_generation: 0,
            socket: None,
            reader: false,
            playback_format: CurrentFormat {
                rate: DEFAULT_RATE,
                channels: DEFAULT_PLAY_CHANNELS,
                quantum: 0,
            },
            capture_format: CurrentFormat {
                rate: DEFAULT_RATE,
                channels: DEFAULT_CAP_CHANNELS,
                quantum: 0,
            },
            desired_playback_format: CurrentFormat {
                rate: DEFAULT_RATE,
                channels: DEFAULT_PLAY_CHANNELS,
                quantum: 0,
            },
            desired_capture_format: CurrentFormat {
                rate: DEFAULT_RATE,
                channels: DEFAULT_CAP_CHANNELS,
                quantum: 0,
            },
            stopping: false,
            awaiting: Awaiting::Nothing,
        }
    }

    /// A worker without a connection, a socket or samples, that wants the default formats.
    pub fn new(max_channels: usize) -> (worker: WorkerState)
        ensures
            worker == WorkerState::initial(max_channels),
            worker.wf(),
    {
        WorkerState {
            max_channels,
            core: false,
            streams: false,
            core_generation: 0,
            socket_generation: 0,
            socket: None,
            reader: false,
            playback_format: CurrentFormat::new(DEFAULT_RATE, DEFAULT_PLAY_CHANNELS),
            capture_format: CurrentFormat::new(DEFAULT_RATE, DEFAULT_CAP_CHANNELS),
            desired_playback_format: CurrentFormat::new(DEFAULT_RATE, DEFAULT_PLAY_CHANNELS),
            desired_capture_format: CurrentFormat::new(DEFAULT_RATE, DEFAULT_CAP_CHANNELS),
            stopping: false,
            awaiting: Awaiting::Nothing,
        }
    }

    fn finish(&mut self, acknowledge: bool) -> (action: Action)
        ensures
            *final(self) == (WorkerState { awaiting: Awaiting::Nothing, ..*old(self) }),
            action == (if acknowledge {
                Action::Acknowledge
            } else {
                Action::Done
            }),
    {
        self.awaiting = Awaiting::Nothing;
        if acknowledge {
            Action::Acknowledge
        } else {
            Action::Done
        }
    }

    /// Drops the streams and the connection, as the last thing to do.
    fn drop_pipewire(&mut self, acknowledge: bool) -> (action: Action)
        ensures
            forall|b: Captured|
                #[trigger] old(self).dropped(b, acknowledge) == (Turn {
                    worker: *final(self),
                    buffer: b,
                    action,
                }),
    {
        self.streams = false;
        self.core = false;
        self.awaiting = Awaiting::Ending { acknowledge };
        Action::DropPipewire
    }

    /// Drops the streams and the connection, to make them again.
    fn rebuild_pipewire(&mut self, acknowledge: bool) -> (action: Action)
        ensures
            forall|b: Captured|
                #[trigger] old(self).rebuilt(b, acknowledge) == (Turn {
                    worker: *final(self),
                    buffer: b,
                    action,
                }),
    {
        self.streams = false;
        self.core = false;
        self.awaiting = Awaiting::Rebuilding { acknowledge };
        Action::DropPipewire
    }

    fn after_detach(&mut self, after: After) -> (action: Action)
        ensures
            forall|b: Captured|
                #[trigger] old(self).detached(b, after) == (Turn {
                    worker: *final(self),
                    buffer: b,
                    action,
                }),
    {
        match after {
            After::Nothing => self.finish(false),
            After::Attach(socket) => {
                self.awaiting = Awaiting::Spawning(socket);
                Action::SpawnReader { socket, generation: self.socket_generation }
            },
            After::DropPipewire => self.drop_pipewire(false),
        }
    }

    fn finish_detach(&mut self, buffer: &mut CaptureBuffer, after: After) -> (action: Action)
        requires
            old(buffer).wf(),
        ensures
            final(buffer).wf(),
            final(buffer).ring.cap() == old(buffer).ring.cap(),
            old(self).reader_gone(old(buffer)@, after) == (Turn {
                worker: *final(self),
                buffer: final(buffer)@,
                action,
            }),
    {
        buffer.reset();
        match self.socket {
            Some(socket) => {
                self.socket = None;
                self.awaiting = Awaiting::Closing(after);
                Action::Close(socket)
            },
            None => self.after_detach(after),
        }
    }

    /// Lets the socket go.
    fn detach_socket(&mut self, buffer: &mut CaptureBuffer, after: After) -> (action: Action)
        requires
            old(buffer).wf(),
        ensures
            final(buffer).wf(),
            final(buffer).ring.cap() == old(buffer).ring.cap(),
            old(self).detaching(old(buffer)@, after) == (Turn {
                worker: *final(self),
                buffer: final(buffer)@,
                action,
            }),
    {
        self.socket_generation = self.socket_generation.wrapping_add(1);
        if self.reader {
            self.reader = false;
            self.awaiting = Awaiting::Detaching(after);
            Action::StopReader
        } else {
            self.finish_detach(buffer, after)
        }
    }

    /// Lets the socket go and takes another, if there is one.
    fn set_socket(&mut self, buffer: &mut CaptureBuffer, socket: Option<i32>) -> (action: Action)
        requires
            old(buffer).wf(),
        ensures
            final(buffer).wf(),
            final(buffer).ring.cap() == old(buffer).ring.cap(),
            old(self).detaching(
                old(buffer)@,
                match socket {
                    Some(socket) => After::Attach(socket),
                    None => After::Nothing,
                },
            ) == (Turn { worker: *final(self), buffer: final(buffer)@, action }),
    {
        match socket {
            Some(socket) => self.detach_socket(buffer, After::Attach(socket)),
            None => self.detach_socket(buffer, After::Nothing),
        }
    }

    /// Stops for good.
    pub fn shutdown(&mut self, buffer: &mut CaptureBuffer) -> (action: Action)
        requires
            old(buffer).wf(),
        ensures
            old(self).wf() && old(self).awaiting is Nothing ==> final(self).wf(),
            final(buffer).wf(),
            final(buffer).ring.cap() == old(buffer).ring.cap(),
            old(self).shut_down(old(buffer)@) == (Turn {
                worker: *final(self),
                buffer: final(buffer)@,
                action,
            }),
    {
        if self.stopping {
            return self.finish(false);
        }
        self.stopping = true;
        self.detach_socket(buffer, After::DropPipewire)
    }

    /// Takes a command.
    pub fn handle_command(&mut self, buffer: &mut CaptureBuffer, command: Command) -> (action:
        Action)
        requires
            old(buffer).wf(),
        ensures
            old(self).wf() && old(self).awaiting is Nothing ==> final(self).wf(),
            final(buffer).wf(),
            final(buffer).ring.cap() == old(buffer).ring.cap(),
            old(self).commanded(old(buffer)@, command) == (Turn {
                worker: *final(self),
                buffer: final(buffer)@,
                action,
            }),
    {
        match command {
            Command::Shutdown => self.shutdown(buffer),
            Command::SetSocket(socket) => {
                if !self.stopping {
                    return self.set_socket(buffer, socket);
                }
                match socket {
                    Some(socket) => {
                        self.awaiting = Awaiting::Ending { acknowledge: false };
                        Action::Close(socket)
                    },
                    None => self.finish(false),
                }
            },
        }
    }

    /// Takes an event. One about an earlier socket or connection changes nothing.
    pub fn handle_event(&mut self, buffer: &mut CaptureBuffer, event: WorkerEvent) -> (action:
        Action)
        requires
            old(buffer).wf(),
        ensures
            old(self).wf() && old(self).awaiting is Nothing ==> final(self).wf(),
            final(buffer).wf(),
            final(buffer).ring.cap() == old(buffer).ring.cap(),
            old(self).notified(old(buffer)@, event) == (Turn {
                worker: *final(self),
                buffer: final(buffer)@,
                action,
            }),
    {
        if self.stopping {
            return self.finish(false);
        }
        match event {
            WorkerEvent::Format { socket_generation, format } => {
                if socket_generation == self.socket_generation && self.reader {
                    self.apply_format(format)
                } else {
                    self.finish(false)
                }
            },
            WorkerEvent::ReaderClosed(generation) => {
                if generation == self.socket_generation {
                    self.detach_socket(buffer, After::Nothing)
                } else {
                    self.finish(false)
                }
            },
            WorkerEvent::PipeWireBroken(generation) => {
                if generation == self.core_generation {
                    self.rebuild_pipewire(false)
                } else {
                    self.finish(false)
                }
            },
        }
    }

    fn send_latency(&mut self, update: Update) -> (action: Action)
        ensures
            forall|b: Captured|
                #[trigger] old(self).latency_updated(b, update) == (Turn {
                    worker: *final(self),
                    buffer: b,
                    action,
                }),
    {
        self.awaiting = Awaiting::UpdatingLatency(update);
        Action::UpdateLatency {
            playback: update.playback,
            quantum: update.next.quantum,
            rate: update.next.rate,
        }
    }

    /// Takes an announcement of the consumer: it is what the streams should have from here on,
    /// and those that exist are changed to it.
    fn apply_format(&mut self, announcement: FormatAnnouncement) -> (action: Action)
        ensures
            forall|b: Captured|
                #[trigger] old(self).applied(b, announcement) == (Turn {
                    worker: *final(self),
                    buffer: b,
                    action,
                }),
    {
        let playback = announcement.role == AUDIO_ROLE_PLAYBACK;
        if announcement.format != AUDIO_FORMAT_S16LE || (!playback && announcement.role
            != AUDIO_ROLE_CAPTURE) {
            return self.finish(true);
        }
        let default_channels: u32 = if playback {
            DEFAULT_PLAY_CHANNELS
        } else {
            DEFAULT_CAP_CHANNELS
        };
        let rate: u32 = if announcement.rate == 0 {
            DEFAULT_RATE
        } else {
            announcement.rate
        };
        let channels: u32 = if announcement.channels == 0 {
            default_channels
        } else {
            announcement.channels
        };
        let Some(stride) = frame_stride(channels) else {
            return self.finish(true);
        };
        if rate > i32::MAX as u32 || channels as usize > self.max_channels {
            return self.finish(true);
        }
        let next = CurrentFormat { rate, channels, quantum: announcement.quantum };
        let current = if playback {
            self.desired_playback_format = next;
            self.playback_format
        } else {
            self.desired_capture_format = next;
            self.capture_format
        };
        let format_changed = current.rate != rate || current.channels != channels;
        let quantum_changed = current.quantum != announcement.quantum;
        if !format_changed && !quantum_changed {
            return self.finish(true);
        }
        if !self.streams {
            return self.maintain_pipewire(true);
        }
        let update = Update { playback, format_changed, next, stride };
        if format_changed {
            self.awaiting = Awaiting::UpdatingFormat(update);
            Action::UpdateFormat { playback, rate, channels }
        } else {
            self.send_latency(update)
        }
    }

    fn ensure_streams(&mut self, acknowledge: bool) -> (action: Action)
        ensures
            old(self).wf() && old(self).core && old(self).awaiting is Nothing ==> final(self).wf(),
            forall|b: Captured|
                #[trigger] old(self).streams_ensured(b, acknowledge) == (Turn {
                    worker: *final(self),
                    buffer: b,
                    action,
                }),
    {
        if self.streams {
            return self.finish(acknowledge);
        }
        self.awaiting = Awaiting::Creating { acknowledge };
        Action::CreateStreams {
            speaker: self.desired_playback_format,
            microphone: self.desired_capture_format,
            generation: self.core_generation,
        }
    }

    /// Makes the connection and the streams that are missing. With `acknowledge`, the reader is
    /// let go on when that is done.
    pub fn maintain_pipewire(&mut self, acknowledge: bool) -> (action: Action)
        ensures
            old(self).wf() && old(self).awaiting is Nothing ==> final(self).wf(),
            forall|b: Captured|
                #[trigger] old(self).maintained(b, acknowledge) == (Turn {
                    worker: *final(self),
                    buffer: b,
                    action,
                }),
    {
        if self.stopping {
            return self.finish(acknowledge);
        }
        if !self.core {
            self.core_generation = self.core_generation.wrapping_add(1);
            self.awaiting = Awaiting::Connecting { acknowledge };
            return Action::ConnectCore { generation: self.core_generation };
        }
        self.ensure_streams(acknowledge)
    }

    fn commit(&mut self, buffer: &mut CaptureBuffer, update: Update) -> (action: Action)
        requires
            old(buffer).wf(),
        ensures
            final(buffer).wf(),
            final(buffer).ring.cap() == old(buffer).ring.cap(),
            old(self).committed(old(buffer)@, update) == (Turn {
                worker: *final(self),
                buffer: final(buffer)@,
                action,
            }),
    {
        if update.playback {
            self.playback_format = update.next;
        } else {
            if update.format_changed {
                buffer.restart(update.stride);
            }
            self.capture_format = update.next;
        }
        self.finish(true)
    }

    fn adopt_streams(&mut self, buffer: &mut CaptureBuffer, acknowledge: bool) -> (action: Action)
        requires
            old(self).wf(),
            old(buffer).wf(),
        ensures
            final(buffer).wf(),
            final(buffer).ring.cap() == old(buffer).ring.cap(),
            old(self).streams_created(old(buffer)@, acknowledge) == (Turn {
                worker: *final(self),
                buffer: final(buffer)@,
                action,
            }),
    {
        let wanted = self.desired_capture_format;
        let capture_changed = self.capture_format.rate != wanted.rate
            || self.capture_format.channels != wanted.channels;
        self.streams = true;
        self.playback_format = self.desired_playback_format;
        if capture_changed {
            if let Some(stride) = frame_stride(wanted.channels) {
                buffer.restart(stride);
            }
        }
        self.capture_format = wanted;
        self.finish(acknowledge)
    }

    /// Takes how the last action went, and says what is next.
    pub fn resume(&mut self, buffer: &mut CaptureBuffer, ok: bool) -> (action: Action)
        requires
            old(self).wf(),
            old(buffer).wf(),
        ensures
            final(self).wf(),
            final(buffer).wf(),
            final(buffer).ring.cap() == old(buffer).ring.cap(),
            old(self).resumed(old(buffer)@, ok) == (Turn {
                worker: *final(self),
                buffer: final(buffer)@,
                action,
            }),
    {
        match self.awaiting {
            Awaiting::Nothing => self.finish(false),
            Awaiting::Detaching(after) => self.finish_detach(buffer, after),
            Awaiting::Closing(after) => self.after_detach(after),
            Awaiting::Spawning(socket) => {
                if ok {
                    self.socket = Some(socket);
                    self.reader = true;
                    self.finish(false)
                } else {
                    self.awaiting = Awaiting::Ending { acknowledge: false };
                    Action::Close(socket)
                }
            },
            Awaiting::UpdatingFormat(update) => {
                if ok {
                    self.send_latency(update)
                } else {
                    self.rebuild_pipewire(true)
                }
            },
            Awaiting::UpdatingLatency(update) => self.commit(buffer, update),
            Awaiting::Connecting { acknowledge } => {
                if ok {
                    self.core = true;
                    self.ensure_streams(acknowledge)
                } else {
                    self.finish(acknowledge)
                }
            },
            Awaiting::Creating { acknowledge } => {
                if ok {
                    self.adopt_streams(buffer, acknowledge)
                } else {
                    self.drop_pipewire(acknowledge)
                }
            },
            Awaiting::Rebuilding { acknowledge } => self.maintain_pipewire(acknowledge),
            Awaiting::Ending { acknowledge } => self.finish(acknowledge),
        }
    }
}

/// An error that means that the connection is lost.
pub open spec fn is_lost(id: u32, result: i32) -> bool {
    id == PW_ID_CORE && result == -EPIPE
}

/// An error of the connection means that it is lost.
pub fn core_is_broken(id: u32, result: i32) -> (broken: bool)
    ensures
        broken == is_lost(id, result),
{
    id == PW_ID_CORE && result == -EPIPE
}

} // verus!
