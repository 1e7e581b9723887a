//! What the producer context and its exchanges are, as mathematical values.
use vstd::prelude::*;

use crate::ffi::protocol::{
    buf_info, buf_info_at, header_at, header_bytes, input_event_at, screen_info_at, InputEvent,
    BUF_INFO_BYTES, CTRL_MSG_FDS_READY, CTRL_MSG_PICKUP_FDS, CTRL_MSG_PRODUCER_HELLO,
    CTRL_MSG_SCREEN_INFO, DATA_MSG_BUFS_READY, DATA_MSG_INPUT_EVENT, DATA_MSG_INPUT_EXTEND_FDS,
    EVENT_BYTES, HANDSHAKE_TIMEOUT_MS, HEADER_BYTES, MAX_BUFS, PICKUP_FDS, SCREEN_INFO_BYTES,
};

verus! {

/// Who asked for a new set of buffers.
#[derive(Debug, Clone, Copy, PartialEq, Eq, Structural)]
pub enum Origin {
    /// An attempt to leave fallback.
    Exit,
    /// The input loop, when the consumer announced a new set.
    Input,
}

/// The reply that a context waits for.
#[derive(Debug, Clone, Copy, PartialEq, Eq, Structural)]
pub enum Phase {
    /// Nothing is under way.
    Idle,
    Connecting,
    Hello,
    ScreenInfo,
    PickupSend,
    PickupPoll,
    PickupRecv,
    PickupMap,
    BufsPoll { origin: Origin },
    BufsRecv { origin: Origin },
    BufsInfos { origin: Origin, len: u32 },
    InputPoll,
    InputPeek,
    InputRecv,
    DataPoll { size: usize },
    DataRecv { size: usize },
    FdsPoll { limit: usize },
    FdsRecv { limit: usize },
    Push,
    Fence,
}

/// Something to be done, for which no reply comes back.
#[derive(Debug, Clone, Copy, PartialEq, Eq, Structural)]
pub enum Effect {
    /// Close this descriptor.
    Close(i32),
    /// Unmap the shared buffer index.
    Unmap,
    /// Call the fallback callback with its user data.
    Notify { callback: u64, userdata: u64 },
}

/// The value of a context.
pub struct CtxModel {
    pub ctrl_fd: i32,
    pub data_fd: i32,
    pub buf_ready_efd: i32,
    pub fence_fd: i32,
    pub shm_fd: i32,
    pub audio_fd: i32,
    pub pending_render_fence: i32,
    pub shm_mapped: bool,
    pub screen_w: u32,
    pub screen_h: u32,
    pub pixel_format: u32,
    pub refresh: u32,
    pub fallback: bool,
    pub dmabuf_fds: Seq<i32>,
    pub dmabuf_infos: Seq<buf_info>,
    pub buf_count: int,
    pub fallback_cb: Option<u64>,
    pub fallback_userdata: u64,
    pub incoming: Seq<i32>,
    pub phase: Phase,
}

/// The value of a request.
pub enum RequestModel {
    Return { code: i32, event: Option<InputEvent> },
    Connect { path: Seq<u8> },
    SendAll { fd: i32, bytes: Seq<u8> },
    RecvAll { fd: i32, len: int },
    Peek { fd: i32, len: int },
    RecvFds { fd: i32, len: int, limit: int },
    Poll { fd: i32, timeout_ms: i32, watch_hangup: bool },
    MapIndex { fd: i32 },
    SendFence { fd: i32, fence: Option<i32> },
}

/// The value of a step.
pub struct StepModel {
    pub effects: Seq<Effect>,
    pub next: RequestModel,
}

/// The value of a reply.
pub enum ReplyModel {
    Connected(i32),
    Sent(bool),
    Received(Option<Seq<u8>>),
    Peeked { count: int, bytes: Seq<u8> },
    Polled { ready: bool, broken: bool },
    Fds { count: int, bytes: Seq<u8>, fds: Seq<i32> },
    Mapped(bool),
}

/// A new context, connected to nothing.
pub open spec fn fresh() -> CtxModel {
    CtxModel {
        ctrl_fd: -1i32,
        data_fd: -1i32,
        buf_ready_efd: -1i32,
        fence_fd: -1i32,
        shm_fd: -1i32,
        audio_fd: -1i32,
        pending_render_fence: -1i32,
        shm_mapped: false,
        screen_w: 0,
        screen_h: 0,
        pixel_format: 0,
        refresh: 0,
        fallback: true,
        dmabuf_fds: Seq::new(MAX_BUFS as nat, |i: int| -1i32),
        dmabuf_infos: Seq::new(
            MAX_BUFS as nat,
            |i: int| crate::ffi::protocol::zero_buf_info(),
        ),
        buf_count: 0,
        fallback_cb: None,
        fallback_userdata: 0,
        incoming: Seq::empty(),
        phase: Phase::Idle,
    }
}

impl CtxModel {
    /// No descriptor, mapping or buffer of a consumer is held.
    pub open spec fn quiet(self) -> bool {
        &&& self.data_fd < 0
        &&& self.buf_ready_efd < 0
        &&& self.fence_fd < 0
        &&& self.shm_fd < 0
        &&& self.audio_fd < 0
        &&& !self.shm_mapped
        &&& self.buf_count == 0
    }

    /// The phases in which a context is in fallback and holds nothing of a consumer yet.
    pub open spec fn before_pickup(self) -> bool {
        match self.phase {
            Phase::Connecting
            | Phase::Hello
            | Phase::ScreenInfo
            | Phase::PickupSend
            | Phase::PickupPoll
            | Phase::PickupRecv => true,
            _ => false,
        }
    }

    /// The phases in which a context is leaving fallback.
    pub open spec fn exiting(self) -> bool {
        match self.phase {
            Phase::PickupMap => true,
            Phase::BufsPoll { origin } => origin == Origin::Exit,
            Phase::BufsRecv { origin } => origin == Origin::Exit,
            Phase::BufsInfos { origin, .. } => origin == Origin::Exit,
            _ => false,
        }
    }

    /// What holds of every context.
    pub open spec fn wf(self) -> bool {
        &&& self.dmabuf_fds.len() == MAX_BUFS
        &&& self.dmabuf_infos.len() == MAX_BUFS
        &&& 0 <= self.buf_count <= MAX_BUFS
        &&& forall|i: int| self.buf_count <= i < MAX_BUFS ==> self.dmabuf_fds[i] < 0
        &&& self.phase == Phase::Connecting ==> self.ctrl_fd < 0
        &&& match self.phase {
            Phase::Idle => self.fallback ==> self.quiet(),
            _ => if self.before_pickup() {
                self.fallback && self.quiet()
            } else if self.exiting() {
                self.fallback && self.buf_count == 0 && self.shm_mapped == (self.phase
                    != Phase::PickupMap)
            } else {
                !self.fallback
            },
        }
        &&& match self.phase {
            Phase::BufsInfos { len, .. } => {
                &&& 1 <= self.incoming.len() <= MAX_BUFS
                &&& len as int / BUF_INFO_BYTES as int == self.incoming.len()
            },
            _ => self.incoming.len() == 0,
        }
    }

    /// The reply has the form of what the context waits for, and holds no more than was asked.
    pub open spec fn awaits(self, reply: ReplyModel) -> bool {
        match self.phase {
            Phase::Idle => false,
            Phase::Connecting => reply is Connected,
            Phase::Hello | Phase::PickupSend | Phase::Push | Phase::Fence => reply is Sent,
            Phase::ScreenInfo => received_of(reply, (HEADER_BYTES + SCREEN_INFO_BYTES) as int),
            Phase::BufsInfos { len, .. } => received_of(reply, len as int),
            Phase::InputRecv => received_of(reply, (HEADER_BYTES + EVENT_BYTES) as int),
            Phase::DataRecv { size } => received_of(reply, size as int),
            Phase::PickupPoll
            | Phase::BufsPoll { .. }
            | Phase::InputPoll
            | Phase::DataPoll { .. }
            | Phase::FdsPoll { .. } => reply is Polled,
            Phase::InputPeek => reply matches ReplyModel::Peeked { count, bytes }
                && bytes.len() == HEADER_BYTES + EVENT_BYTES,
            Phase::PickupRecv => fds_of(reply, PICKUP_FDS as int),
            Phase::BufsRecv { .. } => fds_of(reply, MAX_BUFS as int),
            Phase::FdsRecv { limit } => fds_of(reply, limit as int),
            Phase::PickupMap => reply is Mapped,
        }
    }
}

/// A whole message of `len` bytes, or a failure.
pub open spec fn received_of(reply: ReplyModel, len: int) -> bool {
    reply matches ReplyModel::Received(bytes) && (bytes matches Some(b) ==> b.len() == len)
}

/// A header with at most `limit` descriptors.
pub open spec fn fds_of(reply: ReplyModel, limit: int) -> bool {
    reply matches ReplyModel::Fds { count, bytes, fds } && bytes.len() == HEADER_BYTES
        && fds.len() <= limit && fds.len() <= i32::MAX
}

/// Closing `fd`, if it is a descriptor.
pub open spec fn close_one(fd: i32) -> Seq<Effect> {
    if fd >= 0 {
        seq![Effect::Close(fd)]
    } else {
        Seq::empty()
    }
}

/// Closing every descriptor of `fds`, in order.
pub open spec fn close_each(fds: Seq<i32>) -> Seq<Effect>
    decreases fds.len(),
{
    if fds.len() == 0 {
        Seq::empty()
    } else {
        close_each(fds.drop_last()) + close_one(fds.last())
    }
}

/// What is left of a descriptor field that was closed if it held one.
pub open spec fn closed(fd: i32) -> i32 {
    if fd >= 0 {
        -1i32
    } else {
        fd
    }
}

/// `fds` with the first `count` closed.
pub open spec fn closed_prefix(fds: Seq<i32>, count: int) -> Seq<i32> {
    Seq::new(
        fds.len(),
        |i: int|
            if i < count {
                closed(fds[i])
            } else {
                fds[i]
            },
    )
}

/// A context after everything that belongs to the consumer was given up.
pub open spec fn released(m: CtxModel) -> CtxModel {
    CtxModel {
        dmabuf_fds: closed_prefix(m.dmabuf_fds, m.buf_count),
        buf_count: 0,
        data_fd: closed(m.data_fd),
        buf_ready_efd: closed(m.buf_ready_efd),
        fence_fd: closed(m.fence_fd),
        audio_fd: closed(m.audio_fd),
        pending_render_fence: closed(m.pending_render_fence),
        shm_mapped: false,
        shm_fd: closed(m.shm_fd),
        ..m
    }
}

/// Unmapping the shared index, if it is mapped.
pub open spec fn unmap_effects(m: CtxModel) -> Seq<Effect> {
    if m.shm_mapped {
        seq![Effect::Unmap]
    } else {
        Seq::empty()
    }
}

/// How everything that belongs to the consumer is given up.
pub open spec fn release_effects(m: CtxModel) -> Seq<Effect> {
    close_each(m.dmabuf_fds.take(m.buf_count)) + close_one(m.data_fd) + close_one(m.buf_ready_efd)
        + close_one(m.fence_fd) + close_one(m.audio_fd) + close_one(m.pending_render_fence)
        + unmap_effects(m) + close_one(m.shm_fd)
}

/// The call of the fallback callback, if there is one.
pub open spec fn notify_effects(m: CtxModel) -> Seq<Effect> {
    match m.fallback_cb {
        Some(callback) => seq![Effect::Notify { callback, userdata: m.fallback_userdata }],
        None => Seq::empty(),
    }
}

/// A context after it entered fallback. One that is in fallback already stays as it is.
pub open spec fn fell_back(m: CtxModel) -> CtxModel {
    if m.fallback {
        m
    } else {
        CtxModel { fallback: true, ..released(m) }
    }
}

/// What entering fallback takes.
pub open spec fn fallback_effects(m: CtxModel) -> Seq<Effect> {
    if m.fallback {
        Seq::empty()
    } else {
        release_effects(m) + notify_effects(m)
    }
}

/// The exchange is over and returned `code`.
pub open spec fn returned(m: CtxModel, effects: Seq<Effect>, code: i32) -> (CtxModel, StepModel) {
    (
        CtxModel { phase: Phase::Idle, ..m },
        StepModel { effects, next: RequestModel::Return { code, event: None } },
    )
}

/// The exchange goes on with `next`.
pub open spec fn going_on(m: CtxModel, phase: Phase, next: RequestModel) -> (CtxModel, StepModel) {
    (CtxModel { phase, ..m }, StepModel { effects: Seq::empty(), next })
}

/// A connection attempt that is given up: the control socket is closed.
pub open spec fn connect_failed(m: CtxModel) -> (CtxModel, StepModel) {
    returned(CtxModel { ctrl_fd: closed(m.ctrl_fd), ..m }, close_one(m.ctrl_fd), -1i32)
}

/// An attempt to leave fallback that is given up, after `effects`.
pub open spec fn exit_failed(m: CtxModel, effects: Seq<Effect>) -> (CtxModel, StepModel) {
    returned(released(m), effects + release_effects(m), -1i32)
}

/// A buffer set that could not be received, after `effects`.
pub open spec fn bufs_failed(m: CtxModel, origin: Origin, effects: Seq<Effect>) -> (
    CtxModel,
    StepModel,
) {
    match origin {
        Origin::Exit => exit_failed(m, effects),
        Origin::Input => returned(fell_back(m), effects + fallback_effects(m), -1i32),
    }
}

/// Waiting for the consumer to say something on the data socket.
pub open spec fn poll_data(m: CtxModel, phase: Phase, timeout_ms: i32, watch_hangup: bool) -> (
    CtxModel,
    StepModel,
) {
    going_on(m, phase, RequestModel::Poll { fd: m.data_fd, timeout_ms, watch_hangup })
}

/// The consumer's data socket was polled by an input call: nothing there, gone, or `next`.
pub open spec fn input_polled(
    m: CtxModel,
    ready: bool,
    broken: bool,
    phase: Phase,
    next: RequestModel,
) -> (CtxModel, StepModel) {
    if !ready {
        returned(m, Seq::empty(), 0)
    } else if broken {
        returned(fell_back(m), fallback_effects(m), -1i32)
    } else {
        going_on(m, phase, next)
    }
}

/// The answer to the greeting: a header that announces a screen description, and that.
pub open spec fn screen_info_received(m: CtxModel, bytes: Option<Seq<u8>>) -> (
    CtxModel,
    StepModel,
) {
    match bytes {
        Some(b) => if header_at(b).type_ == CTRL_MSG_SCREEN_INFO && header_at(b).size
            == SCREEN_INFO_BYTES {
            let screen = screen_info_at(b, HEADER_BYTES as int);
            returned(
                CtxModel {
                    screen_w: screen.width,
                    screen_h: screen.height,
                    pixel_format: screen.format,
                    refresh: screen.refresh,
                    ..m
                },
                Seq::empty(),
                0,
            )
        } else {
            connect_failed(m)
        },
        None => connect_failed(m),
    }
}

/// The reply to a pickup: five descriptors, or the attempt is over.
pub open spec fn pickup_received(m: CtxModel, count: int, bytes: Seq<u8>, fds: Seq<i32>) -> (
    CtxModel,
    StepModel,
) {
    if count <= 0 || header_at(bytes).type_ != CTRL_MSG_FDS_READY || fds.len() < PICKUP_FDS {
        exit_failed(m, close_each(fds))
    } else {
        going_on(
            CtxModel {
                buf_ready_efd: fds[0],
                fence_fd: fds[1],
                data_fd: fds[2],
                shm_fd: fds[3],
                audio_fd: fds[4],
                ..m
            },
            Phase::PickupMap,
            RequestModel::MapIndex { fd: fds[3] },
        )
    }
}

/// The shared index was mapped, or not. Buffers come next, unless some are there.
pub open spec fn pickup_mapped(m: CtxModel, mapped: bool) -> (CtxModel, StepModel) {
    if !mapped {
        exit_failed(CtxModel { shm_mapped: false, ..m }, Seq::empty())
    } else if m.buf_count > 0 {
        returned(CtxModel { shm_mapped: true, fallback: false, ..m }, Seq::empty(), 0)
    } else {
        poll_data(
            CtxModel { shm_mapped: true, ..m },
            Phase::BufsPoll { origin: Origin::Exit },
            HANDSHAKE_TIMEOUT_MS,
            true,
        )
    }
}

/// The announcement of a buffer set: one descriptor for each description that will follow.
pub open spec fn bufs_received(
    m: CtxModel,
    origin: Origin,
    count: int,
    bytes: Seq<u8>,
    fds: Seq<i32>,
) -> (CtxModel, StepModel) {
    let header = header_at(bytes);
    if count < HEADER_BYTES || fds.len() < 1 || header.type_ != DATA_MSG_BUFS_READY
        || header.size as int / BUF_INFO_BYTES as int != fds.len() {
        bufs_failed(m, origin, close_each(fds))
    } else {
        going_on(
            CtxModel { incoming: fds, ..m },
            Phase::BufsInfos { origin, len: header.size },
            RequestModel::RecvAll { fd: m.data_fd, len: header.size as int },
        )
    }
}

/// The buffers of a context after the set `fds`, described by `bytes`, took the place of the
/// old one.
pub open spec fn bufs_installed(m: CtxModel, bytes: Seq<u8>) -> CtxModel {
    let count = m.incoming.len() as int;
    let old = closed_prefix(m.dmabuf_fds, m.buf_count);
    CtxModel {
        dmabuf_fds: Seq::new(
            old.len(),
            |i: int|
                if i < count {
                    m.incoming[i]
                } else {
                    old[i]
                },
        ),
        dmabuf_infos: Seq::new(
            m.dmabuf_infos.len(),
            |i: int|
                if i < count {
                    buf_info_at(bytes, i * BUF_INFO_BYTES)
                } else {
                    m.dmabuf_infos[i]
                },
        ),
        buf_count: count,
        incoming: Seq::empty(),
        ..m
    }
}

/// The descriptions of a buffer set came, or did not.
pub open spec fn infos_received(m: CtxModel, origin: Origin, bytes: Option<Seq<u8>>) -> (
    CtxModel,
    StepModel,
) {
    match bytes {
        Some(b) => {
            let effects = close_each(m.dmabuf_fds.take(m.buf_count));
            match origin {
                Origin::Exit => returned(
                    CtxModel { fallback: false, ..bufs_installed(m, b) },
                    effects,
                    0,
                ),
                Origin::Input => returned(bufs_installed(m, b), effects, -2i32),
            }
        },
        None => bufs_failed(
            CtxModel { incoming: Seq::empty(), ..m },
            origin,
            close_each(m.incoming),
        ),
    }
}

/// What waits at the head of the data socket: a new buffer set, an input event, or neither.
pub open spec fn input_peeked(m: CtxModel, count: int, bytes: Seq<u8>) -> (CtxModel, StepModel) {
    if count < HEADER_BYTES {
        returned(m, Seq::empty(), 0)
    } else if header_at(bytes).type_ == DATA_MSG_BUFS_READY {
        poll_data(m, Phase::BufsPoll { origin: Origin::Input }, HANDSHAKE_TIMEOUT_MS, true)
    } else if header_at(bytes).type_ != DATA_MSG_INPUT_EVENT {
        returned(m, Seq::empty(), 0)
    } else {
        going_on(
            m,
            Phase::InputRecv,
            RequestModel::RecvAll { fd: m.data_fd, len: (HEADER_BYTES + EVENT_BYTES) as int },
        )
    }
}

/// An input event came, or did not.
pub open spec fn input_received(m: CtxModel, bytes: Option<Seq<u8>>) -> (CtxModel, StepModel) {
    match bytes {
        Some(b) => (
            CtxModel { phase: Phase::Idle, ..m },
            StepModel {
                effects: Seq::empty(),
                next: RequestModel::Return {
                    code: 1,
                    event: Some(input_event_at(b, HEADER_BYTES as int)),
                },
            },
        ),
        None => returned(m, Seq::empty(), -1i32),
    }
}

/// The descriptors that follow an input event: how many came, unless the message is another.
pub open spec fn extend_fds_received(m: CtxModel, count: int, bytes: Seq<u8>, fds: Seq<i32>) -> (
    CtxModel,
    StepModel,
) {
    if count < HEADER_BYTES || fds.len() < 1 {
        returned(m, Seq::empty(), -1i32)
    } else if header_at(bytes).type_ != DATA_MSG_INPUT_EXTEND_FDS {
        returned(m, Seq::new(fds.len(), |i: int| Effect::Close(fds[i])), -1i32)
    } else {
        returned(m, Seq::empty(), fds.len() as i32)
    }
}

/// The first step of a call that needs a consumer: nothing to do in fallback, else `next`.
pub open spec fn with_consumer(m: CtxModel, phase: Phase, next: RequestModel) -> (
    CtxModel,
    StepModel,
) {
    if m.fallback {
        returned(m, Seq::empty(), 0)
    } else {
        going_on(m, phase, next)
    }
}

/// The first step of leaving fallback.
pub open spec fn exiting_fallback(m: CtxModel) -> (CtxModel, StepModel) {
    if !m.fallback {
        returned(m, Seq::empty(), 0i32)
    } else {
        going_on(
            m,
            Phase::PickupSend,
            RequestModel::SendAll { fd: m.ctrl_fd, bytes: header_bytes(CTRL_MSG_PICKUP_FDS, 0) },
        )
    }
}

/// The first step of telling the consumer that a frame is rendered. In fallback there is nobody
/// to tell, and the fence is closed.
pub open spec fn refreshing(m: CtxModel) -> (CtxModel, StepModel) {
    if m.fallback {
        returned(
            CtxModel { pending_render_fence: closed(m.pending_render_fence), ..m },
            close_one(m.pending_render_fence),
            0i32,
        )
    } else {
        going_on(
            m,
            Phase::Fence,
            RequestModel::SendFence {
                fd: m.fence_fd,
                fence: if m.pending_render_fence >= 0 {
                    Some(m.pending_render_fence)
                } else {
                    None
                },
            },
        )
    }
}

/// What a context does with a reply that it waits for.
pub open spec fn resumed(m: CtxModel, reply: ReplyModel) -> (CtxModel, StepModel) {
    match (m.phase, reply) {
        (Phase::Connecting, ReplyModel::Connected(fd)) => if fd < 0 {
            returned(CtxModel { ctrl_fd: fd, ..m }, Seq::empty(), -1i32)
        } else {
            going_on(
                CtxModel { ctrl_fd: fd, ..m },
                Phase::Hello,
                RequestModel::SendAll { fd, bytes: header_bytes(CTRL_MSG_PRODUCER_HELLO, 0) },
            )
        },
        (Phase::Hello, ReplyModel::Sent(ok)) => if !ok {
            connect_failed(m)
        } else {
            going_on(
                m,
                Phase::ScreenInfo,
                RequestModel::RecvAll {
                    fd: m.ctrl_fd,
                    len: (HEADER_BYTES + SCREEN_INFO_BYTES) as int,
                },
            )
        },
        (Phase::ScreenInfo, ReplyModel::Received(bytes)) => screen_info_received(m, bytes),
        (Phase::PickupSend, ReplyModel::Sent(ok)) => if !ok {
            exit_failed(m, Seq::empty())
        } else {
            going_on(
                m,
                Phase::PickupPoll,
                RequestModel::Poll {
                    fd: m.ctrl_fd,
                    timeout_ms: HANDSHAKE_TIMEOUT_MS,
                    watch_hangup: false,
                },
            )
        },
        (Phase::PickupPoll, ReplyModel::Polled { ready, broken }) => if !ready {
            exit_failed(m, Seq::empty())
        } else {
            going_on(
                m,
                Phase::PickupRecv,
                RequestModel::RecvFds {
                    fd: m.ctrl_fd,
                    len: HEADER_BYTES as int,
                    limit: PICKUP_FDS as int,
                },
            )
        },
        (Phase::PickupRecv, ReplyModel::Fds { count, bytes, fds }) => pickup_received(
            m,
            count,
            bytes,
            fds,
        ),
        (Phase::PickupMap, ReplyModel::Mapped(mapped)) => pickup_mapped(m, mapped),
        (Phase::BufsPoll { origin }, ReplyModel::Polled { ready, broken }) => if !ready || broken {
            bufs_failed(m, origin, Seq::empty())
        } else {
            going_on(
                m,
                Phase::BufsRecv { origin },
                RequestModel::RecvFds {
                    fd: m.data_fd,
                    len: HEADER_BYTES as int,
                    limit: MAX_BUFS as int,
                },
            )
        },
        (Phase::BufsRecv { origin }, ReplyModel::Fds { count, bytes, fds }) => bufs_received(
            m,
            origin,
            count,
            bytes,
            fds,
        ),
        (Phase::BufsInfos { origin, .. }, ReplyModel::Received(bytes)) => infos_received(
            m,
            origin,
            bytes,
        ),
        (Phase::InputPoll, ReplyModel::Polled { ready, broken }) => input_polled(
            m,
            ready,
            broken,
            Phase::InputPeek,
            RequestModel::Peek { fd: m.data_fd, len: (HEADER_BYTES + EVENT_BYTES) as int },
        ),
        (Phase::InputPeek, ReplyModel::Peeked { count, bytes }) => input_peeked(m, count, bytes),
        (Phase::InputRecv, ReplyModel::Received(bytes)) => input_received(m, bytes),
        (Phase::DataPoll { size }, ReplyModel::Polled { ready, broken }) => input_polled(
            m,
            ready,
            broken,
            Phase::DataRecv { size },
            RequestModel::RecvAll { fd: m.data_fd, len: size as int },
        ),
        (Phase::DataRecv { size }, ReplyModel::Received(bytes)) => returned(
            m,
            Seq::empty(),
            if bytes is Some {
                1
            } else {
                -1i32
            },
        ),
        (Phase::FdsPoll { limit }, ReplyModel::Polled { ready, broken }) => input_polled(
            m,
            ready,
            broken,
            Phase::FdsRecv { limit },
            RequestModel::RecvFds {
                fd: m.data_fd,
                len: HEADER_BYTES as int,
                limit: limit as int,
            },
        ),
        (Phase::FdsRecv { limit }, ReplyModel::Fds { count, bytes, fds }) => extend_fds_received(
            m,
            count,
            bytes,
            fds,
        ),
        (Phase::Push, ReplyModel::Sent(ok)) => if ok {
            returned(m, Seq::empty(), 0)
        } else {
            returned(fell_back(m), fallback_effects(m), -1i32)
        },
        (Phase::Fence, ReplyModel::Sent(ok)) => returned(
            CtxModel { pending_render_fence: closed(m.pending_render_fence), ..m },
            close_one(m.pending_render_fence),
            0,
        ),
        _ => returned(m, Seq::empty(), -1i32),
    }
}

} // verus!
