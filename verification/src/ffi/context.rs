//! The producer context and its exchanges with the daemon and the consumer.
//!
//! An exchange starts with one of the public functions below, which answers with a [`Step`]:
//! effects to be carried out, in order, and then a request. The reply to the request goes to
//! [`resume`], which answers with the next step, until a step asks to return.
use vstd::prelude::*;

use crate::bytes::push_all;
use crate::ffi::model::{Effect, Origin, Phase};
use crate::ffi::protocol::{
    buf_info, decode_buf_info, decode_header, decode_input_event, decode_screen_info,
    encode_header, InputEvent, OutputEvent, OutputEventData, ResourceRequestEvent,
    BUF_INFO_BYTES, CTRL_MSG_FDS_READY, CTRL_MSG_PICKUP_FDS, CTRL_MSG_PRODUCER_HELLO,
    CTRL_MSG_SCREEN_INFO, DATA_MSG_BUFS_READY, DATA_MSG_INPUT_EVENT, DATA_MSG_INPUT_EXTEND_FDS,
    DATA_MSG_OUTPUT_EVENT, EVENT_BYTES, HANDSHAKE_TIMEOUT_MS, HEADER_BYTES, MAX_BUFS,
    OUTPUT_TYPE_RESOURCES_REQUEST, PICKUP_FDS, SCREEN_INFO_BYTES,
};
use crate::ffi::transfer::connect_unix;
#[allow(unused_imports)]
use crate::ffi::transfer::usable_path;
#[allow(unused_imports)]
use crate::ffi::model::{
    bufs_failed, bufs_installed, bufs_received, close_each, close_one, closed, closed_prefix,
    connect_failed, exit_failed, exiting_fallback, extend_fds_received, fallback_effects,
    fell_back, fresh, going_on, infos_received, input_peeked, input_polled, input_received,
    pickup_mapped, pickup_received, poll_data, refreshing, release_effects, released, resumed,
    returned, screen_info_received, unmap_effects, with_consumer, CtxModel, ReplyModel,
    RequestModel, StepModel,
};
#[allow(unused_imports)]
use crate::ffi::protocol::{buf_info_at, output_frame, output_message, output_words};

verus! {

/// What an exchange asks for.
pub enum Request {
    /// The exchange is over: return `code`, and the input event if there is one.
    Return { code: i32, event: Option<InputEvent> },
    /// Connect to the local socket at `path`.
    Connect { path: Vec<u8> },
    /// Send all of `bytes`.
    SendAll { fd: i32, bytes: Vec<u8> },
    /// Receive exactly `len` bytes.
    RecvAll { fd: i32, len: usize },
    /// Look at up to `len` bytes without consuming them.
    Peek { fd: i32, len: usize },
    /// Receive up to `len` bytes together with at most `limit` descriptors.
    RecvFds { fd: i32, len: usize, limit: usize },
    /// Wait for input; `watch_hangup` asks to be told of a hangup explicitly.
    Poll { fd: i32, timeout_ms: i32, watch_hangup: bool },
    /// Map the shared index of the selected buffer.
    MapIndex { fd: i32 },
    /// Send one byte without waiting, with the render fence if there is one.
    SendFence { fd: i32, fence: Option<i32> },
}

/// One step of an exchange: carry out `effects`, then `next`.
pub struct Step {
    pub effects: Vec<Effect>,
    pub next: Request,
}

/// The outcome of a request.
pub enum Reply {
    /// The connected socket, or a negative number.
    Connected(i32),
    /// Whether the whole message was sent.
    Sent(bool),
    /// The whole message, or nothing.
    Received(Option<Vec<u8>>),
    /// What the call returned, and the buffer, whose bytes past that are zero.
    Peeked { count: isize, bytes: Vec<u8> },
    /// Whether anything was reported in time, and whether a hangup or an error was.
    Polled { ready: bool, broken: bool },
    /// What the call returned, the buffer, whose bytes past that are zero, and the descriptors.
    Fds { count: isize, bytes: Vec<u8>, fds: Vec<i32> },
    /// Whether the mapping was made.
    Mapped(bool),
}

impl View for Request {
    type V = RequestModel;

    open spec fn view(&self) -> RequestModel {
        match *self {
            Request::Return { code, event } => RequestModel::Return { code, event },
            Request::Connect { path } => RequestModel::Connect { path: path@ },
            Request::SendAll { fd, bytes } => RequestModel::SendAll { fd, bytes: bytes@ },
            Request::RecvAll { fd, len } => RequestModel::RecvAll { fd, len: len as int },
            Request::Peek { fd, len } => RequestModel::Peek { fd, len: len as int },
            Request::RecvFds { fd, len, limit } => RequestModel::RecvFds {
                fd,
                len: len as int,
                limit: limit as int,
            },
            Request::Poll { fd, timeout_ms, watch_hangup } => RequestModel::Poll {
                fd,
                timeout_ms,
                watch_hangup,
            },
            Request::MapIndex { fd } => RequestModel::MapIndex { fd },
            Request::SendFence { fd, fence } => RequestModel::SendFence { fd, fence },
        }
    }
}

impl View for Step {
    type V = StepModel;

    open spec fn view(&self) -> StepModel {
        StepModel { effects: self.effects@, next: self.next@ }
    }
}

impl View for Reply {
    type V = ReplyModel;

    open spec fn view(&self) -> ReplyModel {
        match *self {
            Reply::Connected(fd) => ReplyModel::Connected(fd),
            Reply::Sent(ok) => ReplyModel::Sent(ok),
            Reply::Received(bytes) => ReplyModel::Received(
                match bytes {
                    Some(b) => Some(b@),
                    None => None,
                },
            ),
            Reply::Peeked { count, bytes } => ReplyModel::Peeked {
                count: count as int,
                bytes: bytes@,
            },
            Reply::Polled { ready, broken } => ReplyModel::Polled { ready, broken },
            Reply::Fds { count, bytes, fds } => ReplyModel::Fds {
                count: count as int,
                bytes: bytes@,
                fds: fds@,
            },
            Reply::Mapped(mapped) => ReplyModel::Mapped(mapped),
        }
    }
}

/// The producer context. A negative descriptor stands for none.
pub struct display_ctx {
    pub ctrl_fd: i32,
    pub data_fd: i32,
    pub buf_ready_efd: i32,
    pub fence_fd: i32,
    pub shm_fd: i32,
    pub audio_fd: i32,
    pub pending_render_fence: i32,
    /// Whether the shared index of the selected buffer is mapped.
    pub shm_mapped: bool,
    pub screen_w: u32,
    pub screen_h: u32,
    pub pixel_format: u32,
    pub refresh: u32,
    /// Whether the consumer is gone.
    pub fallback: bool,
    pub dmabuf_fds: [i32; MAX_BUFS],
    pub dmabuf_infos: [buf_info; MAX_BUFS],
    pub buf_count: i32,
    /// Which callback to call when the consumer goes, and with what.
    pub fallback_cb: Option<u64>,
    pub fallback_userdata: u64,
    /// Descriptors of a buffer set whose descriptions have not come yet.
    pub incoming: Vec<i32>,
    pub phase: Phase,
}

impl View for display_ctx {
    type V = CtxModel;

    open spec fn view(&self) -> CtxModel {
        CtxModel {
            ctrl_fd: self.ctrl_fd,
            data_fd: self.data_fd,
            buf_ready_efd: self.buf_ready_efd,
            fence_fd: self.fence_fd,
            shm_fd: self.shm_fd,
            audio_fd: self.audio_fd,
            pending_render_fence: self.pending_render_fence,
            shm_mapped: self.shm_mapped,
            screen_w: self.screen_w,
            screen_h: self.screen_h,
            pixel_format: self.pixel_format,
            refresh: self.refresh,
            fallback: self.fallback,
            dmabuf_fds: self.dmabuf_fds@,
            dmabuf_infos: self.dmabuf_infos@,
            buf_count: self.buf_count as int,
            fallback_cb: self.fallback_cb,
            fallback_userdata: self.fallback_userdata,
            incoming: self.incoming@,
            phase: self.phase,
        }
    }
}

impl display_ctx {
    /// What holds of every context.
    pub open spec fn wf(&self) -> bool {
        self@.wf()
    }
}

fn push_close(effects: &mut Vec<Effect>, fd: i32)
    ensures
        final(effects)@ == old(effects)@ + close_one(fd),
{
    if fd >= 0 {
        effects.push(Effect::Close(fd));
    }
    assert(effects@ =~= old(effects)@ + close_one(fd));
}

fn push_unmap(effects: &mut Vec<Effect>, mapped: bool)
    ensures
        final(effects)@ == old(effects)@ + (if mapped {
            seq![Effect::Unmap]
        } else {
            Seq::empty()
        }),
{
    if mapped {
        effects.push(Effect::Unmap);
    }
    assert(effects@ =~= old(effects)@ + (if mapped {
        seq![Effect::Unmap]
    } else {
        Seq::empty()
    }));
}

fn push_close_each(effects: &mut Vec<Effect>, fds: &[i32], count: usize)
    requires
        count <= fds@.len(),
    ensures
        final(effects)@ == old(effects)@ + close_each(fds@.take(count as int)),
{
    let mut i: usize = 0;
    assert(effects@ =~= old(effects)@ + close_each(fds@.take(0)));
    while i < count
        invariant
            i <= count <= fds@.len(),
            effects@ == old(effects)@ + close_each(fds@.take(i as int)),
        decreases count - i,
    {
        push_close(effects, fds[i]);
        proof {
            let next = fds@.take(i + 1);
            assert(next.drop_last() =~= fds@.take(i as int));
            assert(next.last() == fds@[i as int]);
            assert(effects@ =~= old(effects)@ + close_each(next));
        }
        i += 1;
    }
}

/// Marks the first `buf_count` descriptors as closed.
fn forget_dmabufs(ctx: &mut display_ctx)
    requires
        old(ctx).wf(),
    ensures
        final(ctx)@ == (CtxModel {
            dmabuf_fds: closed_prefix(old(ctx)@.dmabuf_fds, old(ctx)@.buf_count),
            ..old(ctx)@
        }),
{
    let count: usize = ctx.buf_count as usize;
    let mut i: usize = 0;
    assert(ctx@.dmabuf_fds =~= closed_prefix(old(ctx)@.dmabuf_fds, 0));
    while i < count
        invariant
            i <= count <= MAX_BUFS,
            ctx@ == (CtxModel {
                dmabuf_fds: closed_prefix(old(ctx)@.dmabuf_fds, i as int),
                ..old(ctx)@
            }),
            old(ctx)@.dmabuf_fds.len() == MAX_BUFS,
        decreases count - i,
    {
        if ctx.dmabuf_fds[i] >= 0 {
            ctx.dmabuf_fds[i] = -1;
        }
        i += 1;
        assert(ctx@.dmabuf_fds =~= closed_prefix(old(ctx)@.dmabuf_fds, i as int));
    }
}

fn closed_fd(fd: i32) -> (left: i32)
    ensures
        left == closed(fd),
{
    if fd >= 0 {
        -1
    } else {
        fd
    }
}

/// Gives up everything that belongs to the consumer.
pub fn release_consumer_resources(ctx: &mut display_ctx, effects: &mut Vec<Effect>)
    requires
        old(ctx).wf(),
    ensures
        final(ctx)@ == released(old(ctx)@),
        final(effects)@ == old(effects)@ + release_effects(old(ctx)@),
{
    let ghost before = effects@;
    let ghost m = ctx@;
    push_close_each(effects, ctx.dmabuf_fds.as_slice(), ctx.buf_count as usize);
    forget_dmabufs(ctx);
    ctx.buf_count = 0;
    let done = Ghost(close_each(m.dmabuf_fds.take(m.buf_count)));
    let done = release_fd(&mut ctx.data_fd, effects, Ghost(before), done);
    let done = release_fd(&mut ctx.buf_ready_efd, effects, Ghost(before), done);
    let done = release_fd(&mut ctx.fence_fd, effects, Ghost(before), done);
    let done = release_fd(&mut ctx.audio_fd, effects, Ghost(before), done);
    let done = release_fd(&mut ctx.pending_render_fence, effects, Ghost(before), done);
    push_unmap(effects, ctx.shm_mapped);
    ctx.shm_mapped = false;
    proof {
        lemma_chain(before, done@, unmap_effects(m));
    }
    let done = Ghost(done@ + unmap_effects(m));
    release_fd(&mut ctx.shm_fd, effects, Ghost(before), done);
}

/// Closes the descriptor in a field, if there is one. `done` is what was added to `before` so far.
fn release_fd(
    field: &mut i32,
    effects: &mut Vec<Effect>,
    Ghost(before): Ghost<Seq<Effect>>,
    Ghost(done): Ghost<Seq<Effect>>,
) -> (more: Ghost<Seq<Effect>>)
    requires
        old(effects)@ == before + done,
    ensures
        more@ == done + close_one(*old(field)),
        final(effects)@ == before + more@,
        *final(field) == closed(*old(field)),
{
    let ghost more = done + close_one(*field);
    proof {
        lemma_chain(before, done, close_one(*field));
    }
    push_close(effects, *field);
    *field = closed_fd(*field);
    Ghost(more)
}

proof fn lemma_chain(a: Seq<Effect>, b: Seq<Effect>, c: Seq<Effect>)
    ensures
        a + b + c == a + (b + c),
{
    assert(a + b + c =~= a + (b + c));
}

/// Enters fallback: the consumer's resources are given up and the callback is called. A
/// context in fallback stays as it is.
pub fn enter_fallback(ctx: &mut display_ctx, effects: &mut Vec<Effect>)
    requires
        old(ctx).wf(),
    ensures
        final(ctx)@ == fell_back(old(ctx)@),
        final(effects)@ == old(effects)@ + fallback_effects(old(ctx)@),
{
    let ghost before = effects@;
    if ctx.fallback {
        assert(effects@ =~= before + fallback_effects(old(ctx)@));
        return;
    }
    release_consumer_resources(ctx, effects);
    ctx.fallback = true;
    if let Some(callback) = ctx.fallback_cb {
        effects.push(Effect::Notify { callback, userdata: ctx.fallback_userdata });
    }
    assert(effects@ =~= before + fallback_effects(old(ctx)@));
}

fn finish(ctx: &mut display_ctx, effects: Vec<Effect>, code: i32) -> (step: Step)
    ensures
        (final(ctx)@, step@) == returned(old(ctx)@, effects@, code),
{
    ctx.phase = Phase::Idle;
    Step { effects, next: Request::Return { code, event: None } }
}

fn go_on(ctx: &mut display_ctx, phase: Phase, next: Request) -> (step: Step)
    ensures
        (final(ctx)@, step@) == going_on(old(ctx)@, phase, next@),
{
    ctx.phase = phase;
    Step { effects: Vec::new(), next }
}

fn fail_connect(ctx: &mut display_ctx) -> (step: Step)
    ensures
        (final(ctx)@, step@) == connect_failed(old(ctx)@),
{
    let mut effects: Vec<Effect> = Vec::new();
    push_close(&mut effects, ctx.ctrl_fd);
    assert(effects@ =~= close_one(ctx.ctrl_fd));
    ctx.ctrl_fd = closed_fd(ctx.ctrl_fd);
    finish(ctx, effects, -1)
}

fn fail_exit(ctx: &mut display_ctx, effects: Vec<Effect>) -> (step: Step)
    requires
        old(ctx).wf(),
    ensures
        (final(ctx)@, step@) == exit_failed(old(ctx)@, effects@),
{
    let mut effects = effects;
    release_consumer_resources(ctx, &mut effects);
    finish(ctx, effects, -1)
}

fn lose_consumer(ctx: &mut display_ctx, effects: Vec<Effect>) -> (step: Step)
    requires
        old(ctx).wf(),
    ensures
        (final(ctx)@, step@) == returned(
            fell_back(old(ctx)@),
            effects@ + fallback_effects(old(ctx)@),
            -1i32,
        ),
{
    let mut effects = effects;
    enter_fallback(ctx, &mut effects);
    finish(ctx, effects, -1)
}

fn fail_bufs(ctx: &mut display_ctx, origin: Origin, effects: Vec<Effect>) -> (step: Step)
    requires
        old(ctx).wf(),
    ensures
        (final(ctx)@, step@) == bufs_failed(old(ctx)@, origin, effects@),
{
    match origin {
        Origin::Exit => fail_exit(ctx, effects),
        Origin::Input => lose_consumer(ctx, effects),
    }
}

fn poll_data_socket(
    ctx: &mut display_ctx,
    phase: Phase,
    timeout_ms: i32,
    watch_hangup: bool,
) -> (step: Step)
    ensures
        (final(ctx)@, step@) == poll_data(old(ctx)@, phase, timeout_ms, watch_hangup),
{
    let fd = ctx.data_fd;
    go_on(ctx, phase, Request::Poll { fd, timeout_ms, watch_hangup })
}

fn on_input_polled(
    ctx: &mut display_ctx,
    ready: bool,
    broken: bool,
    phase: Phase,
    next: Request,
) -> (step: Step)
    requires
        old(ctx).wf(),
    ensures
        (final(ctx)@, step@) == input_polled(old(ctx)@, ready, broken, phase, next@),
{
    if !ready {
        finish(ctx, Vec::new(), 0)
    } else if broken {
        let step = lose_consumer(ctx, Vec::new());
        assert(step@.effects =~= fallback_effects(old(ctx)@));
        step
    } else {
        go_on(ctx, phase, next)
    }
}

fn on_screen_info(ctx: &mut display_ctx, bytes: Option<Vec<u8>>) -> (step: Step)
    requires
        bytes matches Some(b) ==> b@.len() == HEADER_BYTES + SCREEN_INFO_BYTES,
    ensures
        (final(ctx)@, step@) == screen_info_received(
            old(ctx)@,
            match bytes {
                Some(b) => Some(b@),
                None => None,
            },
        ),
{
    match bytes {
        Some(b) => {
            let header = decode_header(b.as_slice());
            if header.type_ == CTRL_MSG_SCREEN_INFO && header.size == SCREEN_INFO_BYTES as u32 {
                let screen = decode_screen_info(b.as_slice(), HEADER_BYTES);
                ctx.screen_w = screen.width;
                ctx.screen_h = screen.height;
                ctx.pixel_format = screen.format;
                ctx.refresh = screen.refresh;
                finish(ctx, Vec::new(), 0)
            } else {
                fail_connect(ctx)
            }
        },
        None => fail_connect(ctx),
    }
}

/// Takes the descriptors of a pickup reply.
fn on_pickup(ctx: &mut display_ctx, count: isize, bytes: Vec<u8>, fds: Vec<i32>) -> (step: Step)
    requires
        old(ctx).wf(),
        bytes@.len() == HEADER_BYTES,
    ensures
        (final(ctx)@, step@) == pickup_received(old(ctx)@, count as int, bytes@, fds@),
{
    let header = decode_header(bytes.as_slice());
    if count <= 0 || header.type_ != CTRL_MSG_FDS_READY || fds.len() < PICKUP_FDS {
        let mut effects: Vec<Effect> = Vec::new();
        push_close_each(&mut effects, fds.as_slice(), fds.len());
        assert(fds@.take(fds@.len() as int) =~= fds@);
        assert(effects@ =~= close_each(fds@));
        fail_exit(ctx, effects)
    } else {
        ctx.buf_ready_efd = fds[0];
        ctx.fence_fd = fds[1];
        ctx.data_fd = fds[2];
        ctx.shm_fd = fds[3];
        ctx.audio_fd = fds[4];
        let fd = ctx.shm_fd;
        go_on(ctx, Phase::PickupMap, Request::MapIndex { fd })
    }
}

fn on_mapped(ctx: &mut display_ctx, mapped: bool) -> (step: Step)
    requires
        old(ctx).wf(),
        old(ctx)@.phase == Phase::PickupMap,
    ensures
        (final(ctx)@, step@) == pickup_mapped(old(ctx)@, mapped),
{
    if !mapped {
        ctx.shm_mapped = false;
        fail_exit(ctx, Vec::new())
    } else {
        ctx.shm_mapped = true;
        if ctx.buf_count > 0 {
            ctx.fallback = false;
            finish(ctx, Vec::new(), 0)
        } else {
            poll_data_socket(
                ctx,
                Phase::BufsPoll { origin: Origin::Exit },
                HANDSHAKE_TIMEOUT_MS,
                true,
            )
        }
    }
}

/// Takes the descriptors of a buffer set.
fn on_bufs(
    ctx: &mut display_ctx,
    origin: Origin,
    count: isize,
    bytes: Vec<u8>,
    fds: Vec<i32>,
) -> (step: Step)
    requires
        old(ctx).wf(),
        bytes@.len() == HEADER_BYTES,
    ensures
        (final(ctx)@, step@) == bufs_received(old(ctx)@, origin, count as int, bytes@, fds@),
{
    let header = decode_header(bytes.as_slice());
    let described: usize = header.size as usize / BUF_INFO_BYTES;
    if count < HEADER_BYTES as isize || fds.len() < 1 || header.type_ != DATA_MSG_BUFS_READY
        || described != fds.len() {
        let mut effects: Vec<Effect> = Vec::new();
        push_close_each(&mut effects, fds.as_slice(), fds.len());
        assert(fds@.take(fds@.len() as int) =~= fds@);
        assert(effects@ =~= close_each(fds@));
        fail_bufs(ctx, origin, effects)
    } else {
        ctx.incoming = fds;
        let fd = ctx.data_fd;
        go_on(
            ctx,
            Phase::BufsInfos { origin, len: header.size },
            Request::RecvAll { fd, len: header.size as usize },
        )
    }
}

/// Puts the incoming buffer set in the place of the old one.
fn install_bufs(ctx: &mut display_ctx, bytes: &[u8], effects: &mut Vec<Effect>)
    requires
        old(ctx).wf(),
        old(ctx)@.incoming.len() <= MAX_BUFS,
        old(ctx)@.incoming.len() * BUF_INFO_BYTES <= bytes@.len(),
    ensures
        final(ctx)@ == bufs_installed(old(ctx)@, bytes@),
        final(effects)@ == old(effects)@ + close_each(
            old(ctx)@.dmabuf_fds.take(old(ctx)@.buf_count),
        ),
{
    push_close_each(effects, ctx.dmabuf_fds.as_slice(), ctx.buf_count as usize);
    forget_dmabufs(ctx);
    let ghost mid = ctx@;
    let count: usize = ctx.incoming.len();
    let mut i: usize = 0;
    while i < count
        invariant
            i <= count <= MAX_BUFS,
            count == mid.incoming.len(),
            mid.dmabuf_fds.len() == MAX_BUFS,
            mid.dmabuf_infos.len() == MAX_BUFS,
            count * BUF_INFO_BYTES <= bytes@.len(),
            ctx@ == (CtxModel {
                dmabuf_fds: ctx@.dmabuf_fds,
                dmabuf_infos: ctx@.dmabuf_infos,
                ..mid
            }),
            ctx@.dmabuf_fds.len() == MAX_BUFS,
            ctx@.dmabuf_infos.len() == MAX_BUFS,
            forall|j: int|
                0 <= j < MAX_BUFS ==> #[trigger] ctx@.dmabuf_fds[j] == (if j < i {
                    mid.incoming[j]
                } else {
                    mid.dmabuf_fds[j]
                }),
            forall|j: int|
                0 <= j < MAX_BUFS ==> #[trigger] ctx@.dmabuf_infos[j] == (if j < i {
                    buf_info_at(bytes@, j * BUF_INFO_BYTES)
                } else {
                    mid.dmabuf_infos[j]
                }),
        decreases count - i,
    {
        ctx.dmabuf_fds[i] = ctx.incoming[i];
        let info = decode_buf_info(bytes, i * BUF_INFO_BYTES);
        ctx.dmabuf_infos[i] = info;
        i += 1;
    }
    ctx.buf_count = count as i32;
    ctx.incoming = Vec::new();
    proof {
        let goal = bufs_installed(old(ctx)@, bytes@);
        assert(ctx@.dmabuf_fds =~= goal.dmabuf_fds);
        assert(ctx@.dmabuf_infos =~= goal.dmabuf_infos);
        assert(ctx@.incoming =~= goal.incoming);
    }
}

fn on_infos(ctx: &mut display_ctx, origin: Origin, bytes: Option<Vec<u8>>) -> (step: Step)
    requires
        old(ctx).wf(),
        old(ctx)@.phase matches Phase::BufsInfos { origin: o, .. } && o == origin,
        old(ctx)@.incoming.len() <= MAX_BUFS,
        bytes matches Some(b) ==> old(ctx)@.incoming.len() * BUF_INFO_BYTES <= b@.len(),
    ensures
        (final(ctx)@, step@) == infos_received(
            old(ctx)@,
            origin,
            match bytes {
                Some(b) => Some(b@),
                None => None,
            },
        ),
{
    let mut effects: Vec<Effect> = Vec::new();
    match bytes {
        Some(b) => {
            install_bufs(ctx, b.as_slice(), &mut effects);
            assert(effects@ =~= close_each(old(ctx)@.dmabuf_fds.take(old(ctx)@.buf_count)));
            match origin {
                Origin::Exit => {
                    ctx.fallback = false;
                    finish(ctx, effects, 0)
                },
                Origin::Input => finish(ctx, effects, -2),
            }
        },
        None => {
            push_close_each(&mut effects, ctx.incoming.as_slice(), ctx.incoming.len());
            assert(ctx@.incoming.take(ctx@.incoming.len() as int) =~= ctx@.incoming);
            assert(effects@ =~= close_each(old(ctx)@.incoming));
            ctx.incoming = Vec::new();
            ctx.phase = Phase::BufsRecv { origin };
            let step = fail_bufs(ctx, origin, effects);
            proof {
                let m = CtxModel { incoming: Seq::empty(), ..old(ctx)@ };
                assert(ctx@ == bufs_failed(m, origin, close_each(old(ctx)@.incoming)).0);
            }
            step
        },
    }
}

fn on_peeked(ctx: &mut display_ctx, count: isize, bytes: Vec<u8>) -> (step: Step)
    requires
        bytes@.len() >= HEADER_BYTES,
    ensures
        (final(ctx)@, step@) == input_peeked(old(ctx)@, count as int, bytes@),
{
    if count < HEADER_BYTES as isize {
        return finish(ctx, Vec::new(), 0);
    }
    let header = decode_header(bytes.as_slice());
    if header.type_ == DATA_MSG_BUFS_READY {
        poll_data_socket(
            ctx,
            Phase::BufsPoll { origin: Origin::Input },
            HANDSHAKE_TIMEOUT_MS,
            true,
        )
    } else if header.type_ != DATA_MSG_INPUT_EVENT {
        finish(ctx, Vec::new(), 0)
    } else {
        let fd = ctx.data_fd;
        go_on(ctx, Phase::InputRecv, Request::RecvAll { fd, len: HEADER_BYTES + EVENT_BYTES })
    }
}

fn on_input(ctx: &mut display_ctx, bytes: Option<Vec<u8>>) -> (step: Step)
    requires
        bytes matches Some(b) ==> b@.len() == HEADER_BYTES + EVENT_BYTES,
    ensures
        (final(ctx)@, step@) == input_received(
            old(ctx)@,
            match bytes {
                Some(b) => Some(b@),
                None => None,
            },
        ),
{
    match bytes {
        Some(b) => {
            let event = decode_input_event(b.as_slice(), HEADER_BYTES);
            ctx.phase = Phase::Idle;
            Step { effects: Vec::new(), next: Request::Return { code: 1, event: Some(event) } }
        },
        None => finish(ctx, Vec::new(), -1),
    }
}

fn on_extend_fds(
    ctx: &mut display_ctx,
    count: isize,
    bytes: Vec<u8>,
    fds: Vec<i32>,
) -> (step: Step)
    requires
        bytes@.len() == HEADER_BYTES,
        fds@.len() <= i32::MAX,
    ensures
        (final(ctx)@, step@) == extend_fds_received(old(ctx)@, count as int, bytes@, fds@),
{
    if count < HEADER_BYTES as isize || fds.len() < 1 {
        return finish(ctx, Vec::new(), -1);
    }
    let header = decode_header(bytes.as_slice());
    if header.type_ != DATA_MSG_INPUT_EXTEND_FDS {
        let mut effects: Vec<Effect> = Vec::new();
        let mut i: usize = 0;
        while i < fds.len()
            invariant
                i <= fds@.len(),
                effects@ == Seq::new(i as nat, |j: int| Effect::Close(fds@[j])),
            decreases fds@.len() - i,
        {
            effects.push(Effect::Close(fds[i]));
            i += 1;
            assert(effects@ =~= Seq::new(i as nat, |j: int| Effect::Close(fds@[j])));
        }
        finish(ctx, effects, -1)
    } else {
        finish(ctx, Vec::new(), fds.len() as i32)
    }
}

/// Goes on with the exchange that is under way.
pub fn resume(ctx: &mut display_ctx, reply: Reply) -> (step: Step)
    requires
        old(ctx).wf(),
        old(ctx)@.awaits(reply@),
    ensures
        final(ctx).wf(),
        (final(ctx)@, step@) == resumed(old(ctx)@, reply@),
{
    let phase = ctx.phase;
    match (phase, reply) {
        (Phase::Connecting, Reply::Connected(fd)) => {
            ctx.ctrl_fd = fd;
            if fd < 0 {
                finish(ctx, Vec::new(), -1)
            } else {
                let bytes = encode_header(CTRL_MSG_PRODUCER_HELLO, 0);
                go_on(ctx, Phase::Hello, Request::SendAll { fd, bytes })
            }
        },
        (Phase::Hello, Reply::Sent(ok)) => {
            if !ok {
                fail_connect(ctx)
            } else {
                let fd = ctx.ctrl_fd;
                go_on(
                    ctx,
                    Phase::ScreenInfo,
                    Request::RecvAll { fd, len: HEADER_BYTES + SCREEN_INFO_BYTES },
                )
            }
        },
        (Phase::ScreenInfo, Reply::Received(bytes)) => on_screen_info(ctx, bytes),
        (Phase::PickupSend, Reply::Sent(ok)) => {
            if !ok {
                fail_exit(ctx, Vec::new())
            } else {
                let fd = ctx.ctrl_fd;
                go_on(
                    ctx,
                    Phase::PickupPoll,
                    Request::Poll { fd, timeout_ms: HANDSHAKE_TIMEOUT_MS, watch_hangup: false },
                )
            }
        },
        (Phase::PickupPoll, Reply::Polled { ready, broken }) => {
            if !ready {
                fail_exit(ctx, Vec::new())
            } else {
                let fd = ctx.ctrl_fd;
                go_on(
                    ctx,
                    Phase::PickupRecv,
                    Request::RecvFds { fd, len: HEADER_BYTES, limit: PICKUP_FDS },
                )
            }
        },
        (Phase::PickupRecv, Reply::Fds { count, bytes, fds }) => on_pickup(ctx, count, bytes, fds),
        (Phase::PickupMap, Reply::Mapped(mapped)) => on_mapped(ctx, mapped),
        (Phase::BufsPoll { origin }, Reply::Polled { ready, broken }) => {
            if !ready || broken {
                fail_bufs(ctx, origin, Vec::new())
            } else {
                let fd = ctx.data_fd;
                go_on(
                    ctx,
                    Phase::BufsRecv { origin },
                    Request::RecvFds { fd, len: HEADER_BYTES, limit: MAX_BUFS },
                )
            }
        },
        (Phase::BufsRecv { origin }, Reply::Fds { count, bytes, fds }) => on_bufs(
            ctx,
            origin,
            count,
            bytes,
            fds,
        ),
        (Phase::BufsInfos { origin, len }, Reply::Received(bytes)) => {
            assert(len as int >= BUF_INFO_BYTES * (len as int / BUF_INFO_BYTES as int));
            on_infos(ctx, origin, bytes)
        },
        (Phase::InputPoll, Reply::Polled { ready, broken }) => {
            let fd = ctx.data_fd;
            on_input_polled(
                ctx,
                ready,
                broken,
                Phase::InputPeek,
                Request::Peek { fd, len: HEADER_BYTES + EVENT_BYTES },
            )
        },
        (Phase::InputPeek, Reply::Peeked { count, bytes }) => on_peeked(ctx, count, bytes),
        (Phase::InputRecv, Reply::Received(bytes)) => on_input(ctx, bytes),
        (Phase::DataPoll { size }, Reply::Polled { ready, broken }) => {
            let fd = ctx.data_fd;
            on_input_polled(
                ctx,
                ready,
                broken,
                Phase::DataRecv { size },
                Request::RecvAll { fd, len: size },
            )
        },
        (Phase::DataRecv { size }, Reply::Received(bytes)) => {
            let code: i32 = match bytes {
                Some(_) => 1,
                None => -1,
            };
            finish(ctx, Vec::new(), code)
        },
        (Phase::FdsPoll { limit }, Reply::Polled { ready, broken }) => {
            let fd = ctx.data_fd;
            on_input_polled(
                ctx,
                ready,
                broken,
                Phase::FdsRecv { limit },
                Request::RecvFds { fd, len: HEADER_BYTES, limit },
            )
        },
        (Phase::FdsRecv { limit }, Reply::Fds { count, bytes, fds }) => on_extend_fds(
            ctx,
            count,
            bytes,
            fds,
        ),
        (Phase::Push, Reply::Sent(ok)) => {
            if ok {
                finish(ctx, Vec::new(), 0)
            } else {
                let step = lose_consumer(ctx, Vec::new());
                assert(step@.effects =~= fallback_effects(old(ctx)@));
                step
            }
        },
        (Phase::Fence, Reply::Sent(ok)) => {
            let mut effects: Vec<Effect> = Vec::new();
            push_close(&mut effects, ctx.pending_render_fence);
            assert(effects@ =~= close_one(ctx.pending_render_fence));
            ctx.pending_render_fence = closed_fd(ctx.pending_render_fence);
            finish(ctx, effects, 0)
        },
        _ => {
            assert(false);
            finish(ctx, Vec::new(), -1)
        },
    }
}

/// Starts connecting to the daemon at `socket_path`.
///
/// The context is in fallback until a consumer is picked up. When the exchange returns a
/// negative number, the context holds nothing and is of no further use.
pub fn connect_to_deamon(socket_path: &[u8]) -> (r: (display_ctx, Step))
    ensures
        r.0.wf(),
        r.0@ == (CtxModel { phase: Phase::Connecting, ..fresh() }),
        r.1@ == (StepModel {
            effects: Seq::empty(),
            next: RequestModel::Connect {
                path: usable_path(socket_path@),
            },
        }),
{
    let ctx = display_ctx {
        ctrl_fd: -1,
        data_fd: -1,
        buf_ready_efd: -1,
        fence_fd: -1,
        shm_fd: -1,
        audio_fd: -1,
        pending_render_fence: -1,
        shm_mapped: false,
        screen_w: 0,
        screen_h: 0,
        pixel_format: 0,
        refresh: 0,
        fallback: true,
        dmabuf_fds: [-1i32;MAX_BUFS],
        dmabuf_infos: [buf_info::default();MAX_BUFS],
        buf_count: 0,
        fallback_cb: None,
        fallback_userdata: 0,
        incoming: Vec::new(),
        phase: Phase::Connecting,
    };
    assert(ctx@.dmabuf_fds =~= fresh().dmabuf_fds);
    assert(ctx@.dmabuf_infos =~= fresh().dmabuf_infos);
    (ctx, Step { effects: Vec::new(), next: Request::Connect { path: connect_unix(socket_path) } })
}

/// Ends the session: gives up the consumer's resources and closes the control socket.
pub fn disconnect(ctx: display_ctx) -> (effects: Vec<Effect>)
    requires
        ctx.wf(),
    ensures
        effects@ == release_effects(ctx@) + close_one(ctx@.ctrl_fd),
{
    let mut ctx = ctx;
    let mut effects: Vec<Effect> = Vec::new();
    let ghost m = ctx@;
    release_consumer_resources(&mut ctx, &mut effects);
    push_close(&mut effects, ctx.ctrl_fd);
    assert(effects@ =~= release_effects(m) + close_one(m.ctrl_fd));
    effects
}

/// The screen that the daemon announced: width, height, format and refresh rate.
pub fn get_screen_info(ctx: &display_ctx) -> (info: (u32, u32, u32, u32))
    ensures
        info == (ctx@.screen_w, ctx@.screen_h, ctx@.pixel_format, ctx@.refresh),
{
    (ctx.screen_w, ctx.screen_h, ctx.pixel_format, ctx.refresh)
}

/// Sets the fence that the next refresh hands over, and closes the one that it replaces.
pub fn set_render_fence(ctx: &mut display_ctx, fence_fd: i32) -> (effects: Vec<Effect>)
    requires
        old(ctx).wf(),
    ensures
        final(ctx).wf(),
        final(ctx)@ == (CtxModel { pending_render_fence: fence_fd, ..old(ctx)@ }),
        effects@ == close_one(old(ctx)@.pending_render_fence),
{
    let mut effects: Vec<Effect> = Vec::new();
    push_close(&mut effects, ctx.pending_render_fence);
    assert(effects@ =~= close_one(ctx.pending_render_fence));
    ctx.pending_render_fence = fence_fd;
    effects
}

/// Starts telling the consumer that the frame is rendered. In fallback there is nobody to
/// tell, and the fence is closed.
pub fn trigger_refresh(ctx: &mut display_ctx) -> (step: Step)
    requires
        old(ctx).wf(),
        old(ctx)@.phase == Phase::Idle,
    ensures
        final(ctx).wf(),
        (final(ctx)@, step@) == refreshing(old(ctx)@),
{
    if ctx.fallback {
        let mut effects: Vec<Effect> = Vec::new();
        push_close(&mut effects, ctx.pending_render_fence);
        assert(effects@ =~= close_one(ctx.pending_render_fence));
        ctx.pending_render_fence = closed_fd(ctx.pending_render_fence);
        return finish(ctx, effects, 0);
    }
    let fence = if ctx.pending_render_fence >= 0 {
        Some(ctx.pending_render_fence)
    } else {
        None
    };
    let fd = ctx.fence_fd;
    go_on(ctx, Phase::Fence, Request::SendFence { fd, fence })
}

fn start(ctx: &mut display_ctx, phase: Phase, next: Request) -> (step: Step)
    ensures
        (final(ctx)@, step@) == with_consumer(old(ctx)@, phase, next@),
{
    if ctx.fallback {
        finish(ctx, Vec::new(), 0)
    } else {
        go_on(ctx, phase, next)
    }
}

/// Starts polling for one input event. The exchange returns 1 with an event, 0 when there is
/// none, -1 when the consumer is lost and -2 when it replaced its buffers.
pub fn poll_input_event(ctx: &mut display_ctx, timeout_ms: i32) -> (step: Step)
    requires
        old(ctx).wf(),
        old(ctx)@.phase == Phase::Idle,
    ensures
        final(ctx).wf(),
        (final(ctx)@, step@) == with_consumer(
            old(ctx)@,
            Phase::InputPoll,
            RequestModel::Poll { fd: old(ctx)@.data_fd, timeout_ms, watch_hangup: false },
        ),
{
    let fd = ctx.data_fd;
    start(ctx, Phase::InputPoll, Request::Poll { fd, timeout_ms, watch_hangup: false })
}

/// Starts receiving the `size` bytes that follow an input event. The exchange returns 1 when
/// they all came; only then does the reply hold them.
pub fn poll_input_event_extend_data(
    ctx: &mut display_ctx,
    size: usize,
    timeout_ms: i32,
) -> (step: Step)
    requires
        old(ctx).wf(),
        old(ctx)@.phase == Phase::Idle,
    ensures
        final(ctx).wf(),
        (final(ctx)@, step@) == with_consumer(
            old(ctx)@,
            Phase::DataPoll { size },
            RequestModel::Poll { fd: old(ctx)@.data_fd, timeout_ms, watch_hangup: false },
        ),
{
    let fd = ctx.data_fd;
    start(ctx, Phase::DataPoll { size }, Request::Poll { fd, timeout_ms, watch_hangup: false })
}

/// Starts receiving the descriptors that follow an input event, at most `fd_count`. The
/// exchange returns how many came.
pub fn poll_input_event_extend_fds(
    ctx: &mut display_ctx,
    fd_count: usize,
    timeout_ms: i32,
) -> (step: Step)
    requires
        old(ctx).wf(),
        old(ctx)@.phase == Phase::Idle,
    ensures
        final(ctx).wf(),
        (final(ctx)@, step@) == with_consumer(
            old(ctx)@,
            Phase::FdsPoll { limit: fd_count },
            RequestModel::Poll { fd: old(ctx)@.data_fd, timeout_ms, watch_hangup: false },
        ),
{
    let fd = ctx.data_fd;
    start(
        ctx,
        Phase::FdsPoll { limit: fd_count },
        Request::Poll { fd, timeout_ms, watch_hangup: false },
    )
}

/// Starts sending an event. A consumer that cannot be reached is lost.
pub fn push_output_event(ctx: &mut display_ctx, event: &OutputEvent) -> (step: Step)
    requires
        old(ctx).wf(),
        old(ctx)@.phase == Phase::Idle,
    ensures
        final(ctx).wf(),
        (final(ctx)@, step@) == with_consumer(
            old(ctx)@,
            Phase::Push,
            RequestModel::SendAll {
                fd: old(ctx)@.data_fd,
                bytes: output_message(*event, Seq::empty()),
            },
        ),
{
    push_output_event_with_length(ctx, event, &[])
}

/// Starts sending an event and the payload that follows it, in one message.
pub fn push_output_event_with_length(
    ctx: &mut display_ctx,
    event: &OutputEvent,
    payload: &[u8],
) -> (step: Step)
    requires
        old(ctx).wf(),
        old(ctx)@.phase == Phase::Idle,
    ensures
        final(ctx).wf(),
        (final(ctx)@, step@) == with_consumer(
            old(ctx)@,
            Phase::Push,
            RequestModel::SendAll {
                fd: old(ctx)@.data_fd,
                bytes: output_message(*event, payload@),
            },
        ),
{
    let mut bytes = encode_header(DATA_MSG_OUTPUT_EVENT, EVENT_BYTES as u32);
    let body = event.encode();
    push_all(&mut bytes, body.as_slice());
    push_all(&mut bytes, payload);
    let fd = ctx.data_fd;
    start(ctx, Phase::Push, Request::SendAll { fd, bytes })
}

/// The words of the event that asks the consumer for a service.
pub open spec fn resources_request_words(service_type: u32, args: Option<[u32; 3]>) -> Seq<u32> {
    match args {
        Some(a) => seq![OUTPUT_TYPE_RESOURCES_REQUEST, service_type, a@[0], a@[1], a@[2]],
        None => seq![OUTPUT_TYPE_RESOURCES_REQUEST, service_type, 0, 0, 0],
    }
}

/// Starts asking the consumer for a service. Arguments that are not given are zero.
pub fn push_resources_request(
    ctx: &mut display_ctx,
    service_type: u32,
    args: Option<[u32; 3]>,
) -> (step: Step)
    requires
        old(ctx).wf(),
        old(ctx)@.phase == Phase::Idle,
    ensures
        final(ctx).wf(),
        (final(ctx)@, step@) == with_consumer(
            old(ctx)@,
            Phase::Push,
            RequestModel::SendAll {
                fd: old(ctx)@.data_fd,
                bytes: output_frame(resources_request_words(service_type, args), Seq::empty()),
            },
        ),
{
    let ghost words = resources_request_words(service_type, args);
    let args: [u32; 3] = match args {
        Some(a) => a,
        None => [0u32;3],
    };
    let event = OutputEvent {
        type_: OUTPUT_TYPE_RESOURCES_REQUEST,
        data: OutputEventData::ResourcesRequest(ResourceRequestEvent { type_: service_type, args }),
    };
    assert(seq![event.type_] + output_words(event.data) =~= words);
    push_output_event(ctx, &event)
}

/// Sets what is called when the consumer goes.
pub fn set_fallback_callback(ctx: &mut display_ctx, on_fallback: Option<u64>, userdata: u64) -> (
    code: i32)
    requires
        old(ctx).wf(),
    ensures
        final(ctx).wf(),
        code == 0,
        final(ctx)@ == (CtxModel {
            fallback_cb: on_fallback,
            fallback_userdata: userdata,
            ..old(ctx)@
        }),
{
    ctx.fallback_cb = on_fallback;
    ctx.fallback_userdata = userdata;
    0
}

/// Whether the consumer is gone.
pub fn is_fallback(ctx: &display_ctx) -> (fallback: bool)
    ensures
        fallback == ctx@.fallback,
{
    ctx.fallback
}

/// Starts picking up a consumer. The exchange returns 0 when one is there; when it returns a
/// negative number, the context is in fallback and holds nothing of a consumer.
pub fn try_exit_fallback(ctx: &mut display_ctx) -> (step: Step)
    requires
        old(ctx).wf(),
        old(ctx)@.phase == Phase::Idle,
    ensures
        final(ctx).wf(),
        (final(ctx)@, step@) == exiting_fallback(old(ctx)@),
{
    if !ctx.fallback {
        return finish(ctx, Vec::new(), 0);
    }
    let fd = ctx.ctrl_fd;
    let bytes = encode_header(CTRL_MSG_PICKUP_FDS, 0);
    go_on(ctx, Phase::PickupSend, Request::SendAll { fd, bytes })
}

pub fn get_data_fd(ctx: &display_ctx) -> (fd: i32)
    ensures
        fd == ctx@.data_fd,
{
    ctx.data_fd
}

/// The audio socket of the consumer, or -1 in fallback.
pub fn get_audio_fd(ctx: &display_ctx) -> (fd: i32)
    ensures
        fd == (if ctx@.fallback {
            -1i32
        } else {
            ctx@.audio_fd
        }),
{
    if ctx.fallback {
        -1
    } else {
        ctx.audio_fd
    }
}

pub fn get_buffer_ready_fd(ctx: &display_ctx) -> (fd: i32)
    ensures
        fd == ctx@.buf_ready_efd,
{
    ctx.buf_ready_efd
}

pub fn get_buf_count(ctx: &display_ctx) -> (count: i32)
    ensures
        count == ctx@.buf_count,
{
    ctx.buf_count
}

/// The buffer that the consumer selected: `shared_idx` is what the shared index holds. An
/// index that is not mapped or names no buffer counts as 0.
pub fn get_selected_idx(ctx: &display_ctx, shared_idx: u32) -> (idx: i32)
    requires
        ctx.wf(),
    ensures
        idx == (if ctx@.shm_mapped && shared_idx < ctx@.buf_count {
            shared_idx as int
        } else {
            0
        }),
{
    if !ctx.shm_mapped {
        return 0;
    }
    if shared_idx < ctx.buf_count as u32 {
        shared_idx as i32
    } else {
        0
    }
}

/// The descriptor of buffer `idx`, or -1 if there is no such buffer.
pub fn get_dmabuf_fd_at(ctx: &display_ctx, idx: i32) -> (fd: i32)
    requires
        ctx.wf(),
    ensures
        fd == (if 0 <= idx < ctx@.buf_count {
            ctx@.dmabuf_fds[idx as int]
        } else {
            -1i32
        }),
{
    if idx < 0 || idx >= ctx.buf_count {
        return -1;
    }
    ctx.dmabuf_fds[idx as usize]
}

/// The layout of buffer `idx`, if there is such a buffer.
pub fn get_dmabuf_info_at(ctx: &display_ctx, idx: i32) -> (info: Option<buf_info>)
    requires
        ctx.wf(),
    ensures
        info == (if 0 <= idx < ctx@.buf_count {
            Some(ctx@.dmabuf_infos[idx as int])
        } else {
            None
        }),
{
    if idx < 0 || idx >= ctx.buf_count {
        return None;
    }
    Some(ctx.dmabuf_infos[idx as usize])
}

} // verus!
