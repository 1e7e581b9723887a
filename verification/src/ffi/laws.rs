//! What holds of every exchange of a producer context.
use vstd::prelude::*;

use crate::ffi::model::{
    close_each, close_one, closed_prefix, release_effects, released, resumed, CtxModel, Effect,
    Origin, Phase, ReplyModel, RequestModel,
};
use crate::ffi::protocol::{HEADER_BYTES, MAX_BUFS};

verus! {

/// How often `fd` occurs in `fds`.
pub open spec fn count_in(fds: Seq<i32>, fd: i32) -> int
    decreases fds.len(),
{
    if fds.len() == 0 {
        0
    } else {
        count_in(fds.drop_last(), fd) + one(fds.last(), fd)
    }
}

/// 1 for `fd` itself, 0 for anything else.
pub open spec fn one(field: i32, fd: i32) -> int {
    if field == fd {
        1
    } else {
        0
    }
}

/// How often `effects` close `fd`.
pub open spec fn closes(effects: Seq<Effect>, fd: i32) -> int
    decreases effects.len(),
{
    if effects.len() == 0 {
        0
    } else {
        closes(effects.drop_last(), fd) + if effects.last() == Effect::Close(fd) {
            1int
        } else {
            0int
        }
    }
}

/// How often a context holds `fd`.
pub open spec fn held(m: CtxModel, fd: i32) -> int {
    one(m.ctrl_fd, fd) + one(m.data_fd, fd) + one(m.buf_ready_efd, fd) + one(m.fence_fd, fd) + one(
        m.shm_fd,
        fd,
    ) + one(m.audio_fd, fd) + one(m.pending_render_fence, fd) + count_in(m.dmabuf_fds, fd)
        + count_in(m.incoming, fd)
}

/// How often a reply brings `fd`.
pub open spec fn brought(reply: ReplyModel, fd: i32) -> int {
    match reply {
        ReplyModel::Connected(f) => one(f, fd),
        ReplyModel::Fds { fds, .. } => count_in(fds, fd),
        _ => 0,
    }
}

/// How often a reply's `fd` goes to the caller: the descriptors that follow an input event.
pub open spec fn handed_over(m: CtxModel, reply: ReplyModel, fd: i32) -> int {
    if m.phase is FdsRecv && (resumed(m, reply).1.next matches RequestModel::Return { code, .. }
        && code > 0) {
        brought(reply, fd)
    } else {
        0
    }
}

/// The reply is a truncated header that came with descriptors, for a caller that wants them.
pub open spec fn truncated_descriptors(m: CtxModel, reply: ReplyModel) -> bool {
    m.phase is FdsRecv && (reply matches ReplyModel::Fds { count, fds, .. } && count < HEADER_BYTES
        && fds.len() > 0)
}

proof fn lemma_closes_concat(a: Seq<Effect>, b: Seq<Effect>, fd: i32)
    ensures
        closes(a + b, fd) == closes(a, fd) + closes(b, fd),
    decreases b.len(),
{
    if b.len() == 0 {
        assert(a + b =~= a);
    } else {
        assert((a + b).drop_last() =~= a + b.drop_last());
        lemma_closes_concat(a, b.drop_last(), fd);
    }
}

proof fn lemma_closes_one(f: i32, fd: i32)
    requires
        fd >= 0,
    ensures
        closes(close_one(f), fd) == one(f, fd),
{
    reveal_with_fuel(closes, 2);
    assert(close_one(f).drop_last().len() == 0 || f < 0);
}

proof fn lemma_closes_each(fds: Seq<i32>, fd: i32)
    requires
        fd >= 0,
    ensures
        closes(close_each(fds), fd) == count_in(fds, fd),
    decreases fds.len(),
{
    if fds.len() > 0 {
        lemma_closes_each(fds.drop_last(), fd);
        lemma_closes_concat(close_each(fds.drop_last()), close_one(fds.last()), fd);
        lemma_closes_one(fds.last(), fd);
    }
}

proof fn lemma_closes_all(fds: Seq<i32>, fd: i32)
    ensures
        closes(Seq::new(fds.len(), |i: int| Effect::Close(fds[i])), fd) == count_in(fds, fd),
    decreases fds.len(),
{
    let effects = Seq::new(fds.len(), |i: int| Effect::Close(fds[i]));
    if fds.len() > 0 {
        lemma_closes_all(fds.drop_last(), fd);
        assert(effects.drop_last() =~= Seq::new(
            fds.drop_last().len(),
            |i: int| Effect::Close(fds.drop_last()[i]),
        ));
    }
}

proof fn lemma_none_held(fds: Seq<i32>, fd: i32)
    requires
        fd >= 0,
        forall|i: int| 0 <= i < fds.len() ==> fds[i] < 0,
    ensures
        count_in(fds, fd) == 0,
    decreases fds.len(),
{
    if fds.len() > 0 {
        lemma_none_held(fds.drop_last(), fd);
    }
}

proof fn lemma_count_split(fds: Seq<i32>, n: int, fd: i32)
    requires
        fd >= 0,
        0 <= n <= fds.len(),
        forall|i: int| n <= i < fds.len() ==> fds[i] < 0,
    ensures
        count_in(fds, fd) == count_in(fds.take(n), fd),
    decreases fds.len(),
{
    if n == fds.len() {
        assert(fds.take(n) =~= fds);
    } else {
        lemma_count_split(fds.drop_last(), n, fd);
        assert(fds.drop_last().take(n) =~= fds.take(n));
    }
}

proof fn lemma_five(fds: Seq<i32>, fd: i32)
    requires
        fds.len() == 5,
    ensures
        count_in(fds, fd) == one(fds[0], fd) + one(fds[1], fd) + one(fds[2], fd) + one(fds[3], fd)
            + one(fds[4], fd),
{
    reveal_with_fuel(count_in, 6);
    let a = fds.drop_last();
    let b = a.drop_last();
    let c = b.drop_last();
    let d = c.drop_last();
    assert(d.drop_last().len() == 0);
}

/// What is given up is closed once for every time it was held.
proof fn lemma_release_closes(m: CtxModel, fd: i32)
    requires
        m.wf(),
        fd >= 0,
    ensures
        closes(release_effects(m), fd) == held(m, fd) - held(released(m), fd),
        forall|i: int| 0 <= i < MAX_BUFS ==> released(m).dmabuf_fds[i] < 0,
{
    let a = close_each(m.dmabuf_fds.take(m.buf_count));
    let b = a + close_one(m.data_fd);
    let c = b + close_one(m.buf_ready_efd);
    let d = c + close_one(m.fence_fd);
    let e = d + close_one(m.audio_fd);
    let f = e + close_one(m.pending_render_fence);
    let unmap = crate::ffi::model::unmap_effects(m);
    let g = f + unmap;
    lemma_closes_each(m.dmabuf_fds.take(m.buf_count), fd);
    lemma_closes_concat(a, close_one(m.data_fd), fd);
    lemma_closes_concat(b, close_one(m.buf_ready_efd), fd);
    lemma_closes_concat(c, close_one(m.fence_fd), fd);
    lemma_closes_concat(d, close_one(m.audio_fd), fd);
    lemma_closes_concat(e, close_one(m.pending_render_fence), fd);
    lemma_closes_concat(f, unmap, fd);
    lemma_closes_concat(g, close_one(m.shm_fd), fd);
    lemma_closes_one(m.data_fd, fd);
    lemma_closes_one(m.buf_ready_efd, fd);
    lemma_closes_one(m.fence_fd, fd);
    lemma_closes_one(m.audio_fd, fd);
    lemma_closes_one(m.pending_render_fence, fd);
    lemma_closes_one(m.shm_fd, fd);
    assert(closes(unmap, fd) == 0) by {
        reveal_with_fuel(closes, 2);
    }
    lemma_count_split(m.dmabuf_fds, m.buf_count, fd);
    lemma_none_held(closed_prefix(m.dmabuf_fds, m.buf_count), fd);
}

proof fn lemma_fallback_closes(m: CtxModel, fd: i32)
    requires
        m.wf(),
        fd >= 0,
    ensures
        closes(crate::ffi::model::fallback_effects(m), fd) == held(m, fd) - held(
            crate::ffi::model::fell_back(m),
            fd,
        ),
{
    if !m.fallback {
        lemma_release_closes(m, fd);
        let notify = crate::ffi::model::notify_effects(m);
        lemma_closes_concat(release_effects(m), notify, fd);
        assert(closes(notify, fd) == 0) by {
            reveal_with_fuel(closes, 2);
        }
    }
}

/// A failed buffer set, with `fds` that are closed first.
proof fn lemma_bufs_failed(m: CtxModel, origin: Origin, fds: Seq<i32>, fd: i32)
    requires
        m.wf(),
        fd >= 0,
    ensures
        ({
            let (post, step) = crate::ffi::model::bufs_failed(m, origin, close_each(fds));
            held(m, fd) + count_in(fds, fd) == held(post, fd) + closes(step.effects, fd)
        }),
{
    lemma_closes_each(fds, fd);
    lemma_release_closes(m, fd);
    lemma_fallback_closes(m, fd);
    lemma_closes_concat(close_each(fds), release_effects(m), fd);
    lemma_closes_concat(close_each(fds), crate::ffi::model::fallback_effects(m), fd);
}

/// A descriptor is held, closed or handed over as often as it was held or brought.
pub open spec fn balanced(m: CtxModel, reply: ReplyModel, fd: i32) -> bool {
    let (post, step) = resumed(m, reply);
    held(m, fd) + brought(reply, fd) == held(post, fd) + closes(step.effects, fd) + handed_over(
        m,
        reply,
        fd,
    )
}

proof fn lemma_exit_failed(m: CtxModel, fds: Seq<i32>, fd: i32)
    requires
        m.wf(),
        fd >= 0,
    ensures
        ({
            let (post, step) = crate::ffi::model::exit_failed(m, close_each(fds));
            held(m, fd) + count_in(fds, fd) == held(post, fd) + closes(step.effects, fd)
        }),
{
    lemma_closes_each(fds, fd);
    lemma_release_closes(m, fd);
    lemma_closes_concat(close_each(fds), release_effects(m), fd);
}

proof fn lemma_balanced_connect(m: CtxModel, reply: ReplyModel, fd: i32)
    requires
        m.wf(),
        m.awaits(reply),
        fd >= 0,
        m.phase is Connecting || m.phase is Hello || m.phase is ScreenInfo,
    ensures
        balanced(m, reply, fd),
{
    lemma_closes_one(m.ctrl_fd, fd);
    assert(closes(Seq::empty(), fd) == 0);
}

proof fn lemma_balanced_pickup(m: CtxModel, reply: ReplyModel, fd: i32)
    requires
        m.wf(),
        m.awaits(reply),
        fd >= 0,
        m.phase is PickupSend || m.phase is PickupPoll || m.phase is PickupRecv,
    ensures
        balanced(m, reply, fd),
{
    let no_fds: Seq<i32> = Seq::empty();
    assert(close_each(no_fds) == Seq::<Effect>::empty());
    assert(closes(Seq::empty(), fd) == 0);
    lemma_exit_failed(m, no_fds, fd);
    if let ReplyModel::Fds { count, bytes, fds } = reply {
        lemma_exit_failed(m, fds, fd);
        if fds.len() == 5 {
            lemma_five(fds, fd);
        }
    }
}

proof fn lemma_balanced_map(m: CtxModel, reply: ReplyModel, fd: i32)
    requires
        m.wf(),
        m.awaits(reply),
        fd >= 0,
        m.phase is PickupMap,
    ensures
        balanced(m, reply, fd),
{
    let no_fds: Seq<i32> = Seq::empty();
    assert(close_each(no_fds) == Seq::<Effect>::empty());
    assert(closes(Seq::empty(), fd) == 0);
    let rest = CtxModel { shm_mapped: false, ..m };
    lemma_exit_failed(rest, no_fds, fd);
}

proof fn lemma_balanced_bufs(m: CtxModel, reply: ReplyModel, fd: i32)
    requires
        m.wf(),
        m.awaits(reply),
        fd >= 0,
        m.phase is BufsPoll || m.phase is BufsRecv,
    ensures
        balanced(m, reply, fd),
{
    let no_fds: Seq<i32> = Seq::empty();
    assert(close_each(no_fds) == Seq::<Effect>::empty());
    assert(closes(Seq::empty(), fd) == 0);
    if let Phase::BufsPoll { origin } = m.phase {
        lemma_bufs_failed(m, origin, no_fds, fd);
    }
    if let Phase::BufsRecv { origin } = m.phase {
        if let ReplyModel::Fds { count, bytes, fds } = reply {
            lemma_bufs_failed(m, origin, fds, fd);
        }
    }
}

proof fn lemma_balanced_infos(m: CtxModel, reply: ReplyModel, fd: i32)
    requires
        m.wf(),
        m.awaits(reply),
        fd >= 0,
        m.phase is BufsInfos,
    ensures
        balanced(m, reply, fd),
{
    if let Phase::BufsInfos { origin, len } = m.phase {
        if let ReplyModel::Received(bytes) = reply {
            match bytes {
                Some(b) => {
                    lemma_closes_each(m.dmabuf_fds.take(m.buf_count), fd);
                    lemma_count_split(m.dmabuf_fds, m.buf_count, fd);
                    let installed = crate::ffi::model::bufs_installed(m, b).dmabuf_fds;
                    lemma_count_split(installed, m.incoming.len() as int, fd);
                    assert(installed.take(m.incoming.len() as int) =~= m.incoming);
                },
                None => {
                    let rest = CtxModel {
                        incoming: Seq::empty(),
                        phase: Phase::BufsRecv { origin },
                        ..m
                    };
                    lemma_bufs_failed(rest, origin, m.incoming, fd);
                    let fail = CtxModel { incoming: Seq::empty(), ..m };
                    assert(release_effects(rest) == release_effects(fail));
                    assert(held(rest, fd) == held(fail, fd));
                },
            }
        }
    }
}

proof fn lemma_balanced_polls(m: CtxModel, reply: ReplyModel, fd: i32)
    requires
        m.wf(),
        m.awaits(reply),
        fd >= 0,
        m.phase is InputPoll || m.phase is DataPoll || m.phase is FdsPoll || m.phase is Push,
    ensures
        balanced(m, reply, fd),
{
    assert(closes(Seq::empty(), fd) == 0);
    lemma_fallback_closes(m, fd);
}

proof fn lemma_balanced_extend_fds(m: CtxModel, reply: ReplyModel, fd: i32)
    requires
        m.wf(),
        m.awaits(reply),
        fd >= 0,
        !truncated_descriptors(m, reply),
        m.phase is FdsRecv,
    ensures
        balanced(m, reply, fd),
{
    assert(closes(Seq::empty(), fd) == 0);
    if let ReplyModel::Fds { count, bytes, fds } = reply {
        lemma_closes_all(fds, fd);
        assert(fds.len() == 0 ==> count_in(fds, fd) == 0);
    }
}

proof fn lemma_balanced_receipts(m: CtxModel, reply: ReplyModel, fd: i32)
    requires
        m.wf(),
        m.awaits(reply),
        fd >= 0,
        m.phase is InputPeek || m.phase is InputRecv || m.phase is DataRecv || m.phase is Fence,
    ensures
        balanced(m, reply, fd),
{
    assert(closes(Seq::empty(), fd) == 0);
    lemma_closes_one(m.pending_render_fence, fd);
}

/// Every descriptor has one owner: whatever reply comes, a descriptor that the context held or
/// that the reply brought is afterwards still held, or closed, or handed to the caller, exactly
/// as often as before. Nothing leaks and nothing is closed twice. The one exception is a
/// truncated message whose descriptors the caller asked for.
pub proof fn law_descriptors_have_one_owner(m: CtxModel, reply: ReplyModel, fd: i32)
    requires
        m.wf(),
        m.awaits(reply),
        fd >= 0,
        !truncated_descriptors(m, reply),
    ensures
        balanced(m, reply, fd),
{
    if m.phase is Connecting || m.phase is Hello || m.phase is ScreenInfo {
        lemma_balanced_connect(m, reply, fd);
    } else if m.phase is PickupSend || m.phase is PickupPoll || m.phase is PickupRecv {
        lemma_balanced_pickup(m, reply, fd);
    } else if m.phase is PickupMap {
        lemma_balanced_map(m, reply, fd);
    } else if m.phase is BufsPoll || m.phase is BufsRecv {
        lemma_balanced_bufs(m, reply, fd);
    } else if m.phase is BufsInfos {
        lemma_balanced_infos(m, reply, fd);
    } else if m.phase is FdsRecv {
        lemma_balanced_extend_fds(m, reply, fd);
    } else if m.phase is InputPoll || m.phase is DataPoll || m.phase is FdsPoll || m.phase is Push {
        lemma_balanced_polls(m, reply, fd);
    } else {
        lemma_balanced_receipts(m, reply, fd);
    }
}

/// Ending a session closes every descriptor that the context holds, each exactly once.
pub proof fn law_disconnect_closes_everything(m: CtxModel, fd: i32)
    requires
        m.wf(),
        m.phase == Phase::Idle,
        fd >= 0,
    ensures
        closes(release_effects(m) + close_one(m.ctrl_fd), fd) == held(m, fd),
{
    lemma_closes_concat(release_effects(m), close_one(m.ctrl_fd), fd);
    lemma_closes_one(m.ctrl_fd, fd);
    lemma_release_closes(m, fd);
    lemma_none_held(released(m).dmabuf_fds, fd);
}

/// A context leaves fallback only when the whole pickup succeeded: the exchange returns 0, the
/// shared index is mapped, and at least one buffer is there.
pub proof fn law_fallback_is_left_with_a_consumer(m: CtxModel, reply: ReplyModel)
    requires
        m.wf(),
        m.awaits(reply),
        m.fallback,
        !resumed(m, reply).0.fallback,
    ensures
        ({
            let (post, step) = resumed(m, reply);
            &&& step.next == RequestModel::Return { code: 0, event: None }
            &&& post.phase == Phase::Idle
            &&& post.shm_mapped
            &&& 1 <= post.buf_count
        }),
{
}

/// When an exchange fails while the context is in fallback, or loses the consumer, the context
/// is in fallback afterwards and holds nothing of a consumer.
pub proof fn law_failure_leaves_nothing_behind(m: CtxModel, reply: ReplyModel)
    requires
        m.wf(),
        m.awaits(reply),
        m.fallback || resumed(m, reply).0.fallback,
        resumed(m, reply).1.next matches RequestModel::Return { code, .. } && code < 0,
    ensures
        resumed(m, reply).0.fallback,
        resumed(m, reply).0.quiet(),
{
}

/// How many replies an exchange in this phase can still take.
pub open spec fn replies_left(phase: Phase) -> int {
    match phase {
        Phase::Idle => 0,
        Phase::Connecting => 3,
        Phase::Hello => 2,
        Phase::ScreenInfo => 1,
        Phase::PickupSend => 7,
        Phase::PickupPoll => 6,
        Phase::PickupRecv => 5,
        Phase::PickupMap => 4,
        Phase::BufsPoll { .. } => 3,
        Phase::BufsRecv { .. } => 2,
        Phase::BufsInfos { .. } => 1,
        Phase::InputPoll => 5,
        Phase::InputPeek => 4,
        Phase::InputRecv => 1,
        Phase::DataPoll { .. } => 2,
        Phase::DataRecv { .. } => 1,
        Phase::FdsPoll { .. } => 2,
        Phase::FdsRecv { .. } => 1,
        Phase::Push => 1,
        Phase::Fence => 1,
    }
}

/// Every exchange ends: each reply brings it at least one step closer to its return, and it
/// returns exactly when the context is idle again.
pub proof fn law_exchanges_end(m: CtxModel, reply: ReplyModel)
    requires
        m.wf(),
        m.awaits(reply),
    ensures
        replies_left(resumed(m, reply).0.phase) < replies_left(m.phase),
        resumed(m, reply).0.phase == Phase::Idle <==> resumed(m, reply).1.next is Return,
{
}

} // verus!
