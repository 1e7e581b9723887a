//! What whole exchanges are for: what the other side is sent, word for word, and what comes of
//! what it answers.
use vstd::prelude::*;

use crate::bytes::{le32, lemma_words_at, words_bytes};
use crate::ffi::context::resources_request_words;
use crate::ffi::message_laws::{
    law_buffers_round_trip, law_headers_are_type_and_size, law_input_events_round_trip,
    law_screens_round_trip, lemma_frame,
};
use crate::ffi::model::{
    close_each, close_one, exiting_fallback, fallback_effects, fell_back, fresh, notify_effects,
    refreshing, release_effects, resumed, unmap_effects, with_consumer, CtxModel, Effect, Phase,
    ReplyModel, RequestModel, StepModel,
};
use crate::ffi::protocol::{
    buf_info, buf_info_at, header_at, output_frame, InputEvent, InputEventData,
};

verus! {

/// The exchange is over and returned this.
pub open spec fn ends_with(step: StepModel, code: int) -> bool {
    step.next matches RequestModel::Return { code: c, event } && c == code && event is None
}

/// Two numbers as the bytes of a header.
pub open spec fn head(type_: u32, size: u32) -> Seq<u8> {
    words_bytes(seq![type_, size])
}

/// Whoever connects greets the daemon and learns the screen that it announces: the width, the
/// height, the format and the refresh rate.
pub proof fn law_connecting_learns_the_screen(
    fd: i32,
    width: u32,
    height: u32,
    format: u32,
    refresh: u32,
)
    requires
        fd >= 0,
    ensures
        ({
            let m = CtxModel { phase: Phase::Connecting, ..fresh() };
            let (m1, greeting) = resumed(m, ReplyModel::Connected(fd));
            let (m2, asking) = resumed(m1, ReplyModel::Sent(true));
            let answer = head(7, 16) + words_bytes(seq![width, height, format, refresh]);
            let (m3, end) = resumed(m2, ReplyModel::Received(Some(answer)));
            &&& greeting.next == RequestModel::SendAll { fd, bytes: head(2, 0) }
            &&& asking.next == RequestModel::RecvAll { fd, len: 24 }
            &&& ends_with(end, 0)
            &&& greeting.effects.len() == 0 && asking.effects.len() == 0 && end.effects.len() == 0
            &&& m3.screen_w == width && m3.screen_h == height
            &&& m3.pixel_format == format && m3.refresh == refresh
            &&& m3.ctrl_fd == fd && m3.fallback && m3.phase == Phase::Idle
        }),
{
    law_headers_are_type_and_size(2, 0, Seq::empty());
    law_headers_are_type_and_size(
        7,
        16,
        words_bytes(seq![width, height, format, refresh]),
    );
    lemma_head_len(7, 16);
    law_screens_round_trip(head(7, 16), width, height, format, refresh);
}

proof fn lemma_head_len(type_: u32, size: u32)
    ensures
        head(type_, size).len() == 8,
        header_at(head(type_, size)).type_ == type_,
        header_at(head(type_, size)).size == size,
{
    lemma_words_at(seq![type_, size], 0);
    law_headers_are_type_and_size(type_, size, Seq::empty());
    assert(head(type_, size) + Seq::<u8>::empty() =~= head(type_, size));
}

/// Connecting fails without a socket, without a greeting that went out, and without an answer that
/// announces a screen; the socket is closed then.
pub proof fn law_connecting_fails_otherwise(m: CtxModel, fd: i32, answer: Option<Seq<u8>>)
    requires
        m.wf(),
    ensures
        m.phase == Phase::Connecting && fd < 0 ==> ({
            let (after, step) = resumed(m, ReplyModel::Connected(fd));
            ends_with(step, -1) && step.effects.len() == 0 && after.ctrl_fd < 0
        }),
        m.phase == Phase::Hello && m.ctrl_fd >= 0 ==> ({
            let (after, step) = resumed(m, ReplyModel::Sent(false));
            ends_with(step, -1) && step.effects == seq![Effect::Close(m.ctrl_fd)] && after.ctrl_fd < 0
        }),
        m.phase == Phase::ScreenInfo && m.ctrl_fd >= 0 && (answer matches Some(b) ==> b.len() == 24
            && (le32(b, 0) != 7 || le32(b, 4) != 16)) ==> ({
            let (after, step) = resumed(m, ReplyModel::Received(answer));
            &&& ends_with(step, -1) && step.effects == seq![Effect::Close(m.ctrl_fd)]
            &&& after.ctrl_fd < 0
            &&& (after.screen_w, after.screen_h) == (m.screen_w, m.screen_h)
        }),
{
}

/// The words of a buffer.
pub open spec fn buffer_words(info: buf_info) -> Seq<u32> {
    seq![
        info.stride,
        info.width,
        info.height,
        info.format,
        (info.modifier % 0x1_0000_0000) as u32,
        (info.modifier / 0x1_0000_0000) as u32,
        info.offset,
    ]
}

/// The bytes of some buffers, one after the other.
pub open spec fn buffers_bytes(infos: Seq<buf_info>) -> Seq<u8>
    decreases infos.len(),
{
    if infos.len() == 0 {
        Seq::empty()
    } else {
        buffers_bytes(infos.drop_last()) + words_bytes(buffer_words(infos.last()))
    }
}

proof fn lemma_buffers_len(infos: Seq<buf_info>)
    ensures
        buffers_bytes(infos).len() == 28 * infos.len(),
    decreases infos.len(),
{
    if infos.len() > 0 {
        lemma_buffers_len(infos.drop_last());
        lemma_words_at(buffer_words(infos.last()), 0);
    }
}

proof fn lemma_buffer_inside(infos: Seq<buf_info>, rest: Seq<u8>, i: int)
    requires
        0 <= i < infos.len(),
    ensures
        buffers_bytes(infos).len() == 28 * infos.len(),
        buf_info_at(buffers_bytes(infos) + rest, i * 28) == infos[i],
    decreases infos.len(),
{
    lemma_buffers_len(infos);
    let init = infos.drop_last();
    lemma_buffers_len(init);
    let last = words_bytes(buffer_words(infos.last()));
    assert(buffers_bytes(infos) + rest =~= buffers_bytes(init) + (last + rest));
    if i < init.len() {
        lemma_buffer_inside(init, last + rest, i);
    } else {
        let info = infos.last();
        let low = (info.modifier % 0x1_0000_0000) as u32;
        let high = (info.modifier / 0x1_0000_0000) as u32;
        assert(info.modifier / 0x1_0000_0000 <= u32::MAX);
        law_buffers_round_trip(
            buffers_bytes(init),
            info.stride,
            info.width,
            info.height,
            info.format,
            low,
            high,
            info.offset,
            rest,
        );
    }
}

/// A pickup greets the daemon, takes the five descriptors of the consumer, each for its own
/// purpose, maps the index and waits on the consumer's data socket for its buffers.
pub proof fn law_a_pickup_takes_the_consumer_over(
    m: CtxModel,
    size: u32,
    count: int,
    fds: Seq<i32>,
)
    requires
        m.wf(),
        m.phase == Phase::Idle,
        m.fallback,
        fds.len() == 5,
        count > 0,
    ensures
        ({
            let (m1, asking) = exiting_fallback(m);
            let (m2, waiting) = resumed(m1, ReplyModel::Sent(true));
            let (m3, taking) = resumed(m2, ReplyModel::Polled { ready: true, broken: false });
            let (m4, mapping) = resumed(
                m3,
                ReplyModel::Fds { count, bytes: head(10, size), fds },
            );
            let (m5, listening) = resumed(m4, ReplyModel::Mapped(true));
            let (m6, receiving) = resumed(m5, ReplyModel::Polled { ready: true, broken: false });
            &&& asking.next == RequestModel::SendAll { fd: m.ctrl_fd, bytes: head(9, 0) }
            &&& waiting.next == RequestModel::Poll {
                fd: m.ctrl_fd,
                timeout_ms: 100,
                watch_hangup: false,
            }
            &&& taking.next == RequestModel::RecvFds { fd: m.ctrl_fd, len: 8, limit: 5 }
            &&& m4.buf_ready_efd == fds[0] && m4.fence_fd == fds[1] && m4.data_fd == fds[2]
            &&& m4.shm_fd == fds[3] && m4.audio_fd == fds[4]
            &&& mapping.next == RequestModel::MapIndex { fd: fds[3] }
            &&& m5.shm_mapped && m5.fallback
            &&& listening.next == RequestModel::Poll {
                fd: fds[2],
                timeout_ms: 100,
                watch_hangup: true,
            }
            &&& receiving.next == RequestModel::RecvFds { fd: fds[2], len: 8, limit: 8 }
            &&& m6.buf_ready_efd == fds[0] && m6.fence_fd == fds[1] && m6.data_fd == fds[2]
            &&& m6.shm_fd == fds[3] && m6.audio_fd == fds[4] && m6.ctrl_fd == m.ctrl_fd
            &&& m6.shm_mapped && m6.fallback && m6.phase is BufsRecv
        }),
{
    law_headers_are_type_and_size(9, 0, Seq::empty());
    lemma_head_len(10, size);
}

/// The consumer's buffers take the place of those that were there, which are closed: each
/// descriptor with the description at the same place. A pickup is complete with that, and the
/// consumer is there; input is told that the buffers are new.
pub proof fn law_buffers_are_installed_in_order(
    m: CtxModel,
    count: int,
    size: u32,
    fds: Seq<i32>,
    infos: Seq<buf_info>,
    rest: Seq<u8>,
)
    requires
        m.wf(),
        m.phase is BufsRecv,
        1 <= fds.len() <= 8,
        infos.len() == fds.len(),
        count >= 8,
        size == 28 * infos.len() + rest.len(),
        rest.len() < 28,
    ensures
        ({
            let (m1, asking) = resumed(
                m,
                ReplyModel::Fds { count, bytes: head(200, size), fds },
            );
            let (m2, end) = resumed(
                m1,
                ReplyModel::Received(Some(buffers_bytes(infos) + rest)),
            );
            &&& asking.next == RequestModel::RecvAll { fd: m.data_fd, len: size as int }
            &&& asking.effects.len() == 0
            &&& m2.buf_count == fds.len()
            &&& forall|i: int| 0 <= i < fds.len() ==> #[trigger] m2.dmabuf_fds[i] == fds[i]
            &&& forall|i: int| 0 <= i < fds.len() ==> #[trigger] m2.dmabuf_infos[i] == infos[i]
            &&& !m2.fallback
            &&& ends_with(
                end,
                if m.fallback {
                    0
                } else {
                    -2
                },
            )
            &&& end.effects == close_each(m.dmabuf_fds.take(m.buf_count))
            &&& m2.data_fd == m.data_fd && m2.buf_ready_efd == m.buf_ready_efd
            &&& m2.fence_fd == m.fence_fd && m2.shm_fd == m.shm_fd && m2.audio_fd == m.audio_fd
            &&& m2.ctrl_fd == m.ctrl_fd && m2.shm_mapped == m.shm_mapped
        }),
{
    lemma_head_len(200, size);
    lemma_buffers_len(infos);
    assert(size as int / 28 == fds.len());
    let bytes = buffers_bytes(infos) + rest;
    let (m1, _) = resumed(m, ReplyModel::Fds { count, bytes: head(200, size), fds });
    let (m2, _) = resumed(m1, ReplyModel::Received(Some(bytes)));
    assert forall|i: int| 0 <= i < fds.len() implies #[trigger] m2.dmabuf_infos[i] == infos[i] by {
        lemma_buffer_inside(infos, rest, i);
    }
}

/// Closing some descriptors closes each of them, in order.
pub proof fn law_each_is_closed(fds: Seq<i32>)
    requires
        forall|i: int| 0 <= i < fds.len() ==> fds[i] >= 0,
    ensures
        close_each(fds) == Seq::new(fds.len(), |i: int| Effect::Close(fds[i])),
    decreases fds.len(),
{
    if fds.len() > 0 {
        law_each_is_closed(fds.drop_last());
    }
    assert(close_each(fds) =~= Seq::new(fds.len(), |i: int| Effect::Close(fds[i])));
}

/// Anything else than five descriptors and as many buffers as descriptions is no consumer.
pub proof fn law_an_incomplete_consumer_is_refused(
    m: CtxModel,
    count: int,
    bytes: Seq<u8>,
    fds: Seq<i32>,
    broken: bool,
)
    requires
        m.wf(),
        bytes.len() == 8,
    ensures
        m.phase is PickupRecv && (count <= 0 || le32(bytes, 0) != 10 || fds.len() < 5) ==> ({
            let (after, step) = resumed(m, ReplyModel::Fds { count, bytes, fds });
            ends_with(step, -1) && after.fallback && after.quiet()
        }),
        m.phase is BufsRecv && (count < 8 || fds.len() == 0 || le32(bytes, 0) != 200 || le32(
            bytes,
            4,
        ) / 28 != fds.len()) ==> ({
            let (after, step) = resumed(m, ReplyModel::Fds { count, bytes, fds });
            ends_with(step, -1) && after.fallback && after.quiet()
        }),
        m.phase is BufsInfos ==> ({
            let (after, step) = resumed(m, ReplyModel::Received(None));
            ends_with(step, -1) && after.fallback && after.quiet()
        }),
        m.phase is PickupMap ==> ({
            let (after, step) = resumed(m, ReplyModel::Mapped(false));
            ends_with(step, -1) && after.fallback && after.quiet()
        }),
        m.phase is PickupSend ==> ends_with(resumed(m, ReplyModel::Sent(false)).1, -1),
        m.phase is PickupPoll ==> ends_with(
            resumed(m, ReplyModel::Polled { ready: false, broken }).1,
            -1,
        ),
        m.phase is BufsPoll ==> ({
            let (after, step) = resumed(m, ReplyModel::Polled { ready: false, broken });
            ends_with(step, -1) && after.fallback && after.quiet()
        }),
{
}

/// Input comes through unchanged: an event that the consumer sends is what polling for input
/// returns, its type and its four words in order.
pub proof fn law_input_comes_through_unchanged(
    m: CtxModel,
    timeout_ms: i32,
    count: int,
    size: u32,
    type_: u32,
    w0: u32,
    w1: u32,
    w2: u32,
    w3: u32,
)
    requires
        m.wf(),
        m.phase == Phase::Idle,
        !m.fallback,
        count >= 8,
    ensures
        ({
            let message = head(102, size) + words_bytes(seq![type_, w0, w1, w2, w3]);
            let (m1, polling) = with_consumer(
                m,
                Phase::InputPoll,
                RequestModel::Poll { fd: m.data_fd, timeout_ms, watch_hangup: false },
            );
            let (m2, looking) = resumed(m1, ReplyModel::Polled { ready: true, broken: false });
            let (m3, taking) = resumed(m2, ReplyModel::Peeked { count, bytes: message });
            let (m4, end) = resumed(m3, ReplyModel::Received(Some(message)));
            &&& polling.next == RequestModel::Poll {
                fd: m.data_fd,
                timeout_ms,
                watch_hangup: false,
            }
            &&& looking.next == RequestModel::Peek { fd: m.data_fd, len: 28 }
            &&& taking.next == RequestModel::RecvAll { fd: m.data_fd, len: 28 }
            &&& end.next == RequestModel::Return {
                code: 1,
                event: Some(InputEvent { type_, data: InputEventData { w0, w1, w2, w3 } }),
            }
            &&& m4 == m && end.effects.len() == 0
        }),
{
    let words = seq![type_, w0, w1, w2, w3];
    lemma_head_len(102, size);
    law_headers_are_type_and_size(102, size, words_bytes(words));
    law_input_events_round_trip(head(102, size), type_, w0, w1, w2, w3, Seq::empty());
    assert(head(102, size) + words_bytes(words) + Seq::<u8>::empty() =~= head(102, size)
        + words_bytes(words));
}

/// Without input nothing happens, and with a connection that broke the consumer is lost. New
/// buffers are received before anything else, and what is neither they nor an event is left alone.
pub proof fn law_input_is_told_apart(m: CtxModel, count: int, bytes: Seq<u8>, broken: bool)
    requires
        m.wf(),
        bytes.len() == 28,
    ensures
        m.phase is InputPoll || m.phase is DataPoll || m.phase is FdsPoll ==> ({
            let (after, step) = resumed(m, ReplyModel::Polled { ready: false, broken });
            &&& ends_with(step, 0) && step.effects.len() == 0
            &&& after == (CtxModel { phase: Phase::Idle, ..m })
        }),
        m.phase is InputPoll || m.phase is DataPoll || m.phase is FdsPoll ==> ({
            let (after, step) = resumed(m, ReplyModel::Polled { ready: true, broken: true });
            ends_with(step, -1) && after.fallback && after.quiet()
        }),
        m.phase is InputPeek && count >= 8 && le32(bytes, 0) == 200 ==> ({
            let (after, step) = resumed(m, ReplyModel::Peeked { count, bytes });
            &&& step.next == RequestModel::Poll {
                fd: m.data_fd,
                timeout_ms: 100,
                watch_hangup: true,
            }
            &&& after.phase is BufsPoll
        }),
        m.phase is InputPeek && (count < 8 || le32(bytes, 0) != 200 && le32(bytes, 0) != 102)
            ==> ({
            let (after, step) = resumed(m, ReplyModel::Peeked { count, bytes });
            &&& ends_with(step, 0) && step.effects.len() == 0
            &&& after == (CtxModel { phase: Phase::Idle, ..m })
        }),
        m.phase is InputRecv ==> ends_with(resumed(m, ReplyModel::Received(None)).1, -1),
{
}

/// A payload is asked for with its whole length on the data socket, and counts only if all of it
/// came. Descriptors are asked for up to a limit; their number is returned, if they came with the
/// right message, and otherwise they are closed.
pub proof fn law_what_follows_an_event(
    m: CtxModel,
    bytes: Option<Seq<u8>>,
    count: int,
    header: Seq<u8>,
    fds: Seq<i32>,
)
    requires
        m.wf(),
        header.len() == 8,
        fds.len() <= 1000,
    ensures
        m.phase matches Phase::DataPoll { size } ==> resumed(
            m,
            ReplyModel::Polled { ready: true, broken: false },
        ).1.next == (RequestModel::RecvAll { fd: m.data_fd, len: size as int }),
        m.phase is DataRecv ==> ends_with(
            resumed(m, ReplyModel::Received(bytes)).1,
            if bytes is Some {
                1
            } else {
                -1
            },
        ),
        m.phase matches Phase::FdsPoll { limit } ==> resumed(
            m,
            ReplyModel::Polled { ready: true, broken: false },
        ).1.next == (RequestModel::RecvFds { fd: m.data_fd, len: 8, limit: limit as int }),
        m.phase is FdsRecv && count >= 8 && fds.len() > 0 ==> ({
            let step = resumed(m, ReplyModel::Fds { count, bytes: header, fds }).1;
            if le32(header, 0) == 104 {
                ends_with(step, fds.len() as int) && step.effects.len() == 0
            } else {
                &&& ends_with(step, -1)
                &&& step.effects.len() == fds.len()
                &&& forall|i: int|
                    0 <= i < fds.len() ==> #[trigger] step.effects[i] == Effect::Close(fds[i])
            }
        }),
        m.phase is FdsRecv && (count < 8 || fds.len() == 0) ==> ends_with(
            resumed(m, ReplyModel::Fds { count, bytes: header, fds }).1,
            -1,
        ),
{
}

/// A service is asked for by its number, with its arguments or zeros.
pub proof fn law_services_are_asked_for(service: u32, args: Option<[u32; 3]>)
    ensures
        ({
            let m = output_frame(resources_request_words(service, args), Seq::empty());
            &&& m.len() == 28
            &&& le32(m, 0) == 103 && le32(m, 4) == 20
            &&& le32(m, 8) == 2 && le32(m, 12) == service
            &&& args matches Some(a) ==> le32(m, 16) == a[0] && le32(m, 20) == a[1] && le32(m, 24)
                == a[2]
            &&& args is None ==> le32(m, 16) == 0 && le32(m, 20) == 0 && le32(m, 24) == 0
        }),
{
    lemma_frame(resources_request_words(service, args), Seq::empty());
}

/// What is sent to a consumer that is there goes to its data socket; without one nothing is sent.
/// A consumer that cannot be reached is lost.
pub proof fn law_messages_go_to_the_consumer(m: CtxModel, bytes: Seq<u8>)
    requires
        m.wf(),
        m.phase == Phase::Idle,
    ensures
        ({
            let (m1, step) = with_consumer(
                m,
                Phase::Push,
                RequestModel::SendAll { fd: m.data_fd, bytes },
            );
            if m.fallback {
                ends_with(step, 0) && step.effects.len() == 0 && m1 == m
            } else {
                &&& step.next == RequestModel::SendAll { fd: m.data_fd, bytes }
                &&& ends_with(resumed(m1, ReplyModel::Sent(true)).1, 0)
                &&& resumed(m1, ReplyModel::Sent(true)).0 == m
                &&& ends_with(resumed(m1, ReplyModel::Sent(false)).1, -1)
                &&& resumed(m1, ReplyModel::Sent(false)).0.fallback
                &&& resumed(m1, ReplyModel::Sent(false)).0.quiet()
            }
        }),
{
}

/// How often the callback is called.
pub open spec fn calls(effects: Seq<Effect>) -> nat
    decreases effects.len(),
{
    if effects.len() == 0 {
        0
    } else {
        calls(effects.drop_last()) + if effects.last() is Notify {
            1nat
        } else {
            0
        }
    }
}

proof fn lemma_calls(a: Seq<Effect>, b: Seq<Effect>)
    ensures
        calls(a + b) == calls(a) + calls(b),
    decreases b.len(),
{
    if b.len() == 0 {
        assert(a + b =~= a);
    } else {
        lemma_calls(a, b.drop_last());
        assert((a + b).drop_last() =~= a + b.drop_last());
    }
}

proof fn lemma_closing_calls_nobody(fds: Seq<i32>)
    ensures
        calls(close_each(fds)) == 0,
    decreases fds.len(),
{
    reveal_with_fuel(calls, 3);
    if fds.len() > 0 {
        lemma_closing_calls_nobody(fds.drop_last());
        lemma_calls(close_each(fds.drop_last()), close_one(fds.last()));
    }
}

/// Whoever asked to be told of it is called once, last and with what belongs to the call, when the
/// consumer is lost, and not again while it is gone.
pub proof fn law_losing_the_consumer_is_told_once(m: CtxModel)
    requires
        m.wf(),
    ensures
        fell_back(m).fallback,
        fell_back(fell_back(m)) == fell_back(m),
        fallback_effects(fell_back(m)).len() == 0,
        !m.fallback && m.fallback_cb is Some ==> {
            &&& calls(fallback_effects(m)) == 1
            &&& fallback_effects(m).last() == (Effect::Notify {
                callback: m.fallback_cb->0,
                userdata: m.fallback_userdata,
            })
        },
        m.fallback || m.fallback_cb is None ==> calls(fallback_effects(m)) == 0,
{
    reveal_with_fuel(calls, 3);
    if !m.fallback {
        let fds = m.dmabuf_fds.take(m.buf_count);
        lemma_closing_calls_nobody(fds);
        let s1 = close_each(fds);
        let s2 = s1 + close_one(m.data_fd);
        lemma_calls(s1, close_one(m.data_fd));
        let s3 = s2 + close_one(m.buf_ready_efd);
        lemma_calls(s2, close_one(m.buf_ready_efd));
        let s4 = s3 + close_one(m.fence_fd);
        lemma_calls(s3, close_one(m.fence_fd));
        let s5 = s4 + close_one(m.audio_fd);
        lemma_calls(s4, close_one(m.audio_fd));
        let s6 = s5 + close_one(m.pending_render_fence);
        lemma_calls(s5, close_one(m.pending_render_fence));
        let s7 = s6 + unmap_effects(m);
        lemma_calls(s6, unmap_effects(m));
        lemma_calls(s7, close_one(m.shm_fd));
        lemma_calls(
            release_effects(m),
            notify_effects(m),
        );
    }
}

/// A fence that is set goes to the consumer with the next refresh and is closed after it, whether
/// it went out or not. Without a consumer it is closed at once.
pub proof fn law_fences_are_handed_over(m: CtxModel, sent: bool)
    requires
        m.wf(),
        m.phase == Phase::Idle,
    ensures
        ({
            let (m1, step) = refreshing(m);
            if m.fallback {
                &&& ends_with(step, 0) && m1.pending_render_fence < 0
                &&& m.pending_render_fence >= 0 ==> step.effects == seq![
                    Effect::Close(m.pending_render_fence),
                ]
            } else {
                let (m2, end) = resumed(m1, ReplyModel::Sent(sent));
                &&& step.next matches RequestModel::SendFence { fd, fence } && fd == m.fence_fd && (
                if m.pending_render_fence >= 0 {
                    fence == Some(m.pending_render_fence)
                } else {
                    fence is None
                })
                &&& step.effects.len() == 0
                &&& ends_with(end, 0) && m2.pending_render_fence < 0 && !m2.fallback
                &&& m.pending_render_fence >= 0 ==> end.effects == seq![
                    Effect::Close(m.pending_render_fence),
                ]
                &&& m.pending_render_fence < 0 ==> end.effects.len() == 0
            }
        }),
{
}

/// What belongs to the daemon: its socket, its screen, and who is called when the consumer goes.
pub open spec fn same_daemon(a: CtxModel, b: CtxModel) -> bool {
    &&& a.ctrl_fd == b.ctrl_fd
    &&& a.screen_w == b.screen_w && a.screen_h == b.screen_h
    &&& a.pixel_format == b.pixel_format && a.refresh == b.refresh
    &&& a.fallback_cb == b.fallback_cb && a.fallback_userdata == b.fallback_userdata
}

/// Consumers come and go, and the daemon stays: once connected, no exchange changes what is known
/// of it, and a consumer that is lost leaves it as it was.
pub proof fn law_the_daemon_stays(m: CtxModel, reply: ReplyModel)
    requires
        m.wf(),
        m.awaits(reply),
        !(m.phase is Connecting || m.phase is Hello || m.phase is ScreenInfo),
    ensures
        same_daemon(resumed(m, reply).0, m),
        same_daemon(fell_back(m), m),
        same_daemon(exiting_fallback(m).0, m),
        same_daemon(refreshing(m).0, m),
{
}

/// While the consumer stays, so does what belongs to it: neither input nor what is sent to it
/// changes its sockets, and its buffers only change when it replaces them.
pub proof fn law_the_consumer_keeps_its_sockets(m: CtxModel, reply: ReplyModel)
    requires
        m.wf(),
        m.awaits(reply),
        !m.fallback,
        !resumed(m, reply).0.fallback,
    ensures
        ({
            let (after, step) = resumed(m, reply);
            &&& after.data_fd == m.data_fd && after.buf_ready_efd == m.buf_ready_efd
            &&& after.fence_fd == m.fence_fd && after.shm_fd == m.shm_fd
            &&& after.audio_fd == m.audio_fd && after.shm_mapped == m.shm_mapped
            &&& !(m.phase is Fence) ==> after.pending_render_fence == m.pending_render_fence
            &&& !(m.phase is BufsInfos) ==> {
                &&& after.buf_count == m.buf_count
                &&& after.dmabuf_fds == m.dmabuf_fds && after.dmabuf_infos == m.dmabuf_infos
            }
        }),
{
}

} // verus!
