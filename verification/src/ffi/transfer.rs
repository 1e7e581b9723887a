//! Moving a whole message through calls that may move only part of it.
use vstd::prelude::*;

verus! {

/// What one send or receive call did.
#[derive(Debug, Clone, Copy, PartialEq, Eq, Structural)]
pub enum IoOutcome {
    /// It moved this many bytes. No bytes at all means that the peer is gone.
    Moved(usize),
    /// A signal interrupted it before it moved anything.
    Interrupted,
    /// It failed.
    Failed,
}

/// Where a transfer stands.
#[derive(Debug, Clone, Copy, PartialEq, Eq, Structural)]
pub enum TransferStatus {
    /// Bytes are left: call again for the rest.
    Pending,
    /// Every byte was moved.
    Complete,
    /// The transfer is lost.
    Failed,
}

/// A transfer of `len` bytes, `off` of which have been moved.
#[derive(Debug, Clone, Copy, PartialEq, Eq, Structural)]
pub struct Transfer {
    pub off: usize,
    pub len: usize,
}

/// Where a transfer with `off` of `len` bytes moved stands after one more call.
pub open spec fn transfer_after(off: nat, len: nat, outcome: IoOutcome) -> (nat, TransferStatus) {
    match outcome {
        IoOutcome::Moved(n) => if n == 0 {
            (off, TransferStatus::Failed)
        } else if off + n < len {
            (off + n as nat, TransferStatus::Pending)
        } else {
            (off + n as nat, TransferStatus::Complete)
        },
        IoOutcome::Interrupted => (off, TransferStatus::Pending),
        IoOutcome::Failed => (off, TransferStatus::Failed),
    }
}

/// No call moves more than was left.
pub open spec fn outcome_fits(off: nat, len: nat, outcome: IoOutcome) -> bool {
    outcome matches IoOutcome::Moved(n) ==> off + n <= len
}

impl Transfer {
    /// Nothing more is moved than there is.
    pub open spec fn wf(self) -> bool {
        self.off <= self.len
    }

    /// A transfer of `len` bytes, and where it stands.
    pub fn begin(len: usize) -> (r: (Transfer, TransferStatus))
        ensures
            r.0.wf(),
            r.0 == (Transfer { off: 0, len }),
            r.1 == (if len == 0 { TransferStatus::Complete } else { TransferStatus::Pending }),
    {
        let status = if len == 0 { TransferStatus::Complete } else { TransferStatus::Pending };
        (Transfer { off: 0, len }, status)
    }

    /// Records one call.
    pub fn advance(&mut self, outcome: IoOutcome) -> (status: TransferStatus)
        requires
            old(self).off < old(self).len,
            outcome_fits(old(self).off as nat, old(self).len as nat, outcome),
        ensures
            final(self).wf(),
            final(self).len == old(self).len,
            (final(self).off as nat, status) == transfer_after(
                old(self).off as nat,
                old(self).len as nat,
                outcome,
            ),
    {
        match outcome {
            IoOutcome::Moved(n) => {
                if n == 0 {
                    TransferStatus::Failed
                } else {
                    self.off = self.off + n;
                    if self.off < self.len {
                        TransferStatus::Pending
                    } else {
                        TransferStatus::Complete
                    }
                }
            },
            IoOutcome::Interrupted => TransferStatus::Pending,
            IoOutcome::Failed => TransferStatus::Failed,
        }
    }
}

/// The bytes of `message` that the calls moved, one piece after another, when each call
/// starts where the one before it stopped.
pub open spec fn moved_bytes(message: Seq<u8>, off: nat, outcomes: Seq<IoOutcome>) -> Seq<u8>
    decreases outcomes.len(),
{
    if outcomes.len() == 0 {
        Seq::empty()
    } else {
        match outcomes.first() {
            IoOutcome::Moved(n) => message.subrange(off as int, off + n) + moved_bytes(
                message,
                off + n as nat,
                outcomes.drop_first(),
            ),
            _ => moved_bytes(message, off, outcomes.drop_first()),
        }
    }
}

/// Where a transfer stands after `outcomes`, each of which it asked for.
pub open spec fn transfer_run(off: nat, len: nat, outcomes: Seq<IoOutcome>) -> Option<
    (nat, TransferStatus),
>
    decreases outcomes.len(),
{
    if outcomes.len() == 0 {
        Some((off, if off < len { TransferStatus::Pending } else { TransferStatus::Complete }))
    } else if off >= len || !outcome_fits(off, len, outcomes.first()) {
        None
    } else {
        let (next, status) = transfer_after(off, len, outcomes.first());
        if status == TransferStatus::Failed {
            if outcomes.len() == 1 {
                Some((next, status))
            } else {
                None
            }
        } else {
            transfer_run(next, len, outcomes.drop_first())
        }
    }
}

/// A transfer that completes has moved the whole message, once and in order, however the
/// calls cut it up and however often they were interrupted.
pub proof fn law_complete_transfer_moves_the_message(message: Seq<u8>, outcomes: Seq<IoOutcome>)
    requires
        transfer_run(0, message.len(), outcomes) matches Some((_, TransferStatus::Complete)),
    ensures
        moved_bytes(message, 0, outcomes) == message,
{
    lemma_transfer_from(message, 0, outcomes);
    assert(message.subrange(0, message.len() as int) =~= message);
}

proof fn lemma_transfer_from(message: Seq<u8>, off: nat, outcomes: Seq<IoOutcome>)
    requires
        off <= message.len(),
        transfer_run(off, message.len(), outcomes) matches Some((_, TransferStatus::Complete)),
    ensures
        moved_bytes(message, off, outcomes) == message.subrange(off as int, message.len() as int),
    decreases outcomes.len(),
{
    if outcomes.len() == 0 {
        assert(message.subrange(off as int, message.len() as int) =~= Seq::empty());
    } else {
        let (next, status) = transfer_after(off, message.len(), outcomes.first());
        lemma_transfer_from(message, next, outcomes.drop_first());
        assert(message.subrange(off as int, message.len() as int) =~= message.subrange(
            off as int,
            next as int,
        ) + message.subrange(next as int, message.len() as int));
    }
}

/// What a call that passes descriptors returns.
pub open spec fn pass_code(moved: isize, data_len: usize) -> i32 {
    if moved == data_len {
        0i32
    } else {
        -1i32
    }
}

/// What a call that passes descriptors returns: it succeeds when it moved the whole message.
pub fn send_fds(moved: isize, data_len: usize) -> (code: i32)
    ensures
        code == pass_code(moved, data_len),
{
    if moved >= 0 && moved as usize == data_len {
        0
    } else {
        -1
    }
}

/// The control message that came with a datagram.
#[derive(Debug, Clone, Copy, PartialEq, Eq, Structural)]
pub struct ControlMessage {
    /// Whether it passes descriptors.
    pub rights: bool,
    /// Its length, header included.
    pub len: usize,
}

/// How many descriptors the first control message passes.
pub open spec fn passed(cmsg: Option<ControlMessage>, header_len: usize, limit: usize) -> int {
    match cmsg {
        Some(c) => if c.rights {
            let held = (c.len - header_len) / 4;
            if held > limit {
                limit as int
            } else {
                held
            }
        } else {
            0
        },
        None => 0,
    }
}

/// How many descriptors the first control message passes: as many as its length holds, but no
/// more than the caller has room for. A descriptor takes four bytes.
pub fn recv_fds(cmsg: Option<ControlMessage>, header_len: usize, limit: usize) -> (count: usize)
    requires
        cmsg matches Some(c) ==> (c.rights ==> header_len <= c.len),
    ensures
        count == passed(cmsg, header_len, limit),
{
    match cmsg {
        Some(c) => {
            if c.rights {
                let held: usize = (c.len - header_len) / 4;
                if held > limit {
                    limit
                } else {
                    held
                }
            } else {
                0
            }
        },
        None => 0,
    }
}

/// Bytes in the path field of a local socket address.
pub const SUN_PATH_BYTES: usize = 108;

/// The part of `path` that fits the address with a terminating zero.
pub open spec fn usable_path(path: Seq<u8>) -> Seq<u8> {
    path.take(
        if path.len() < SUN_PATH_BYTES - 1 {
            path.len() as int
        } else {
            SUN_PATH_BYTES - 1
        },
    )
}

/// The part of `path` that fits the address with a terminating zero.
pub fn connect_unix(path: &[u8]) -> (used: Vec<u8>)
    ensures
        used@ == usable_path(path@),
{
    let cap: usize = SUN_PATH_BYTES - 1;
    let len: usize = if path.len() < cap {
        path.len()
    } else {
        cap
    };
    let mut used: Vec<u8> = Vec::new();
    let mut i: usize = 0;
    while i < len
        invariant
            i <= len <= path@.len(),
            used@ == path@.take(i as int),
        decreases len - i,
    {
        used.push(path[i]);
        i += 1;
        assert(path@.take(i as int) =~= path@.take(i - 1).push(path@[i - 1]));
    }
    used
}

/// A transfer goes on until the last byte: each call moves it on by what it moved, an interrupted
/// one does not count, and with the last byte it is complete. A peer that is gone ends it.
pub proof fn law_transfers_go_on(off: nat, len: nat, n: usize)
    requires
        off < len,
    ensures
        n > 0 && off + n < len ==> transfer_after(off, len, IoOutcome::Moved(n)) == (
            (off + n) as nat,
            TransferStatus::Pending,
        ),
        n > 0 && off + n == len ==> transfer_after(off, len, IoOutcome::Moved(n)) == (
            len,
            TransferStatus::Complete,
        ),
        transfer_after(off, len, IoOutcome::Moved(0)).1 is Failed,
        transfer_after(off, len, IoOutcome::Interrupted) == (off, TransferStatus::Pending),
        transfer_after(off, len, IoOutcome::Failed).1 is Failed,
{
}

/// A message that passes descriptors went out only if all of it did.
pub proof fn law_passing_descriptors(moved: isize, len: usize)
    ensures
        moved == len ==> pass_code(moved, len) == 0,
        moved != len ==> pass_code(moved, len) == -1,
{
}

/// A control message that passes descriptors passes one for every four bytes; as many are taken as
/// there is room for.
pub proof fn law_passed_descriptors(n: nat, header_len: usize, limit: usize)
    requires
        header_len + 4 * n <= usize::MAX,
    ensures
        ({
            let c = ControlMessage { rights: true, len: (header_len + 4 * n) as usize };
            let other = ControlMessage { rights: false, ..c };
            &&& n <= limit ==> passed(Some(c), header_len, limit) == n
            &&& n > limit ==> passed(Some(c), header_len, limit) == limit
            &&& passed(Some(other), header_len, limit) == 0
        }),
        passed(None, header_len, limit) == 0,
{
}

/// A path is used as it is if it fits 108 bytes with a zero after it, and else as far as it does.
pub proof fn law_paths(path: Seq<u8>)
    ensures
        path.len() <= 107 ==> usable_path(path) == path,
        path.len() > 107 ==> usable_path(path).len() == 107,
        forall|i: int| 0 <= i < usable_path(path).len() ==> #[trigger] usable_path(path)[i] == path[i],
{
    assert(path.len() <= 107 ==> usable_path(path) =~= path);
}

} // verus!
