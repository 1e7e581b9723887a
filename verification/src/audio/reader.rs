//! The thread that reads the consumer's audio socket.
use vstd::prelude::*;

use crate::audio::datagram::{parse_audio_datagram, Datagram, FormatAnnouncement};
#[allow(unused_imports)]
use crate::audio::datagram::{
    announcement_in, datagram_parts, AUDIO_MSG_FORMAT, AUDIO_MSG_PCM,
};
use crate::audio::ring::CaptureBuffer;
#[allow(unused_imports)]
use crate::audio::ring::{latest, whole_frames, Captured};
use crate::poll::PollOutcome;

verus! {

/// How receiving a datagram ended.
#[derive(Debug, Clone, Copy, PartialEq, Eq, Structural)]
pub enum ReceiveOutcome {
    /// The length of the datagram, which may be more than there was room for.
    Received(usize),
    Interrupted,
    WouldBlock,
    Failed,
}

/// What the reader does next.
#[derive(Debug, Clone, Copy, PartialEq, Eq, Structural)]
pub enum ReaderAction {
    /// Wait for a call or for input.
    Poll,
    /// Take in all calls.
    DrainWake,
    /// Receive a datagram, without waiting.
    Receive,
    /// Hand the announcement to the worker.
    Announce(FormatAnnouncement),
    /// Wait a moment for the worker to say that the announcement is applied.
    AwaitApplied,
    /// Tell the worker that the reader ended, and end.
    ReportClosed,
}

/// What the reader still knows of the last wait.
#[derive(Debug, Clone, Copy, PartialEq, Eq, Structural)]
pub struct Reader {
    pub input: bool,
    pub hangup: bool,
}

impl Reader {
    /// Waits again, unless told to stop.
    pub open spec fn waiting(stop: bool) -> ReaderAction {
        if stop {
            ReaderAction::ReportClosed
        } else {
            ReaderAction::Poll
        }
    }

    /// There is nothing more to receive for now.
    pub open spec fn drained(self, stop: bool) -> ReaderAction {
        if self.hangup {
            ReaderAction::ReportClosed
        } else {
            Self::waiting(stop)
        }
    }

    /// Receives, unless told to stop.
    pub open spec fn receiving(self, stop: bool) -> ReaderAction {
        if stop {
            self.drained(stop)
        } else {
            ReaderAction::Receive
        }
    }

    /// Receives if there was input.
    pub open spec fn reading(self, stop: bool) -> ReaderAction {
        if self.input {
            self.receiving(stop)
        } else {
            self.drained(stop)
        }
    }

    /// What follows a wait.
    pub open spec fn after_poll(self, outcome: PollOutcome, stop: bool) -> (Reader, ReaderAction) {
        match outcome {
            PollOutcome::Interrupted => (self, Self::waiting(stop)),
            PollOutcome::Failed => (self, ReaderAction::ReportClosed),
            PollOutcome::Ready { wake, input, hangup } => {
                let next = Reader { input, hangup };
                (
                    next,
                    if wake {
                        ReaderAction::DrainWake
                    } else {
                        next.reading(stop)
                    },
                )
            },
        }
    }

    /// What follows calls.
    pub open spec fn after_calls(self, stop: bool) -> ReaderAction {
        if stop {
            ReaderAction::ReportClosed
        } else {
            self.reading(stop)
        }
    }

    /// What follows an announcement that was handed to the worker, or could not be.
    pub open spec fn after_announcing(self, sent: bool, stop: bool) -> ReaderAction {
        if sent && !stop {
            ReaderAction::AwaitApplied
        } else {
            self.receiving(stop)
        }
    }

    /// What follows a wait for the worker.
    pub open spec fn after_applying(self, settled: bool, stop: bool) -> ReaderAction {
        if !settled && !stop {
            ReaderAction::AwaitApplied
        } else {
            self.receiving(stop)
        }
    }

    /// A reader that has not waited yet, and its first action.
    pub fn start(stop: bool) -> (r: (Reader, ReaderAction))
        ensures
            r.0 == (Reader { input: false, hangup: false }),
            r.1 == Self::waiting(stop),
    {
        let action = if stop {
            ReaderAction::ReportClosed
        } else {
            ReaderAction::Poll
        };
        (Reader { input: false, hangup: false }, action)
    }

    fn drain(&self, stop: bool) -> (action: ReaderAction)
        ensures
            action == self.drained(stop),
    {
        if self.hangup || stop {
            ReaderAction::ReportClosed
        } else {
            ReaderAction::Poll
        }
    }

    fn receive(&self, stop: bool) -> (action: ReaderAction)
        ensures
            action == self.receiving(stop),
    {
        if stop {
            self.drain(stop)
        } else {
            ReaderAction::Receive
        }
    }

    fn read(&self, stop: bool) -> (action: ReaderAction)
        ensures
            action == self.reading(stop),
    {
        if self.input {
            self.receive(stop)
        } else {
            self.drain(stop)
        }
    }

    /// Takes how waiting ended.
    pub fn polled(&mut self, outcome: PollOutcome, stop: bool) -> (action: ReaderAction)
        ensures
            (*final(self), action) == old(self).after_poll(outcome, stop),
    {
        match outcome {
            PollOutcome::Interrupted => if stop {
                ReaderAction::ReportClosed
            } else {
                ReaderAction::Poll
            },
            PollOutcome::Failed => ReaderAction::ReportClosed,
            PollOutcome::Ready { wake, input, hangup } => {
                self.input = input;
                self.hangup = hangup;
                if wake {
                    ReaderAction::DrainWake
                } else {
                    self.read(stop)
                }
            },
        }
    }

    /// All calls are taken in.
    pub fn woken(&self, stop: bool) -> (action: ReaderAction)
        ensures
            action == self.after_calls(stop),
    {
        if stop {
            ReaderAction::ReportClosed
        } else {
            self.read(stop)
        }
    }

    /// Takes how receiving ended. Samples go into `buffer`; an announcement is handed on.
    pub fn received(
        &self,
        outcome: ReceiveOutcome,
        receive_buffer: &[u8],
        buffer: &mut CaptureBuffer,
        stop: bool,
    ) -> (action: ReaderAction)
        requires
            old(buffer).wf(),
        ensures
            final(buffer).wf(),
            final(buffer).ring.cap() == old(buffer).ring.cap(),
            (final(buffer)@, action) == self.after_receiving(
                outcome,
                receive_buffer@,
                old(buffer)@,
                old(buffer).ring.cap(),
                stop,
            ),
    {
        match outcome {
            ReceiveOutcome::Interrupted => self.receive(stop),
            ReceiveOutcome::WouldBlock => self.drain(stop),
            ReceiveOutcome::Failed => ReaderAction::ReportClosed,
            ReceiveOutcome::Received(len) => {
                if len == 0 {
                    return ReaderAction::ReportClosed;
                }
                if len > receive_buffer.len() {
                    return self.receive(stop);
                }
                let datagram = vstd::slice::slice_subrange(receive_buffer, 0, len);
                assert(datagram@ == receive_buffer@.take(len as int));
                match parse_audio_datagram(datagram) {
                    Datagram::Ignored => self.receive(stop),
                    Datagram::Announce(format) => ReaderAction::Announce(format),
                    Datagram::Samples(payload) => {
                        buffer.accept(payload);
                        self.receive(stop)
                    },
                }
            },
        }
    }

    /// What a datagram does to the samples, and what follows it.
    pub open spec fn taken_in(
        self,
        datagram: Seq<u8>,
        b: Captured,
        cap: int,
        stop: bool,
    ) -> (Captured, ReaderAction) {
        match datagram_parts(datagram) {
            Some((AUDIO_MSG_FORMAT, payload)) => match announcement_in(payload) {
                Some(format) => (b, ReaderAction::Announce(format)),
                None => (b, self.receiving(stop)),
            },
            Some((AUDIO_MSG_PCM, payload)) => if b.stride == 0 || payload.len() % b.stride as nat
                != 0 || whole_frames(cap, b.stride as int) == 0 {
                (b, self.receiving(stop))
            } else {
                (
                    Captured {
                        held: latest(b.held + payload, whole_frames(cap, b.stride as int)),
                        ..b
                    },
                    self.receiving(stop),
                )
            },
            _ => (b, self.receiving(stop)),
        }
    }

    /// What follows receiving. A datagram that was cut off is ignored.
    pub open spec fn after_receiving(
        self,
        outcome: ReceiveOutcome,
        receive_buffer: Seq<u8>,
        b: Captured,
        cap: int,
        stop: bool,
    ) -> (Captured, ReaderAction) {
        match outcome {
            ReceiveOutcome::Interrupted => (b, self.receiving(stop)),
            ReceiveOutcome::WouldBlock => (b, self.drained(stop)),
            ReceiveOutcome::Failed => (b, ReaderAction::ReportClosed),
            ReceiveOutcome::Received(len) => if len == 0 {
                (b, ReaderAction::ReportClosed)
            } else if len > receive_buffer.len() {
                (b, self.receiving(stop))
            } else {
                self.taken_in(receive_buffer.take(len as int), b, cap, stop)
            },
        }
    }

    /// The announcement was handed to the worker, or could not be.
    pub fn announced(&self, sent: bool, stop: bool) -> (action: ReaderAction)
        ensures
            action == self.after_announcing(sent, stop),
    {
        if sent && !stop {
            ReaderAction::AwaitApplied
        } else {
            self.receive(stop)
        }
    }

    /// The wait for the announcement ended: it is settled, or the moment is over.
    pub fn applied(&self, settled: bool, stop: bool) -> (action: ReaderAction)
        ensures
            action == self.after_applying(settled, stop),
    {
        if !settled && !stop {
            ReaderAction::AwaitApplied
        } else {
            self.receive(stop)
        }
    }
}

/// A reader that is told to stop does not wait and does not receive any more, whatever it was
/// doing; only calls and an announcement that are already at hand still pass.
pub proof fn law_a_reader_told_to_stop_ends(
    reader: Reader,
    outcome: ReceiveOutcome,
    bytes: Seq<u8>,
    b: Captured,
    cap: int,
)
    ensures
        Reader::waiting(true) is ReportClosed,
        reader.reading(true) is ReportClosed,
        reader.receiving(true) is ReportClosed,
        ({
            let action = reader.after_receiving(outcome, bytes, b, cap, true).1;
            action is ReportClosed || action is Announce
        }),
{
}

/// Whatever is received, the samples in the buffer stay cut into whole frames.
pub proof fn law_receiving_keeps_frames_whole(
    reader: Reader,
    outcome: ReceiveOutcome,
    bytes: Seq<u8>,
    b: Captured,
    cap: int,
    stop: bool,
)
    requires
        cap >= 0,
        b.stride > 0,
        b.held.len() % b.stride as nat == 0,
    ensures
        ({
            let after = reader.after_receiving(outcome, bytes, b, cap, stop).0;
            after.stride == b.stride && after.held.len() % b.stride as nat == 0
        }),
{
    if let ReceiveOutcome::Received(len) = outcome {
        if let Some((_, payload)) = datagram_parts(bytes.take(len as int)) {
            if payload.len() % b.stride as nat == 0 {
                crate::audio::ring::law_samples_stay_framed(
                    b.held,
                    payload,
                    cap,
                    b.stride as int,
                );
            }
        }
    }
}

} // verus!
