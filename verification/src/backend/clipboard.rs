//! The clipboard, to and from the consumer.
use vstd::prelude::*;
#[allow(unused_imports)]
use vstd::utf8::{decode_utf8, encode_utf8, valid_utf8};

use crate::ffi::context::{display_ctx, is_fallback, push_output_event_with_length, Step};
#[allow(unused_imports)]
use crate::ffi::model::{with_consumer, CtxModel, Phase, RequestModel, StepModel};
use crate::ffi::protocol::{OutputEvent, OutputEventData, SizeEvent, OUTPUT_TYPE_CLIPBOARD};
#[allow(unused_imports)]
use crate::ffi::protocol::output_message;

verus! {

/// A client has two seconds for its text.
pub const CLIPBOARD_TIMEOUT_NS: u128 = 2_000_000_000;
/// More than 2 MiB of text are not read.
pub const CLIPBOARD_LIMIT: usize = 2_097_152;
/// How much is read at a time.
pub const CLIPBOARD_CHUNK: usize = 4096;

/// Decodes text with `String::from_utf8` of the standard library: bytes that are UTF-8 give the
/// characters that they encode, and others give nothing.
#[verifier::external_body]
fn text_from_utf8(bytes: Vec<u8>) -> (text: Option<String>)
    ensures
        match text {
            Some(t) => valid_utf8(bytes@) && t@ == decode_utf8(bytes@),
            None => !valid_utf8(bytes@),
        },
{
    String::from_utf8(bytes).ok()
}

/// What becomes of the compositor's clipboard.
#[derive(Debug)]
pub enum ClipboardUpdate {
    /// It stays.
    Keep,
    /// It is empty from here on.
    Clear,
    /// It is this plain text from here on.
    Publish(String),
}

/// The same, as a plain value.
pub enum ClipboardUpdateModel {
    Keep,
    Clear,
    Publish(Seq<char>),
}

impl View for ClipboardUpdate {
    type V = ClipboardUpdateModel;

    open spec fn view(&self) -> ClipboardUpdateModel {
        match self {
            ClipboardUpdate::Keep => ClipboardUpdateModel::Keep,
            ClipboardUpdate::Clear => ClipboardUpdateModel::Clear,
            ClipboardUpdate::Publish(text) => ClipboardUpdateModel::Publish(text@),
        }
    }
}

/// What text of the consumer does to the clipboard.
pub open spec fn text_update(text: Seq<char>) -> ClipboardUpdateModel {
    if text.len() == 0 {
        ClipboardUpdateModel::Clear
    } else {
        ClipboardUpdateModel::Publish(text)
    }
}

/// What a payload of the consumer does to the clipboard.
pub open spec fn payload_update(
    clipboard: bool,
    code: i32,
    payload: Seq<u8>,
) -> ClipboardUpdateModel {
    if code == 1 && clipboard && valid_utf8(payload) {
        text_update(decode_utf8(payload))
    } else {
        ClipboardUpdateModel::Keep
    }
}

/// Publishes text that the consumer pushed. No text clears the clipboard.
pub fn set_compositor_clipboard(text: String) -> (update: ClipboardUpdate)
    ensures
        update@ == text_update(text@),
{
    if text.as_str().is_empty() {
        ClipboardUpdate::Clear
    } else {
        ClipboardUpdate::Publish(text)
    }
}

/// What a payload of the consumer does to the clipboard. `code` is what reading it returned: only
/// a payload that was read completely is used, and only if it is a clipboard's and is text.
pub fn payload_read(clipboard: bool, code: i32, payload: Vec<u8>) -> (update: ClipboardUpdate)
    ensures
        update@ == payload_update(clipboard, code, payload@),
{
    if code != 1 || !clipboard {
        return ClipboardUpdate::Keep;
    }
    match text_from_utf8(payload) {
        Some(text) => set_compositor_clipboard(text),
        None => ClipboardUpdate::Keep,
    }
}

/// The first step of sending text to the consumer.
pub open spec fn clipboard_sending(ctx: CtxModel, text: Seq<char>) -> (CtxModel, StepModel) {
    with_consumer(
        ctx,
        Phase::Push,
        RequestModel::SendAll {
            fd: ctx.data_fd,
            bytes: output_message(
                OutputEvent {
                    type_: OUTPUT_TYPE_CLIPBOARD,
                    data: OutputEventData::Clipboard(
                        SizeEvent { size: encode_utf8(text).len() as u32 },
                    ),
                },
                encode_utf8(text),
            ),
        },
    )
}

/// Starts sending text to the consumer, if it is there.
pub fn send_clipboard_to_consumer(ctx: &mut display_ctx, text: &str) -> (step: Option<Step>)
    requires
        old(ctx).wf(),
        old(ctx)@.phase == Phase::Idle,
    ensures
        final(ctx).wf(),
        match step {
            Some(s) => !old(ctx)@.fallback && (final(ctx)@, s@) == clipboard_sending(
                old(ctx)@,
                text@,
            ),
            None => old(ctx)@.fallback && final(ctx)@ == old(ctx)@,
        },
{
    if is_fallback(ctx) {
        return None;
    }
    let bytes = text.as_bytes();
    let event = OutputEvent {
        type_: OUTPUT_TYPE_CLIPBOARD,
        data: OutputEventData::Clipboard(SizeEvent { size: bytes.len() as u32 }),
    };
    Some(push_output_event_with_length(ctx, &event, bytes))
}

/// What a reader of a client's text does next.
#[derive(Debug, Clone, Copy, PartialEq, Eq, Structural)]
pub enum ClipboardAction {
    /// Wait a moment for bytes.
    Poll,
    /// Read some bytes.
    Read,
    /// Close the pipe and hand on the text.
    Finish,
}

/// The text of a client, as far as it is read.
pub struct ClipboardReader {
    pub bytes: Vec<u8>,
}

impl ClipboardReader {
    /// Waits on, unless time is over or there is too much.
    pub open spec fn waiting(bytes: Seq<u8>, elapsed_ns: u128) -> ClipboardAction {
        if elapsed_ns > CLIPBOARD_TIMEOUT_NS || bytes.len() > CLIPBOARD_LIMIT {
            ClipboardAction::Finish
        } else {
            ClipboardAction::Poll
        }
    }

    /// What follows a wait.
    pub open spec fn after_poll(bytes: Seq<u8>, ready: bool, elapsed_ns: u128) -> ClipboardAction {
        if ready {
            ClipboardAction::Read
        } else {
            Self::waiting(bytes, elapsed_ns)
        }
    }

    /// What follows reading `chunk`, the last of `bytes`.
    pub open spec fn after_read(
        bytes: Seq<u8>,
        chunk: Seq<u8>,
        elapsed_ns: u128,
    ) -> ClipboardAction {
        if chunk.len() == 0 {
            ClipboardAction::Finish
        } else {
            Self::waiting(bytes, elapsed_ns)
        }
    }

    /// Nothing is read yet.
    pub fn new() -> (reader: ClipboardReader)
        ensures
            reader.bytes@ == Seq::<u8>::empty(),
    {
        ClipboardReader { bytes: Vec::new() }
    }

    /// What to do at this time.
    pub fn next(&self, elapsed_ns: u128) -> (action: ClipboardAction)
        ensures
            action == Self::waiting(self.bytes@, elapsed_ns),
    {
        if elapsed_ns > CLIPBOARD_TIMEOUT_NS || self.bytes.len() > CLIPBOARD_LIMIT {
            ClipboardAction::Finish
        } else {
            ClipboardAction::Poll
        }
    }

    /// The wait is over; `ready` tells whether there are bytes.
    pub fn polled(&self, ready: bool, elapsed_ns: u128) -> (action: ClipboardAction)
        ensures
            action == Self::after_poll(self.bytes@, ready, elapsed_ns),
    {
        if ready {
            ClipboardAction::Read
        } else {
            self.next(elapsed_ns)
        }
    }

    /// Takes in what was read. Nothing means that there is no more.
    pub fn read(&mut self, chunk: &[u8], elapsed_ns: u128) -> (action: ClipboardAction)
        ensures
            final(self).bytes@ == old(self).bytes@ + chunk@,
            action == Self::after_read(final(self).bytes@, chunk@, elapsed_ns),
    {
        crate::bytes::push_all(&mut self.bytes, chunk);
        if chunk.len() == 0 {
            ClipboardAction::Finish
        } else {
            self.next(elapsed_ns)
        }
    }

    /// The text, if it is text.
    pub fn finish(self) -> (text: Option<String>)
        ensures
            match text {
                Some(t) => valid_utf8(self.bytes@) && t@ == decode_utf8(self.bytes@),
                None => !valid_utf8(self.bytes@),
            },
    {
        text_from_utf8(self.bytes)
    }
}

/// However a client behaves, reading ends: each chunk brings the end closer, and at most one chunk
/// more than the limit is held.
pub proof fn law_clipboard_reading_is_bounded(bytes: Seq<u8>, chunk: Seq<u8>, elapsed_ns: u128)
    requires
        bytes.len() <= CLIPBOARD_LIMIT,
        0 < chunk.len() <= CLIPBOARD_CHUNK,
    ensures
        (bytes + chunk).len() > bytes.len(),
        (bytes + chunk).len() <= CLIPBOARD_LIMIT + CLIPBOARD_CHUNK,
        (bytes + chunk).len() > CLIPBOARD_LIMIT ==> ClipboardReader::waiting(
            bytes + chunk,
            elapsed_ns,
        ) is Finish,
        elapsed_ns > CLIPBOARD_TIMEOUT_NS ==> ClipboardReader::waiting(bytes, elapsed_ns) is Finish,
{
}

/// Text comes through the consumer unchanged: the payload that is sent for it is text, and the
/// same.
pub proof fn law_text_comes_back_unchanged(text: Seq<char>)
    ensures
        valid_utf8(encode_utf8(text)),
        decode_utf8(encode_utf8(text)) == text,
{
    broadcast use {vstd::utf8::encode_utf8_valid_utf8, vstd::utf8::encode_utf8_decode_utf8};

}

} // verus!
