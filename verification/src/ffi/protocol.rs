//! Message layouts of the display protocol.
//!
//! Every message starts with a type and a size, both 32-bit little-endian numbers.
use vstd::prelude::*;

use crate::bytes::{le32_at, le64_at, push_u32};
#[allow(unused_imports)]
use crate::bytes::{le32, le64, u32_bytes, words_bytes};

verus! {

pub const MAX_BUFS: usize = 8;

// Input event types (consumer to producer).
pub const INPUT_TYPE_TOUCH: u32 = 1;
pub const INPUT_TYPE_KEY: u32 = 2;
pub const INPUT_TYPE_POINTER_MOTION: u32 = 3;
pub const INPUT_TYPE_POINTER_BUTTON: u32 = 4;
pub const INPUT_TYPE_POINTER_AXIS: u32 = 5;
pub const INPUT_TYPE_TOUCH_FRAME: u32 = 6;
pub const INPUT_TYPE_DISPLAY_REFRESH: u32 = 7;
pub const INPUT_TYPE_CLIPBOARD: u32 = 8;
pub const INPUT_TYPE_TEXT_INPUT: u32 = 9;
pub const INPUT_TYPE_ACTION: u32 = 10;
pub const INPUT_TYPE_RESOURCE: u32 = 11;
pub const INPUT_TYPE_RESOURCE_INVALID: u32 = 12;

pub const INPUT_ACTION_DOWN: i32 = 0;
pub const INPUT_ACTION_UP: i32 = 1;
pub const INPUT_ACTION_MOVE: i32 = 2;

// Output event types (producer to consumer).
pub const OUTPUT_TYPE_CLIPBOARD: u32 = 1;
pub const OUTPUT_TYPE_RESOURCES_REQUEST: u32 = 2;
pub const OUTPUT_TYPE_SET_CONSUMER_VAR: u32 = 3;

pub const SERVICE_TYPE_CAMERA: u32 = 1;

// Control and data message types.
pub const CTRL_MSG_PRODUCER_HELLO: u32 = 2;
pub const CTRL_MSG_SCREEN_INFO: u32 = 7;
pub const CTRL_MSG_PICKUP_FDS: u32 = 9;
pub const CTRL_MSG_FDS_READY: u32 = 10;
pub const DATA_MSG_INPUT_EVENT: u32 = 102;
pub const DATA_MSG_OUTPUT_EVENT: u32 = 103;
pub const DATA_MSG_INPUT_EXTEND_FDS: u32 = 104;
pub const DATA_MSG_BUFS_READY: u32 = 200;

pub const HANDSHAKE_TIMEOUT_MS: i32 = 100;

/// Bytes of a message header.
pub const HEADER_BYTES: usize = 8;
/// Bytes of a `screen_info`.
pub const SCREEN_INFO_BYTES: usize = 16;
/// Bytes of a `buf_info`.
pub const BUF_INFO_BYTES: usize = 28;
/// Bytes of an input or output event.
pub const EVENT_BYTES: usize = 20;
/// Descriptors that a pickup reply carries.
pub const PICKUP_FDS: usize = 5;

/// Header of a data message. Control messages have the same one.
#[derive(Debug, Clone, Copy, PartialEq, Eq, Structural)]
pub struct data_msg {
    pub type_: u32,
    pub size: u32,
}

/// The screen that the daemon announces.
#[derive(Debug, Clone, Copy, PartialEq, Eq, Structural)]
pub struct screen_info {
    pub width: u32,
    pub height: u32,
    pub format: u32,
    pub refresh: u32,
}

/// Layout of one consumer buffer.
#[derive(Debug, Clone, Copy, PartialEq, Eq, Structural)]
pub struct buf_info {
    pub stride: u32,
    pub width: u32,
    pub height: u32,
    pub format: u32,
    pub modifier: u64,
    pub offset: u32,
}

/// The eight bytes of a header.
pub open spec fn header_bytes(type_: u32, size: u32) -> Seq<u8> {
    u32_bytes(type_) + u32_bytes(size)
}

/// The header at the start of `s`.
pub open spec fn header_at(s: Seq<u8>) -> data_msg {
    data_msg { type_: le32(s, 0) as u32, size: le32(s, 4) as u32 }
}

/// The `screen_info` at `i`.
pub open spec fn screen_info_at(s: Seq<u8>, i: int) -> screen_info {
    screen_info {
        width: le32(s, i) as u32,
        height: le32(s, i + 4) as u32,
        format: le32(s, i + 8) as u32,
        refresh: le32(s, i + 12) as u32,
    }
}

/// The `buf_info` at `i`.
pub open spec fn buf_info_at(s: Seq<u8>, i: int) -> buf_info {
    buf_info {
        stride: le32(s, i) as u32,
        width: le32(s, i + 4) as u32,
        height: le32(s, i + 8) as u32,
        format: le32(s, i + 12) as u32,
        modifier: le64(s, i + 16) as u64,
        offset: le32(s, i + 24) as u32,
    }
}

/// A `buf_info` with every field zero.
pub open spec fn zero_buf_info() -> buf_info {
    buf_info { stride: 0, width: 0, height: 0, format: 0, modifier: 0, offset: 0 }
}

impl Default for buf_info {
    fn default() -> (info: buf_info)
        ensures
            info == zero_buf_info(),
    {
        buf_info { stride: 0, width: 0, height: 0, format: 0, modifier: 0, offset: 0 }
    }
}

/// Writes a message header.
pub fn encode_header(type_: u32, size: u32) -> (out: Vec<u8>)
    ensures
        out@ == header_bytes(type_, size),
        out@.len() == HEADER_BYTES,
{
    let mut out: Vec<u8> = Vec::new();
    push_u32(&mut out, type_);
    push_u32(&mut out, size);
    assert(out@ =~= header_bytes(type_, size));
    out
}

/// Reads the message header at the start of `bytes`.
pub fn decode_header(bytes: &[u8]) -> (header: data_msg)
    requires
        bytes@.len() >= HEADER_BYTES,
    ensures
        header == header_at(bytes@),
{
    data_msg { type_: le32_at(bytes, 0), size: le32_at(bytes, 4) }
}

/// Reads the screen description at `offset`.
pub fn decode_screen_info(bytes: &[u8], offset: usize) -> (info: screen_info)
    requires
        offset + SCREEN_INFO_BYTES <= bytes@.len(),
    ensures
        info == screen_info_at(bytes@, offset as int),
{
    assert(offset + SCREEN_INFO_BYTES <= bytes.len());
    screen_info {
        width: le32_at(bytes, offset),
        height: le32_at(bytes, offset + 4),
        format: le32_at(bytes, offset + 8),
        refresh: le32_at(bytes, offset + 12),
    }
}

/// Reads the buffer description at `offset`.
pub fn decode_buf_info(bytes: &[u8], offset: usize) -> (info: buf_info)
    requires
        offset + BUF_INFO_BYTES <= bytes@.len(),
    ensures
        info == buf_info_at(bytes@, offset as int),
{
    assert(offset + BUF_INFO_BYTES <= bytes.len());
    buf_info {
        stride: le32_at(bytes, offset),
        width: le32_at(bytes, offset + 4),
        height: le32_at(bytes, offset + 8),
        format: le32_at(bytes, offset + 12),
        modifier: le64_at(bytes, offset + 16),
        offset: le32_at(bytes, offset + 24),
    }
}

/// A touch; the coordinates are the bit patterns of 32-bit floating-point numbers.
#[derive(Debug, Clone, Copy, PartialEq, Eq, Structural)]
pub struct TouchEvent {
    pub action: i32,
    pub x_bits: u32,
    pub y_bits: u32,
    pub pointer_id: i32,
}

#[derive(Debug, Clone, Copy, PartialEq, Eq, Structural)]
pub struct KeyEvent {
    pub action: i32,
    pub keycode: i32,
}

/// A pointer motion; the fields are the bit patterns of 32-bit floating-point numbers.
#[derive(Debug, Clone, Copy, PartialEq, Eq, Structural)]
pub struct PointerMotionEvent {
    pub x_bits: u32,
    pub y_bits: u32,
    pub dx_bits: u32,
    pub dy_bits: u32,
}

#[derive(Debug, Clone, Copy, PartialEq, Eq, Structural)]
pub struct PointerButtonEvent {
    pub button: u32,
    pub pressed: i32,
}

/// A pointer scroll; `value_bits` is the bit pattern of a 32-bit floating-point number.
#[derive(Debug, Clone, Copy, PartialEq, Eq, Structural)]
pub struct PointerAxisEvent {
    pub axis: u32,
    pub value_bits: u32,
    pub discrete: i32,
}

#[derive(Debug, Clone, Copy, PartialEq, Eq, Structural)]
pub struct DisplayEvent {
    pub refresh_mhz: u32,
}

#[derive(Debug, Clone, Copy, PartialEq, Eq, Structural)]
pub struct SizeEvent {
    pub size: u32,
}

#[derive(Debug, Clone, Copy, PartialEq, Eq, Structural)]
pub struct InputActionEvent {
    pub action: u32,
    pub value: i32,
}

#[derive(Debug, Clone, Copy, PartialEq, Eq, Structural)]
pub struct ResourceEvent {
    pub type_: u32,
    pub fdnum: u32,
}

#[derive(Debug, Clone, Copy, PartialEq, Eq)]
pub struct ResourceRequestEvent {
    pub type_: u32,
    pub args: [u32; 3],
}

#[derive(Debug, Clone, Copy, PartialEq, Eq, Structural)]
pub struct SetConsumerVarEvent {
    pub var: u32,
    pub value: u32,
}

/// The four payload words of an input event. What they mean depends on the event type.
#[derive(Debug, Clone, Copy, PartialEq, Eq, Structural)]
pub struct InputEventData {
    pub w0: u32,
    pub w1: u32,
    pub w2: u32,
    pub w3: u32,
}

/// The words as those of a touch.
pub open spec fn touch_of(data: InputEventData) -> TouchEvent {
    TouchEvent {
        action: data.w0 as i32,
        x_bits: data.w1,
        y_bits: data.w2,
        pointer_id: data.w3 as i32,
    }
}

/// The words as those of a key.
pub open spec fn key_of(data: InputEventData) -> KeyEvent {
    KeyEvent { action: data.w0 as i32, keycode: data.w1 as i32 }
}

/// The words as those of a pointer motion.
pub open spec fn motion_of(data: InputEventData) -> PointerMotionEvent {
    PointerMotionEvent { x_bits: data.w0, y_bits: data.w1, dx_bits: data.w2, dy_bits: data.w3 }
}

/// The words as those of a pointer button.
pub open spec fn button_of(data: InputEventData) -> PointerButtonEvent {
    PointerButtonEvent { button: data.w0, pressed: data.w1 as i32 }
}

/// The words as those of a pointer scroll.
pub open spec fn axis_of(data: InputEventData) -> PointerAxisEvent {
    PointerAxisEvent { axis: data.w0, value_bits: data.w1, discrete: data.w2 as i32 }
}

/// The words as those of a change of the refresh rate.
pub open spec fn display_of(data: InputEventData) -> DisplayEvent {
    DisplayEvent { refresh_mhz: data.w0 }
}

/// The words as those of an event that a payload follows.
pub open spec fn size_of(data: InputEventData) -> SizeEvent {
    SizeEvent { size: data.w0 }
}

/// The words as those of an action.
pub open spec fn action_of(data: InputEventData) -> InputActionEvent {
    InputActionEvent { action: data.w0, value: data.w1 as i32 }
}

/// The words as those of a reply to a request for a service.
pub open spec fn resource_of(data: InputEventData) -> ResourceEvent {
    ResourceEvent { type_: data.w0, fdnum: data.w1 }
}

impl InputEventData {
    pub fn touch(self) -> (event: TouchEvent)
        ensures
            event == touch_of(self),
    {
        TouchEvent {
            action: self.w0 as i32,
            x_bits: self.w1,
            y_bits: self.w2,
            pointer_id: self.w3 as i32,
        }
    }

    pub fn key(self) -> (event: KeyEvent)
        ensures
            event == key_of(self),
    {
        KeyEvent { action: self.w0 as i32, keycode: self.w1 as i32 }
    }

    pub fn pointer_motion(self) -> (event: PointerMotionEvent)
        ensures
            event == motion_of(self),
    {
        PointerMotionEvent { x_bits: self.w0, y_bits: self.w1, dx_bits: self.w2, dy_bits: self.w3 }
    }

    pub fn pointer_button(self) -> (event: PointerButtonEvent)
        ensures
            event == button_of(self),
    {
        PointerButtonEvent { button: self.w0, pressed: self.w1 as i32 }
    }

    pub fn pointer_axis(self) -> (event: PointerAxisEvent)
        ensures
            event == axis_of(self),
    {
        PointerAxisEvent { axis: self.w0, value_bits: self.w1, discrete: self.w2 as i32 }
    }

    pub fn display(self) -> (event: DisplayEvent)
        ensures
            event == display_of(self),
    {
        DisplayEvent { refresh_mhz: self.w0 }
    }

    pub fn clipboard(self) -> (event: SizeEvent)
        ensures
            event == size_of(self),
    {
        SizeEvent { size: self.w0 }
    }

    pub fn text_input(self) -> (event: SizeEvent)
        ensures
            event == size_of(self),
    {
        SizeEvent { size: self.w0 }
    }

    pub fn input_action(self) -> (event: InputActionEvent)
        ensures
            event == action_of(self),
    {
        InputActionEvent { action: self.w0, value: self.w1 as i32 }
    }

    pub fn resource(self) -> (event: ResourceEvent)
        ensures
            event == resource_of(self),
    {
        ResourceEvent { type_: self.w0, fdnum: self.w1 }
    }
}

/// An event that the consumer sends.
#[derive(Debug, Clone, Copy, PartialEq, Eq, Structural)]
pub struct InputEvent {
    pub type_: u32,
    pub data: InputEventData,
}

/// The input event at `i`.
pub open spec fn input_event_at(s: Seq<u8>, i: int) -> InputEvent {
    InputEvent {
        type_: le32(s, i) as u32,
        data: InputEventData {
            w0: le32(s, i + 4) as u32,
            w1: le32(s, i + 8) as u32,
            w2: le32(s, i + 12) as u32,
            w3: le32(s, i + 16) as u32,
        },
    }
}

/// Reads the input event at `offset`.
pub fn decode_input_event(bytes: &[u8], offset: usize) -> (event: InputEvent)
    requires
        offset + EVENT_BYTES <= bytes@.len(),
    ensures
        event == input_event_at(bytes@, offset as int),
{
    assert(offset + EVENT_BYTES <= bytes.len());
    InputEvent {
        type_: le32_at(bytes, offset),
        data: InputEventData {
            w0: le32_at(bytes, offset + 4),
            w1: le32_at(bytes, offset + 8),
            w2: le32_at(bytes, offset + 12),
            w3: le32_at(bytes, offset + 16),
        },
    }
}

/// The payload of an output event.
#[derive(Debug, Clone, Copy, PartialEq, Eq)]
pub enum OutputEventData {
    Clipboard(SizeEvent),
    ResourcesRequest(ResourceRequestEvent),
    SetConsumerVar(SetConsumerVarEvent),
}

/// An event that the producer sends.
#[derive(Debug, Clone, Copy, PartialEq, Eq)]
pub struct OutputEvent {
    pub type_: u32,
    pub data: OutputEventData,
}

/// The four payload words of an output event; unused words are zero.
pub open spec fn output_words(data: OutputEventData) -> Seq<u32> {
    match data {
        OutputEventData::Clipboard(e) => seq![e.size, 0, 0, 0],
        OutputEventData::ResourcesRequest(e) => seq![e.type_, e.args@[0], e.args@[1], e.args@[2]],
        OutputEventData::SetConsumerVar(e) => seq![e.var, e.value, 0, 0],
    }
}

/// The twenty bytes of an output event.
pub open spec fn output_event_bytes(event: OutputEvent) -> Seq<u8> {
    words_bytes(seq![event.type_] + output_words(event.data))
}

impl OutputEvent {
    /// Writes the event.
    pub fn encode(&self) -> (out: Vec<u8>)
        ensures
            out@ == output_event_bytes(*self),
            out@.len() == EVENT_BYTES,
    {
        let (w0, w1, w2, w3): (u32, u32, u32, u32) = match self.data {
            OutputEventData::Clipboard(e) => (e.size, 0, 0, 0),
            OutputEventData::ResourcesRequest(e) => (e.type_, e.args[0], e.args[1], e.args[2]),
            OutputEventData::SetConsumerVar(e) => (e.var, e.value, 0, 0),
        };
        let mut out: Vec<u8> = Vec::new();
        push_u32(&mut out, self.type_);
        push_u32(&mut out, w0);
        push_u32(&mut out, w1);
        push_u32(&mut out, w2);
        push_u32(&mut out, w3);
        proof {
            let words = seq![self.type_] + output_words(self.data);
            assert(words =~= seq![self.type_, w0, w1, w2, w3]);
            lemma_five_words(self.type_, w0, w1, w2, w3);
        }
        out
    }
}

proof fn lemma_five_words(a: u32, b: u32, c: u32, d: u32, e: u32)
    ensures
        words_bytes(seq![a, b, c, d, e]) == Seq::<u8>::empty() + u32_bytes(a) + u32_bytes(b)
            + u32_bytes(c) + u32_bytes(d) + u32_bytes(e),
{
    reveal_with_fuel(words_bytes, 6);
    assert(seq![a, b, c, d, e].drop_last() =~= seq![a, b, c, d]);
    assert(seq![a, b, c, d].drop_last() =~= seq![a, b, c]);
    assert(seq![a, b, c].drop_last() =~= seq![a, b]);
    assert(seq![a, b].drop_last() =~= seq![a]);
    assert(seq![a].drop_last() =~= Seq::<u32>::empty());
}

/// The message that carries the five words of an event: a header, the words and whatever
/// payload follows them.
pub open spec fn output_frame(words: Seq<u32>, payload: Seq<u8>) -> Seq<u8> {
    header_bytes(DATA_MSG_OUTPUT_EVENT, EVENT_BYTES as u32) + words_bytes(words) + payload
}

/// The message that carries `event` and the payload that follows it.
pub open spec fn output_message(event: OutputEvent, payload: Seq<u8>) -> Seq<u8> {
    output_frame(seq![event.type_] + output_words(event.data), payload)
}

/// A header read back is the header that was written.
pub proof fn law_header_round_trip(type_: u32, size: u32)
    ensures
        header_bytes(type_, size).len() == HEADER_BYTES,
        header_at(header_bytes(type_, size)) == (data_msg { type_, size }),
{
    crate::bytes::law_u32_round_trip(type_);
    crate::bytes::law_u32_round_trip(size);
    let s = header_bytes(type_, size);
    assert(le32(s, 0) == le32(u32_bytes(type_), 0));
    assert(le32(s, 4) == le32(u32_bytes(size), 0));
}

} // verus!
