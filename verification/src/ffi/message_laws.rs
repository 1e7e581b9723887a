//! What the bytes of a message mean: fields that are written one after the other are read back,
//! each in its own place.
use vstd::prelude::*;

use crate::bytes::{le32, lemma_words_at, words_bytes};
use crate::ffi::protocol::{
    action_of, axis_of, buf_info_at, button_of, display_of, header_at, header_bytes,
    input_event_at, key_of, motion_of, output_frame, output_message, resource_of, screen_info,
    screen_info_at, size_of, touch_of, InputEvent, InputEventData, OutputEvent, OutputEventData,
    ResourceRequestEvent, SetConsumerVarEvent, SizeEvent, BUF_INFO_BYTES, CTRL_MSG_FDS_READY,
    CTRL_MSG_PICKUP_FDS, CTRL_MSG_PRODUCER_HELLO, CTRL_MSG_SCREEN_INFO, DATA_MSG_BUFS_READY,
    DATA_MSG_INPUT_EVENT, DATA_MSG_INPUT_EXTEND_FDS, DATA_MSG_OUTPUT_EVENT, EVENT_BYTES,
    HANDSHAKE_TIMEOUT_MS, HEADER_BYTES, INPUT_ACTION_DOWN, INPUT_ACTION_MOVE, INPUT_ACTION_UP,
    INPUT_TYPE_ACTION, INPUT_TYPE_CLIPBOARD, INPUT_TYPE_DISPLAY_REFRESH, INPUT_TYPE_KEY,
    INPUT_TYPE_POINTER_AXIS, INPUT_TYPE_POINTER_BUTTON, INPUT_TYPE_POINTER_MOTION,
    INPUT_TYPE_RESOURCE, INPUT_TYPE_RESOURCE_INVALID, INPUT_TYPE_TEXT_INPUT, INPUT_TYPE_TOUCH,
    INPUT_TYPE_TOUCH_FRAME, MAX_BUFS, OUTPUT_TYPE_CLIPBOARD, OUTPUT_TYPE_RESOURCES_REQUEST,
    OUTPUT_TYPE_SET_CONSUMER_VAR, PICKUP_FDS, SCREEN_INFO_BYTES, SERVICE_TYPE_CAMERA,
};

verus! {

/// A header is its type and then its size.
pub proof fn law_headers_are_type_and_size(type_: u32, size: u32, rest: Seq<u8>)
    ensures
        ({
            let header = header_at(words_bytes(seq![type_, size]) + rest);
            header.type_ == type_ && header.size == size
        }),
        header_bytes(type_, size) == words_bytes(seq![type_, size]),
{
    let words = seq![type_, size];
    let s = words_bytes(words);
    lemma_words_at(words, 0);
    lemma_words_at(words, 1);
    assert(le32(s + rest, 0) == le32(s, 0));
    assert(le32(s + rest, 4) == le32(s, 4));
    reveal_with_fuel(words_bytes, 3);
    assert(words.drop_last() =~= seq![type_]);
    assert(seq![type_].drop_last() =~= Seq::<u32>::empty());
    assert(header_bytes(type_, size) =~= s);
}

/// A screen is its width, its height, its format and its refresh rate.
pub proof fn law_screens_round_trip(
    before: Seq<u8>,
    width: u32,
    height: u32,
    format: u32,
    refresh: u32,
)
    ensures
        screen_info_at(
            before + words_bytes(seq![width, height, format, refresh]),
            before.len() as int,
        ) == (screen_info { width, height, format, refresh }),
{
    let words = seq![width, height, format, refresh];
    let none = Seq::<u8>::empty();
    assert(before + words_bytes(words) + none =~= before + words_bytes(words));
    lemma_in_place(before, words, none, 0);
    lemma_in_place(before, words, none, 1);
    lemma_in_place(before, words, none, 2);
    lemma_in_place(before, words, none, 3);
}

/// A word that stands anywhere in some bytes is read where it stands.
proof fn lemma_in_place(before: Seq<u8>, words: Seq<u32>, rest: Seq<u8>, k: int)
    requires
        0 <= k < words.len(),
    ensures
        words_bytes(words).len() == 4 * words.len(),
        le32(before + words_bytes(words) + rest, before.len() + 4 * k) == words[k],
{
    lemma_words_at(words, k);
    let s = words_bytes(words);
    assert(le32(before + s + rest, before.len() + 4 * k) == le32(s, 4 * k));
}

/// A buffer is its stride, its width, its height, its format, the two halves of its modifier, the
/// lower first, and its offset. Several of them follow each other.
pub proof fn law_buffers_round_trip(
    before: Seq<u8>,
    stride: u32,
    width: u32,
    height: u32,
    format: u32,
    modifier_low: u32,
    modifier_high: u32,
    offset: u32,
    rest: Seq<u8>,
)
    ensures
        ({
            let words = seq![stride, width, height, format, modifier_low, modifier_high, offset];
            let info = buf_info_at(before + words_bytes(words) + rest, before.len() as int);
            &&& info.stride == stride
            &&& info.width == width
            &&& info.height == height
            &&& info.format == format
            &&& info.modifier % 0x1_0000_0000 == modifier_low
            &&& info.modifier / 0x1_0000_0000 == modifier_high
            &&& info.offset == offset
        }),
{
    let words = seq![stride, width, height, format, modifier_low, modifier_high, offset];
    lemma_in_place(before, words, rest, 0);
    lemma_in_place(before, words, rest, 1);
    lemma_in_place(before, words, rest, 2);
    lemma_in_place(before, words, rest, 3);
    lemma_in_place(before, words, rest, 4);
    lemma_in_place(before, words, rest, 5);
    lemma_in_place(before, words, rest, 6);
    let whole = modifier_low + 0x1_0000_0000 * modifier_high;
    assert(0 <= whole <= u64::MAX);
    assert(whole % 0x1_0000_0000 == modifier_low && whole / 0x1_0000_0000 == modifier_high);
}

/// An input event is its type and its four words, in that order.
pub proof fn law_input_events_round_trip(
    before: Seq<u8>,
    type_: u32,
    w0: u32,
    w1: u32,
    w2: u32,
    w3: u32,
    rest: Seq<u8>,
)
    ensures
        input_event_at(
            before + words_bytes(seq![type_, w0, w1, w2, w3]) + rest,
            before.len() as int,
        ) == (InputEvent { type_, data: InputEventData { w0, w1, w2, w3 } }),
{
    let words = seq![type_, w0, w1, w2, w3];
    lemma_in_place(before, words, rest, 0);
    lemma_in_place(before, words, rest, 1);
    lemma_in_place(before, words, rest, 2);
    lemma_in_place(before, words, rest, 3);
    lemma_in_place(before, words, rest, 4);
}

/// The words of each kind of input event are its fields, in the order in which the consumer writes
/// them: signed numbers as their two's complement, coordinates as their bit patterns.
pub proof fn law_input_fields_round_trip(a: i32, b: i32, u: u32, v: u32, x: u32, y: u32)
    ensures
        ({
            let touch = touch_of(InputEventData { w0: a as u32, w1: x, w2: y, w3: b as u32 });
            touch.action == a && touch.x_bits == x && touch.y_bits == y && touch.pointer_id == b
        }),
        ({
            let key = key_of(InputEventData { w0: a as u32, w1: b as u32, w2: x, w3: y });
            key.action == a && key.keycode == b
        }),
        ({
            let motion = motion_of(InputEventData { w0: x, w1: y, w2: u, w3: v });
            motion.x_bits == x && motion.y_bits == y && motion.dx_bits == u && motion.dy_bits == v
        }),
        ({
            let button = button_of(InputEventData { w0: u, w1: a as u32, w2: x, w3: y });
            button.button == u && button.pressed == a
        }),
        ({
            let axis = axis_of(InputEventData { w0: u, w1: x, w2: a as u32, w3: y });
            axis.axis == u && axis.value_bits == x && axis.discrete == a
        }),
        display_of(InputEventData { w0: u, w1: v, w2: x, w3: y }).refresh_mhz == u,
        size_of(InputEventData { w0: u, w1: v, w2: x, w3: y }).size == u,
        ({
            let action = action_of(InputEventData { w0: u, w1: a as u32, w2: x, w3: y });
            action.action == u && action.value == a
        }),
        ({
            let resource = resource_of(InputEventData { w0: u, w1: v, w2: x, w3: y });
            resource.type_ == u && resource.fdnum == v
        }),
{
    assert((a as u32) as i32 == a) by (bit_vector);
    assert((b as u32) as i32 == b) by (bit_vector);
}

/// What stands where in the message of an output event.
pub proof fn lemma_frame(words: Seq<u32>, payload: Seq<u8>)
    requires
        words.len() == 5,
    ensures
        ({
            let m = output_frame(words, payload);
            &&& m.len() == 28 + payload.len()
            &&& le32(m, 0) == 103
            &&& le32(m, 4) == 20
            &&& le32(m, 8) == words[0]
            &&& le32(m, 12) == words[1]
            &&& le32(m, 16) == words[2]
            &&& le32(m, 20) == words[3]
            &&& le32(m, 24) == words[4]
            &&& m.skip(28) == payload
        }),
{
    let header = words_bytes(seq![103u32, 20u32]);
    law_headers_are_type_and_size(103, 20, Seq::empty());
    let none = Seq::<u8>::empty();
    let after = words_bytes(words) + payload;
    lemma_in_place(none, seq![103u32, 20u32], after, 0);
    lemma_in_place(none, seq![103u32, 20u32], after, 1);
    lemma_in_place(header, words, payload, 0);
    lemma_in_place(header, words, payload, 1);
    lemma_in_place(header, words, payload, 2);
    lemma_in_place(header, words, payload, 3);
    lemma_in_place(header, words, payload, 4);
    let m = output_frame(words, payload);
    assert(m =~= header + words_bytes(words) + payload);
    assert(m =~= none + header + after);
    assert(m.skip(28) =~= payload);
}

/// What the consumer reads of an output event: a header with the type 103 and the length 20, the
/// type of the event, its fields in order, zeros, and then the payload.
pub proof fn law_output_events_round_trip(
    type_: u32,
    a: u32,
    args: [u32; 3],
    value: u32,
    payload: Seq<u8>,
)
    ensures
        ({
            let m = output_message(
                OutputEvent { type_, data: OutputEventData::Clipboard(SizeEvent { size: a }) },
                payload,
            );
            &&& m.len() == 28 + payload.len() && le32(m, 0) == 103 && le32(m, 4) == 20
            &&& le32(m, 8) == type_ && le32(m, 12) == a && le32(m, 16) == 0 && le32(m, 20) == 0
            &&& le32(m, 24) == 0 && m.skip(28) == payload
        }),
        ({
            let m = output_message(
                OutputEvent {
                    type_,
                    data: OutputEventData::ResourcesRequest(
                        ResourceRequestEvent { type_: a, args },
                    ),
                },
                payload,
            );
            &&& m.len() == 28 + payload.len() && le32(m, 0) == 103 && le32(m, 4) == 20
            &&& le32(m, 8) == type_ && le32(m, 12) == a && le32(m, 16) == args[0] && le32(m, 20)
                == args[1]
            &&& le32(m, 24) == args[2] && m.skip(28) == payload
        }),
        ({
            let m = output_message(
                OutputEvent {
                    type_,
                    data: OutputEventData::SetConsumerVar(SetConsumerVarEvent { var: a, value }),
                },
                payload,
            );
            &&& m.len() == 28 + payload.len() && le32(m, 0) == 103 && le32(m, 4) == 20
            &&& le32(m, 8) == type_ && le32(m, 12) == a && le32(m, 16) == value && le32(m, 20) == 0
            &&& le32(m, 24) == 0 && m.skip(28) == payload
        }),
{
    lemma_frame(seq![type_] + seq![a, 0, 0, 0], payload);
    lemma_frame(seq![type_] + seq![a, args@[0], args@[1], args@[2]], payload);
    lemma_frame(seq![type_] + seq![a, value, 0, 0], payload);
}

/// The numbers of the protocol, by which both sides tell messages apart, and the lengths of their
/// parts.
pub proof fn law_protocol_numbers()
    ensures
        MAX_BUFS == 8,
        INPUT_TYPE_TOUCH == 1,
        INPUT_TYPE_KEY == 2,
        INPUT_TYPE_POINTER_MOTION == 3,
        INPUT_TYPE_POINTER_BUTTON == 4,
        INPUT_TYPE_POINTER_AXIS == 5,
        INPUT_TYPE_TOUCH_FRAME == 6,
        INPUT_TYPE_DISPLAY_REFRESH == 7,
        INPUT_TYPE_CLIPBOARD == 8,
        INPUT_TYPE_TEXT_INPUT == 9,
        INPUT_TYPE_ACTION == 10,
        INPUT_TYPE_RESOURCE == 11,
        INPUT_TYPE_RESOURCE_INVALID == 12,
        INPUT_ACTION_DOWN == 0,
        INPUT_ACTION_UP == 1,
        INPUT_ACTION_MOVE == 2,
        OUTPUT_TYPE_CLIPBOARD == 1,
        OUTPUT_TYPE_RESOURCES_REQUEST == 2,
        OUTPUT_TYPE_SET_CONSUMER_VAR == 3,
        SERVICE_TYPE_CAMERA == 1,
        CTRL_MSG_PRODUCER_HELLO == 2,
        CTRL_MSG_SCREEN_INFO == 7,
        CTRL_MSG_PICKUP_FDS == 9,
        CTRL_MSG_FDS_READY == 10,
        DATA_MSG_INPUT_EVENT == 102,
        DATA_MSG_OUTPUT_EVENT == 103,
        DATA_MSG_INPUT_EXTEND_FDS == 104,
        DATA_MSG_BUFS_READY == 200,
        HANDSHAKE_TIMEOUT_MS == 100,
        HEADER_BYTES == 8,
        SCREEN_INFO_BYTES == 16,
        BUF_INFO_BYTES == 28,
        EVENT_BYTES == 20,
        PICKUP_FDS == 5,
{
}

} // verus!
