//! Frame decoding: from the bytes of one delimited frame to one switch event.
//!
//! A frame is a byte-stuffed message that ends in a single `0x00`. Its first
//! byte is an offset to the next position that stood for a zero in the
//! payload, which in turn holds the offset to the one after it, and so on up
//! to the closing delimiter. Decoding walks that chain, puts the zeros back
//! and drops the leading offset and the delimiter. The payload that comes out
//! is one byte for a digital event and two bytes for an analog one.

use crate::device::switch::{SwitchInfo, SwitchKind};
use vstd::prelude::*;
use vstd::slice::{slice_subrange, slice_to_vec};

verus! {

/// Bit of the first payload byte that tells an analog event from a digital one.
pub const KIND_BIT: u8 = 0x08;

/// Bits of the first payload byte that hold the pin of a digital event.
pub const DIGITAL_PIN_MASK: u8 = 0b0111_1110;

/// Bits of the first payload byte that hold the pin of an analog event.
pub const ANALOG_PIN_MASK: u8 = 0b0111_1100;

/// Why a frame could not be decoded.
#[derive(Clone, Copy, Debug, PartialEq, Eq, Structural)]
pub enum DecodeError {
    /// The frame is malformed or truncated: it is too short, its closing
    /// delimiter is missing, or an offset points past its end.
    Framing,
    /// The payload does not have the length that its kind bit calls for.
    Shape,
}

/// How many positions of `frame` lie at or after `from`.
pub open spec fn room(frame: Seq<u8>, from: int) -> nat {
    if from < frame.len() {
        (frame.len() - from) as nat
    } else {
        0
    }
}

/// The walk that starts at position `from` of `frame` comes to position
/// `index`: either it starts there, or the byte at `from` is a non-zero offset
/// and the walk that starts that many positions further on comes to `index`.
pub open spec fn walk_visits(frame: Seq<u8>, from: int, index: int) -> bool
    decreases room(frame, from),
{
    if from < 0 || from >= frame.len() {
        false
    } else if index == from {
        true
    } else if frame[from] == 0 {
        false
    } else {
        walk_visits(frame, from + frame[from], index)
    }
}

/// The walk that starts at position `from` of `frame` ends on a zero byte
/// inside the frame, rather than stepping past its end.
pub open spec fn walk_lands(frame: Seq<u8>, from: int) -> bool
    decreases room(frame, from),
{
    if from < 0 || from >= frame.len() {
        false
    } else if frame[from] == 0 {
        true
    } else {
        walk_lands(frame, from + frame[from])
    }
}

/// The byte at `index` once the walk from the start of `frame` has put the
/// zeros back: zero where the walk came by, the byte of the frame elsewhere.
pub open spec fn restored_byte(frame: Seq<u8>, index: int) -> u8 {
    if walk_visits(frame, 0, index) {
        0u8
    } else {
        frame[index]
    }
}

/// The frame can be unstuffed: it holds at least the leading offset and the
/// delimiter, its last byte is the delimiter, and the walk stays inside it.
pub open spec fn well_framed(frame: Seq<u8>) -> bool {
    &&& frame.len() >= 2
    &&& frame.last() == 0
    &&& walk_lands(frame, 0)
}

/// The payload that a frame carries, if it is well framed: the restored bytes
/// strictly between the leading offset and the closing delimiter.
pub open spec fn unstuffed(frame: Seq<u8>) -> Option<Seq<u8>> {
    if well_framed(frame) {
        Some(Seq::new((frame.len() - 2) as nat, |i: int| restored_byte(frame, i + 1)))
    } else {
        None
    }
}

/// A walk only moves forward: it never comes to a position before its start.
pub proof fn lemma_walk_moves_forward(frame: Seq<u8>, from: int, index: int)
    requires
        walk_visits(frame, from, index),
    ensures
        from <= index < frame.len(),
    decreases room(frame, from),
{
    if index != from {
        lemma_walk_moves_forward(frame, from + frame[from], index);
    }
}

/// Undoes the byte stuffing of one frame.
///
/// Returns the payload when the frame is well framed and `None` otherwise,
/// in particular for an empty frame, for the lone delimiter, and for a frame
/// whose last byte is not the delimiter.
pub fn dec_cobs(cobs_bytes: &[u8]) -> (payload: Option<Vec<u8>>)
    ensures
        match unstuffed(cobs_bytes@) {
            Some(expected) => payload matches Some(bytes) && bytes@ == expected,
            None => payload is None,
        },
        cobs_bytes@.len() < 2 ==> payload is None,
        cobs_bytes@.len() > 0 && cobs_bytes@.last() != 0 ==> payload is None,
        payload matches Some(bytes) ==> bytes@.len() == cobs_bytes@.len() - 2,
{
    let len: usize = cobs_bytes.len();
    if len < 2 || cobs_bytes[len - 1] != 0 {
        return None;
    }
    let ghost frame: Seq<u8> = cobs_bytes@;
    let mut buffer: Vec<u8> = slice_to_vec(cobs_bytes);
    let mut cursor: usize = 0;
    let mut walking: bool = true;
    while walking
        invariant
            frame == cobs_bytes@,
            len == frame.len(),
            buffer@.len() == len,
            cursor < len,
            forall|j: int| 0 <= j < cursor ==> buffer@[j] == #[trigger] restored_byte(frame, j),
            forall|j: int| cursor <= j < len ==> #[trigger] buffer@[j] == frame[j],
            forall|j: int|
                cursor <= j < len ==> #[trigger] walk_visits(frame, 0, j) == walk_visits(
                    frame,
                    cursor as int,
                    j,
                ),
            walk_lands(frame, 0) == walk_lands(frame, cursor as int),
            !walking ==> frame[cursor as int] == 0,
        decreases len - cursor + (if walking { 1int } else { 0int }),
    {
        let offset: u8 = buffer[cursor];
        if offset == 0 {
            walking = false;
        } else {
            if offset as usize >= len - cursor {
                assert(!walk_lands(frame, cursor + offset));
                return None;
            }
            let next: usize = cursor + offset as usize;
            proof {
                assert(walk_visits(frame, cursor as int, cursor as int));
                assert forall|j: int| cursor <= j < len implies walk_visits(frame, 0, j) == (j
                    == cursor || walk_visits(frame, next as int, j)) by {
                    assert(walk_visits(frame, 0, j) == walk_visits(frame, cursor as int, j));
                }
                assert forall|j: int| cursor < j < next implies !walk_visits(frame, 0, j) by {
                    if walk_visits(frame, next as int, j) {
                        lemma_walk_moves_forward(frame, next as int, j);
                    }
                }
            }
            buffer[cursor] = 0;
            cursor = next;
        }
    }
    let kept: &[u8] = slice_subrange(buffer.as_slice(), 1, len - 1);
    let payload: Vec<u8> = slice_to_vec(kept);
    proof {
        assert forall|j: int| 0 <= j < len implies buffer@[j] == restored_byte(frame, j) by {
            assert(walk_visits(frame, 0, j) == walk_visits(frame, cursor as int, j) || j < cursor);
        }
        assert(payload@ =~= unstuffed(frame)->0);
    }
    Some(payload)
}

/// The payload is that of a digital event: one byte whose kind bit is clear.
pub open spec fn is_digital_payload(payload: Seq<u8>) -> bool {
    payload.len() == 1 && payload[0] & KIND_BIT == 0
}

/// The payload is that of an analog event: two bytes, the kind bit of the
/// first one set.
pub open spec fn is_analog_payload(payload: Seq<u8>) -> bool {
    payload.len() == 2 && payload[0] & KIND_BIT != 0
}

/// The payload has one of the two shapes that stand for an event.
pub open spec fn is_event_payload(payload: Seq<u8>) -> bool {
    is_digital_payload(payload) || is_analog_payload(payload)
}

/// The digital event that the byte `first` stands for, stamped with
/// `timestamp_micros`.
pub open spec fn digital_event(first: u8, timestamp_micros: i64) -> SwitchInfo {
    SwitchInfo {
        kind: SwitchKind::Digital,
        pin: (first & DIGITAL_PIN_MASK) >> 1,
        state: (first & 1) as u16,
        timestamp_micros,
    }
}

/// The analog event that the bytes `first` and `second` stand for, stamped
/// with `timestamp_micros`.
pub open spec fn analog_event(first: u8, second: u8, timestamp_micros: i64) -> SwitchInfo {
    SwitchInfo {
        kind: SwitchKind::Analog,
        pin: (first & ANALOG_PIN_MASK) >> 2,
        state: ((first as u16 & 0b11) << 8) | second as u16,
        timestamp_micros,
    }
}

/// The event that a payload stands for when decoded at `timestamp_micros`,
/// if it has the shape of one.
pub open spec fn parsed(payload: Seq<u8>, timestamp_micros: i64) -> Option<SwitchInfo> {
    if is_digital_payload(payload) {
        Some(digital_event(payload[0], timestamp_micros))
    } else if is_analog_payload(payload) {
        Some(analog_event(payload[0], payload[1], timestamp_micros))
    } else {
        None
    }
}

/// The stage at which decoding turns a frame down, if it does: framing when
/// the frame cannot be unstuffed, shape when its payload is not that of an
/// event. The clock plays no part in it.
pub open spec fn decode_failure(frame: Seq<u8>) -> Option<DecodeError> {
    match unstuffed(frame) {
        None => Some(DecodeError::Framing),
        Some(payload) => if is_event_payload(payload) {
            None
        } else {
            Some(DecodeError::Shape)
        },
    }
}

/// What decoding a whole frame at `timestamp_micros` gives: the event that
/// its payload stands for, or the stage at which the frame was turned down.
pub open spec fn decoded(frame: Seq<u8>, timestamp_micros: i64) -> Result<SwitchInfo, DecodeError> {
    match decode_failure(frame) {
        Some(error) => Err(error),
        None => Ok(parsed(unstuffed(frame)->0, timestamp_micros)->0),
    }
}

/// Every event that a payload can stand for keeps its pin and its state
/// inside the ranges of its kind.
pub proof fn lemma_parsed_in_range(payload: Seq<u8>, timestamp_micros: i64)
    ensures
        parsed(payload, timestamp_micros) matches Some(info) ==> info.in_range(),
{
    if payload.len() >= 1 {
        let first: u8 = payload[0];
        assert((first & 0b0111_1110) >> 1 <= 63) by (bit_vector);
        assert((first & 1) as u16 <= 1) by (bit_vector);
        assert((first & 0b0111_1100) >> 2 <= 31) by (bit_vector);
        if payload.len() >= 2 {
            let second: u8 = payload[1];
            assert((((first as u16 & 0b11) << 8) | second as u16) <= 1023) by (bit_vector);
        }
    }
}

/// Parsing is a function of the payload alone: whether a payload parses, and
/// the kind, pin and state that come out, are the same whenever it is parsed.
/// Two parses of the same bytes differ in their timestamps at most.
pub proof fn lemma_parse_ignores_clock(payload: Seq<u8>, first_time: i64, second_time: i64)
    ensures
        parsed(payload, first_time) is Some <==> parsed(payload, second_time) is Some,
        parsed(payload, first_time) matches Some(first) ==> parsed(payload, second_time) matches Some(
            second,
        ) && first.same_reading(&second),
        parsed(payload, first_time) matches Some(first) ==> first.timestamp_micros == first_time,
{
}

/// Decoding is a function of the frame alone: whether a frame decodes, the
/// error if it does not, and the kind, pin and state if it does, are the same
/// whenever it is decoded.
pub proof fn lemma_decode_ignores_clock(frame: Seq<u8>, first_time: i64, second_time: i64)
    ensures
        match decoded(frame, first_time) {
            Ok(first) => decoded(frame, second_time) matches Ok(second) && first.same_reading(
                &second,
            ),
            Err(error) => decoded(frame, second_time) == Err::<SwitchInfo, DecodeError>(error),
        },
{
}

/// Parses the payload of one frame into the event it stands for, stamped
/// with the time `timestamp_micros` that the caller read from its clock.
///
/// The kind bit of the first byte picks the shape. A digital payload is one
/// byte, an analog payload two; any other length, the empty payload included,
/// gives `None`.
pub fn raw_to_switch_info_at(bytes: &[u8], timestamp_micros: i64) -> (info: Option<SwitchInfo>)
    ensures
        info == parsed(bytes@, timestamp_micros),
        info is Some <==> is_event_payload(bytes@),
        info matches Some(event) ==> event.in_range(),
{
    proof {
        lemma_parsed_in_range(bytes@, timestamp_micros);
    }
    if bytes.len() == 0 {
        return None;
    }
    let first: u8 = bytes[0];
    if first & KIND_BIT == 0 {
        if bytes.len() == 1 {
            Some(
                SwitchInfo {
                    kind: SwitchKind::Digital,
                    pin: (first & DIGITAL_PIN_MASK) >> 1,
                    state: (first & 1) as u16,
                    timestamp_micros,
                },
            )
        } else {
            None
        }
    } else {
        if bytes.len() == 2 {
            let second: u8 = bytes[1];
            Some(
                SwitchInfo {
                    kind: SwitchKind::Analog,
                    pin: (first & ANALOG_PIN_MASK) >> 2,
                    state: ((first as u16 & 0b11) << 8) | second as u16,
                    timestamp_micros,
                },
            )
        } else {
            None
        }
    }
}

/// The host clock, in microseconds since the Unix epoch.
///
/// Reads the clock with `std::time::SystemTime::now()`, turns the reading
/// into a `chrono::DateTime<Utc>` with chrono's `From<SystemTime>`, and
/// takes its `timestamp_micros()`. Nothing is claimed of the value: it is
/// whatever the clock says at the moment of the call, and two calls may
/// differ. A clock that reads earlier than 1970 gives a negative count; the
/// conversion has an arm of its own for it. The conversion gives up only on
/// a reading that chrono has no date for, some 262,000 years away from 1970.
#[verifier::external_body]
fn now_micros() -> (micros: i64) {
    chrono::DateTime::<chrono::Utc>::from(std::time::SystemTime::now()).timestamp_micros()
}

/// Parses the payload of one frame into the event it stands for, stamped
/// with the host time at the moment of the call.
///
/// Which payloads parse, and the kind, pin and state that come out, depend on
/// the bytes alone; only the timestamp comes from the clock. The clock is
/// read once the payload has parsed, and not at all for a payload that is
/// turned down.
pub fn raw_to_switch_info(bytes: &[u8]) -> (info: Option<SwitchInfo>)
    ensures
        info is Some <==> is_event_payload(bytes@),
        info matches Some(event) ==> info == parsed(bytes@, event.timestamp_micros),
        info matches Some(event) ==> event.in_range(),
{
    match raw_to_switch_info_at(bytes, 0) {
        None => None,
        Some(event) => Some(
            SwitchInfo {
                kind: event.kind,
                pin: event.pin,
                state: event.state,
                timestamp_micros: now_micros(),
            },
        ),
    }
}

/// Decodes one frame into the event it carries, stamped with the time
/// `timestamp_micros` that the caller read from its clock.
///
/// The frame is unstuffed and its payload parsed. A frame that cannot be
/// unstuffed gives `DecodeError::Framing`; one whose payload is not that of
/// an event gives `DecodeError::Shape`.
pub fn decode_frame_at(frame: &[u8], timestamp_micros: i64) -> (event: Result<
    SwitchInfo,
    DecodeError,
>)
    ensures
        event == decoded(frame@, timestamp_micros),
        event matches Ok(info) ==> info.in_range(),
{
    match dec_cobs(frame) {
        None => Err(DecodeError::Framing),
        Some(payload) => match raw_to_switch_info_at(payload.as_slice(), timestamp_micros) {
            None => Err(DecodeError::Shape),
            Some(info) => Ok(info),
        },
    }
}

/// Decodes one frame into the event it carries, stamped with the host time
/// at the moment of the call.
///
/// Whether the frame decodes, the error if it does not, and the kind, pin and
/// state if it does, depend on the bytes alone. The clock is read once the
/// frame has decoded, and not at all for a frame that is turned down.
pub fn decode_frame(frame: &[u8]) -> (event: Result<SwitchInfo, DecodeError>)
    ensures
        match decode_failure(frame@) {
            Some(error) => event == Err::<SwitchInfo, DecodeError>(error),
            None => event matches Ok(info) && event == decoded(frame@, info.timestamp_micros),
        },
        event matches Ok(info) ==> info.in_range(),
{
    match decode_frame_at(frame, 0) {
        Err(error) => Err(error),
        Ok(event) => Ok(
            SwitchInfo {
                kind: event.kind,
                pin: event.pin,
                state: event.state,
                timestamp_micros: now_micros(),
            },
        ),
    }
}

} // verus!
