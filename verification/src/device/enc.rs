//! Byte stuffing: the encoding that `dec_cobs` undoes, and the proof that it
//! does.
//!
//! Stuffing puts an offset byte in front of the payload, writes in place of
//! every zero of the payload the distance to the next one, and closes the
//! frame with the `0x00` delimiter. The offset in front leads to the first
//! zero and the last offset leads to the delimiter, so a frame holds no zero
//! but its last byte.

use crate::device::dec::{
    decoded, is_event_payload, lemma_walk_moves_forward, parsed, restored_byte, unstuffed,
    walk_lands, walk_visits, well_framed, DecodeError,
};
use crate::device::switch::SwitchInfo;
use vstd::prelude::*;

verus! {

/// Largest distance that one offset byte can span.
pub const OFFSET_MAX: usize = 255;

/// Index of the first zero of `payload` at or after `from`, or the length of
/// `payload` where no zero follows.
pub open spec fn next_zero(payload: Seq<u8>, from: int) -> int
    decreases payload.len() - from,
{
    if from < 0 || from >= payload.len() {
        payload.len() as int
    } else if payload[from] == 0 {
        from
    } else {
        next_zero(payload, from + 1)
    }
}

/// Position `at` of the frame of `payload` holds an offset: it is the
/// leading byte, or it stands for a zero of the payload.
pub open spec fn holds_offset(payload: Seq<u8>, at: int) -> bool {
    at == 0 || (1 <= at <= payload.len() && payload[at - 1] == 0)
}

/// The offset that position `at` of the frame of `payload` gets: the
/// distance to the position of the next zero of the payload, or to the
/// delimiter.
pub open spec fn offset_at(payload: Seq<u8>, at: int) -> int {
    next_zero(payload, at) + 1 - at
}

/// Every offset that the frame of `payload` needs fits in one byte.
pub open spec fn stuffable(payload: Seq<u8>) -> bool {
    forall|at: int|
        0 <= at <= payload.len() && holds_offset(payload, at) ==> #[trigger] offset_at(payload, at)
            <= OFFSET_MAX
}

/// The byte at position `at` of the frame of `payload`.
pub open spec fn stuffed_byte(payload: Seq<u8>, at: int) -> u8 {
    if at == payload.len() + 1 {
        0u8
    } else if holds_offset(payload, at) {
        offset_at(payload, at) as u8
    } else {
        payload[at - 1]
    }
}

/// The frame of `payload`: a leading offset, the payload with its zeros
/// replaced by offsets, and the delimiter.
pub open spec fn stuffed(payload: Seq<u8>) -> Seq<u8> {
    Seq::new(payload.len() + 2, |at: int| stuffed_byte(payload, at))
}

/// `next_zero` gives a position inside the payload or its length, no byte
/// before it is zero, and the byte at it is.
pub proof fn lemma_next_zero(payload: Seq<u8>, from: int)
    requires
        0 <= from <= payload.len(),
    ensures
        from <= next_zero(payload, from) <= payload.len(),
        forall|k: int| from <= k < next_zero(payload, from) ==> payload[k] != 0,
        next_zero(payload, from) < payload.len() ==> payload[next_zero(payload, from)] == 0,
    decreases payload.len() - from,
{
    if from < payload.len() && payload[from] != 0 {
        lemma_next_zero(payload, from + 1);
    }
}

/// A zero-free stretch of the payload that ends in a zero, or at the end of
/// the payload, is what `next_zero` finds.
pub proof fn lemma_next_zero_is(payload: Seq<u8>, from: int, zero: int)
    requires
        0 <= from <= zero <= payload.len(),
        forall|k: int| from <= k < zero ==> payload[k] != 0,
        zero < payload.len() ==> payload[zero] == 0,
    ensures
        next_zero(payload, from) == zero,
    decreases zero - from,
{
    if from < zero {
        lemma_next_zero_is(payload, from + 1, zero);
    }
}

/// A payload with no more bytes than one offset can span is stuffable.
pub proof fn lemma_short_payload_is_stuffable(payload: Seq<u8>)
    requires
        payload.len() < OFFSET_MAX,
    ensures
        stuffable(payload),
{
    assert forall|at: int|
        0 <= at <= payload.len() && holds_offset(payload, at) implies #[trigger] offset_at(
        payload,
        at,
    ) <= OFFSET_MAX by {
        lemma_next_zero(payload, at);
    }
}

/// In the frame of a stuffable payload, the walk that starts on an offset
/// comes by every later offset and by the delimiter, by nothing else, and
/// ends on the delimiter.
proof fn lemma_walk_follows_offsets(payload: Seq<u8>, from: int)
    requires
        stuffable(payload),
        0 <= from <= payload.len() + 1,
        holds_offset(payload, from) || from == payload.len() + 1,
    ensures
        walk_lands(stuffed(payload), from),
        forall|at: int|
            from <= at <= payload.len() + 1 ==> (#[trigger] walk_visits(stuffed(payload), from, at)
                <==> holds_offset(payload, at) || at == payload.len() + 1),
    decreases payload.len() + 1 - from,
{
    let frame = stuffed(payload);
    if from <= payload.len() {
        lemma_next_zero(payload, from);
        let offset = offset_at(payload, from);
        assert(offset <= OFFSET_MAX);
        assert(frame[from] == offset);
        let next = from + offset;
        lemma_walk_follows_offsets(payload, next);
        assert forall|at: int| from <= at <= payload.len() + 1 implies (#[trigger] walk_visits(
            frame,
            from,
            at,
        ) <==> holds_offset(payload, at) || at == payload.len() + 1) by {
            if at == from {
                assert(walk_visits(frame, from, at));
            } else if at < next {
                if walk_visits(frame, next, at) {
                    lemma_walk_moves_forward(frame, next, at);
                }
                assert(!walk_visits(frame, from, at));
                assert(payload[at - 1] != 0);
            } else {
                assert(walk_visits(frame, from, at) == walk_visits(frame, next, at));
            }
        }
    }
}

/// Unstuffing inverts stuffing: the frame of a stuffable payload is well
/// framed, and unstuffing it gives the payload back, byte for byte.
pub proof fn lemma_unstuff_inverts_stuff(payload: Seq<u8>)
    requires
        stuffable(payload),
    ensures
        well_framed(stuffed(payload)),
        unstuffed(stuffed(payload)) == Some(payload),
{
    let frame = stuffed(payload);
    lemma_walk_follows_offsets(payload, 0);
    assert forall|i: int| 0 <= i < payload.len() implies restored_byte(frame, i + 1)
        == payload[i] by {
        assert(walk_visits(frame, 0, i + 1) <==> holds_offset(payload, i + 1));
    }
    assert(unstuffed(frame)->0 =~= payload);
}

/// The round trip of an event: stuffing the one-byte payload of a digital
/// event, or the two-byte payload of an analog one, and unstuffing the frame
/// gives the payload back, and decoding the frame gives the event that the
/// payload stands for.
pub proof fn lemma_event_round_trip(payload: Seq<u8>, timestamp_micros: i64)
    requires
        is_event_payload(payload),
    ensures
        stuffable(payload),
        unstuffed(stuffed(payload)) == Some(payload),
        parsed(payload, timestamp_micros) matches Some(event) && decoded(
            stuffed(payload),
            timestamp_micros,
        ) == Ok::<SwitchInfo, DecodeError>(event),
{
    lemma_short_payload_is_stuffable(payload);
    lemma_unstuff_inverts_stuff(payload);
}

/// Stuffs one payload into a frame.
///
/// Returns the frame when every offset fits in one byte, and `None` when the
/// payload holds a stretch of 255 or more bytes without a zero, for which
/// this framing has no encoding.
pub fn enc_cobs(payload: &[u8]) -> (frame: Option<Vec<u8>>)
    requires
        payload@.len() + 2 <= usize::MAX,
    ensures
        match frame {
            Some(bytes) => stuffable(payload@) && bytes@ == stuffed(payload@),
            None => !stuffable(payload@),
        },
{
    let len: usize = payload.len();
    let mut frame: Vec<u8> = Vec::new();
    frame.push(0);
    let mut pending: usize = 0;
    let mut i: usize = 0;
    while i < len
        invariant
            len == payload@.len(),
            len + 2 <= usize::MAX,
            pending <= i <= len,
            frame@.len() == i + 1,
            holds_offset(payload@, pending as int),
            forall|k: int| pending <= k < i ==> payload@[k] != 0,
            forall|at: int|
                0 <= at <= i && at != pending ==> #[trigger] frame@[at] == stuffed_byte(
                    payload@,
                    at,
                ),
            forall|at: int|
                0 <= at < pending && holds_offset(payload@, at) ==> #[trigger] offset_at(
                    payload@,
                    at,
                ) <= OFFSET_MAX,
        decreases len - i,
    {
        let byte: u8 = payload[i];
        if byte == 0 {
            let offset: usize = i + 1 - pending;
            proof {
                lemma_next_zero_is(payload@, pending as int, i as int);
            }
            if offset > OFFSET_MAX {
                assert(offset_at(payload@, pending as int) > OFFSET_MAX);
                return None;
            }
            frame[pending] = offset as u8;
            pending = i + 1;
            frame.push(0);
        } else {
            frame.push(byte);
        }
        i += 1;
    }
    let offset: usize = len + 1 - pending;
    proof {
        lemma_next_zero_is(payload@, pending as int, len as int);
    }
    if offset > OFFSET_MAX {
        assert(offset_at(payload@, pending as int) > OFFSET_MAX);
        return None;
    }
    frame[pending] = offset as u8;
    frame.push(0);
    proof {
        assert forall|at: int|
            0 <= at <= payload@.len() && holds_offset(payload@, at) implies #[trigger] offset_at(
            payload@,
            at,
        ) <= OFFSET_MAX by {
            if at > pending {
                assert(payload@[at - 1] != 0);
            }
        }
        assert(frame@ =~= stuffed(payload@));
    }
    Some(frame)
}

} // verus!
