//! The frame-level guarantees of the engine, proved once and for all over the
//! receiver model: a built frame is always accepted and reproduced exactly; a
//! frame corrupted in its payload or CRC is always rejected; leading garbage
//! that never shows the first start-marker byte cannot hide a following
//! frame; and a long inter-byte gap discards the partial frame.

use crate::communication::crc16::{lemma_crc16_append, lemma_crc16_detects_one_byte_change,
    spec_crc16, spec_crc16_byte};
use crate::communication::messaging::{Section, State};
use crate::communication::receiver::{rx_drain, rx_step, RxState};
use crate::communication::transfer::{spec_frame, spec_frame_header};
use crate::communication::handler::spec_dispatch;
use crate::protocol::display::DrawString;
use crate::protocol::{Data, DataType, Header, Ping};
use crate::system::DeviceType;
use vstd::bytes::*;
use vstd::prelude::*;

verus! {

/// The payload and CRC phases: from inside the data section, with `rest` the
/// payload bytes still owed and `lo`, `hi` the trailing CRC bytes, the frame
/// loads exactly when the trailing CRC matches the accumulated one, and the
/// machine returns to `Ready` otherwise.
proof fn lemma_rx_data_end(s: RxState, rest: Seq<u8>, lo: u8, hi: u8, now: u64)
    requires
        s.state == State::Receiving,
        s.section == Section::Data,
        s.time_receive_start == now,
        1 <= s.header.length,
        s.section_old == Section::Data ==> 0 <= s.index < s.header.length && rest.len()
            == s.header.length - s.index,
        s.section_old != Section::Data ==> rest.len() == s.header.length,
    ensures
        ({
            let q = rest + seq![lo, hi];
            let r = rx_drain(s, q, now);
            let crc_final = spec_crc16(s.crc16_calculated, rest);
            &&& r.1 == Seq::<u8>::empty()
            &&& if spec_u16_from_le_bytes(seq![lo, hi]) == crc_final {
                &&& r.0.state == State::Loaded
                &&& r.0.header == s.header
                &&& r.0.vec_data == s.vec_data + rest
                &&& r.0.vec_data_all == seq![0x0Au8, 0x55u8] + s.header.wire() + (s.vec_data
                    + rest) + seq![lo, hi]
            } else {
                r.0.state == State::Ready
            }
        }),
    decreases rest.len(),
{
    let q = rest + seq![lo, hi];
    assert(q[0] == rest[0]);
    let b = rest[0];
    let s1 = rx_step(s, b, now);
    let rest1 = rest.subrange(1, rest.len() as int);
    assert(q.subrange(1, q.len() as int) =~= rest1 + seq![lo, hi]);
    assert(rx_drain(s, q, now) == rx_drain(s1, rest1 + seq![lo, hi], now));
    assert(spec_crc16(s.crc16_calculated, rest) == spec_crc16(
        spec_crc16_byte(s.crc16_calculated, b),
        rest1,
    ));
    if rest.len() == 1 {
        // the last payload byte moves the machine to the CRC section
        assert(s1.section == Section::End);
        lemma_rx_end(s1, lo, hi, now);
        assert(s1.vec_data + rest1 =~= s1.vec_data);
        assert(s.vec_data.push(b) =~= s.vec_data + rest);
        assert(spec_crc16(s1.crc16_calculated, Seq::<u8>::empty()) == s1.crc16_calculated);
    } else {
        lemma_rx_data_end(s1, rest1, lo, hi, now);
        assert(s.vec_data.push(b) + rest1 =~= s.vec_data + rest);
    }
}

/// The CRC tail: in the `End` section, the two trailing bytes load the frame
/// exactly when they spell the accumulated CRC little-endian.
proof fn lemma_rx_end(s: RxState, lo: u8, hi: u8, now: u64)
    requires
        s.state == State::Receiving,
        s.section == Section::End,
        s.section_old != Section::End,
        s.time_receive_start == now,
    ensures
        ({
            let r = rx_drain(s, seq![lo, hi], now);
            &&& r.1 == Seq::<u8>::empty()
            &&& if spec_u16_from_le_bytes(seq![lo, hi]) == s.crc16_calculated {
                &&& r.0.state == State::Loaded
                &&& r.0.header == s.header
                &&& r.0.vec_data == s.vec_data
                &&& r.0.vec_data_all == seq![0x0Au8, 0x55u8] + s.header.wire() + s.vec_data
                    + seq![lo, hi]
            } else {
                r.0.state == State::Ready
            }
        }),
{
    let q = seq![lo, hi];
    let s1 = rx_step(s, lo, now);
    assert(q[0] == lo);
    assert(q.subrange(1, 2) =~= seq![hi]);
    assert(rx_drain(s, q, now) == rx_drain(s1, seq![hi], now));
    assert(s1.crc16 == lo as u16);
    let s2 = rx_step(s1, hi, now);
    assert(seq![hi][0] == hi);
    assert(seq![hi].subrange(1, 1) =~= Seq::<u8>::empty());
    assert(rx_drain(s1, seq![hi], now) == rx_drain(s2, Seq::<u8>::empty(), now));
    assert(rx_drain(s2, Seq::<u8>::empty(), now) == (s2, Seq::<u8>::empty()));
    assert(((lo as u16) as u8) == lo);
    assert(seq![(s1.crc16 as u8), hi] =~= seq![lo, hi]);
    if spec_u16_from_le_bytes(seq![lo, hi]) == s.crc16_calculated {
        lemma_auto_spec_u16_to_from_le_bytes();
        assert(spec_u16_to_le_bytes(spec_u16_from_le_bytes(seq![lo, hi])) == seq![lo, hi]);
        assert(s2.vec_data_all =~= seq![0x0Au8, 0x55u8] + s.header.wire() + s.vec_data + seq![
            lo,
            hi,
        ]);
    }
}

/// The whole frame, from `Ready`, with the header given byte by byte: the
/// frame loads exactly when the trailing CRC matches the one computed over
/// header and payload, and the machine returns to `Ready` otherwise.  Either
/// way every byte is consumed and no other frame is emitted.
proof fn lemma_rx_raw_frame(
    s: RxState,
    dt_b: u8,
    from_b: u8,
    to_b: u8,
    payload: Seq<u8>,
    lo: u8,
    hi: u8,
    now: u64,
)
    requires
        s.state == State::Ready,
        DataType::spec_is_defined(dt_b),
        DeviceType::spec_is_defined(from_b),
        DeviceType::spec_is_defined(to_b),
        payload.len() <= 255,
    ensures
        ({
            let len_b = payload.len() as u8;
            let hdr = seq![dt_b, len_b, from_b, to_b];
            let frame = seq![0x0Au8, 0x55u8] + hdr + payload + seq![lo, hi];
            let header = Header {
                data_type: DataType::spec_from_u8(dt_b),
                length: len_b,
                from: DeviceType::spec_from_u8(from_b),
                to: DeviceType::spec_from_u8(to_b),
            };
            let r = rx_drain(s, frame, now);
            &&& r.1 == Seq::<u8>::empty()
            &&& if spec_u16_from_le_bytes(seq![lo, hi]) == spec_crc16(0, hdr + payload) {
                &&& r.0.state == State::Loaded
                &&& r.0.header == header
                &&& r.0.vec_data == payload
                &&& r.0.vec_data_all == frame
            } else {
                r.0.state == State::Ready
            }
        }),
{
    let len_b = payload.len() as u8;
    let hdr = seq![dt_b, len_b, from_b, to_b];
    let frame = seq![0x0Au8, 0x55u8] + hdr + payload + seq![lo, hi];
    let header = Header {
        data_type: DataType::spec_from_u8(dt_b),
        length: len_b,
        from: DeviceType::spec_from_u8(from_b),
        to: DeviceType::spec_from_u8(to_b),
    };
    // the start marker and the four header bytes, one step each
    assert(frame[0] == 0x0A);
    let s1 = rx_step(s, 0x0A, now);
    let q1 = frame.subrange(1, frame.len() as int);
    assert(rx_drain(s, frame, now) == rx_drain(s1, q1, now));
    assert(q1[0] == 0x55);
    let s2 = rx_step(s1, 0x55, now);
    let q2 = q1.subrange(1, q1.len() as int);
    assert(rx_drain(s1, q1, now) == rx_drain(s2, q2, now));
    assert(q2[0] == dt_b);
    let s3 = rx_step(s2, dt_b, now);
    let q3 = q2.subrange(1, q2.len() as int);
    assert(rx_drain(s2, q2, now) == rx_drain(s3, q3, now));
    assert(q3[0] == len_b);
    let s4 = rx_step(s3, len_b, now);
    let q4 = q3.subrange(1, q3.len() as int);
    assert(rx_drain(s3, q3, now) == rx_drain(s4, q4, now));
    assert(q4[0] == from_b);
    let s5 = rx_step(s4, from_b, now);
    let q5 = q4.subrange(1, q4.len() as int);
    assert(rx_drain(s4, q4, now) == rx_drain(s5, q5, now));
    assert(q5[0] == to_b);
    let s6 = rx_step(s5, to_b, now);
    let q6 = q5.subrange(1, q5.len() as int);
    assert(rx_drain(s5, q5, now) == rx_drain(s6, q6, now));
    assert(q6 =~= payload + seq![lo, hi]);
    assert(s6.header == header);
    // the CRC accumulated over the header bytes, step by step
    assert(hdr.subrange(1, 4) =~= seq![len_b, from_b, to_b]);
    assert(seq![len_b, from_b, to_b].subrange(1, 3) =~= seq![from_b, to_b]);
    assert(seq![from_b, to_b].subrange(1, 2) =~= seq![to_b]);
    assert(seq![to_b].subrange(1, 1) =~= Seq::<u8>::empty());
    let c1 = spec_crc16_byte(0, dt_b);
    let c2 = spec_crc16_byte(c1, len_b);
    let c3 = spec_crc16_byte(c2, from_b);
    let c4 = spec_crc16_byte(c3, to_b);
    assert(spec_crc16(0, hdr) == spec_crc16(c1, seq![len_b, from_b, to_b]));
    assert(spec_crc16(c1, seq![len_b, from_b, to_b]) == spec_crc16(c2, seq![from_b, to_b]));
    assert(spec_crc16(c2, seq![from_b, to_b]) == spec_crc16(c3, seq![to_b]));
    assert(spec_crc16(c3, seq![to_b]) == spec_crc16(c4, Seq::<u8>::empty()));
    assert(spec_crc16(c4, Seq::<u8>::empty()) == c4);
    assert(spec_crc16(0, hdr) == s6.crc16_calculated);
    lemma_crc16_append(0, hdr, payload);
    // the header wire image is exactly the four bytes consumed
    DataType::spec_from_u8(dt_b).lemma_code_roundtrip();
    DeviceType::spec_from_u8(from_b).lemma_code_roundtrip();
    DeviceType::spec_from_u8(to_b).lemma_code_roundtrip();
    assert(header.wire() =~= hdr);
    if payload.len() == 0 {
        assert(s6.section == Section::End);
        assert(q6 =~= seq![lo, hi]);
        lemma_rx_end(s6, lo, hi, now);
        assert(hdr + payload =~= hdr);
        assert(s6.vec_data =~= payload);
        assert(seq![0x0Au8, 0x55u8] + header.wire() + s6.vec_data + seq![lo, hi] =~= frame);
    } else {
        assert(s6.section == Section::Data);
        assert(s6.section_old == Section::Header);
        lemma_rx_data_end(s6, payload, lo, hi, now);
        assert(s6.vec_data + payload =~= payload);
        assert(seq![0x0Au8, 0x55u8] + header.wire() + (s6.vec_data + payload) + seq![lo, hi]
            =~= frame);
    }
}

/// Frame round-trip: a frame built by the transfer layer, pushed byte for
/// byte into a ready receiver, always loads, and loads exactly the header and
/// payload it was built from, with the raw frame kept aside unchanged.
pub proof fn lemma_frame_roundtrip(
    s: RxState,
    data_type: DataType,
    from: DeviceType,
    to: DeviceType,
    payload: Seq<u8>,
    now: u64,
)
    requires
        s.state == State::Ready,
        payload.len() <= 255,
    ensures
        ({
            let frame = spec_frame(data_type, from, to, payload);
            let r = rx_drain(s, frame, now);
            &&& r.0.state == State::Loaded
            &&& r.0.header == (Header {
                data_type,
                length: payload.len() as u8,
                from,
                to,
            })
            &&& r.0.vec_data == payload
            &&& r.0.vec_data_all == frame
            &&& r.1 == Seq::<u8>::empty()
        }),
{
    let hdr = spec_frame_header(data_type, from, to, payload);
    let body = hdr + payload;
    let crc = spec_crc16(0, body);
    crate::wire::lemma_u16_le_bytes_roundtrip(crc);
    let crc_bytes = spec_u16_to_le_bytes(crc);
    let lo = crc_bytes[0];
    let hi = crc_bytes[1];
    assert(crc_bytes =~= seq![lo, hi]);
    data_type.lemma_code_roundtrip();
    from.lemma_code_roundtrip();
    to.lemma_code_roundtrip();
    lemma_rx_raw_frame(s, data_type.code(), from.code(), to.code(), payload, lo, hi, now);
    assert(spec_frame(data_type, from, to, payload) =~= seq![0x0Au8, 0x55u8] + seq![
        data_type.code(),
        payload.len() as u8,
        from.code(),
        to.code(),
    ] + payload + seq![lo, hi]);
    assert(seq![data_type.code(), payload.len() as u8, from.code(), to.code()] =~= hdr);
}

/// CRC soundness: change any single byte (so in particular flip any single
/// bit) of a valid frame's payload or CRC tail, and the receiver consumes the
/// whole frame without ever loading it, ending back at `Ready`.
pub proof fn lemma_corrupted_frame_rejected(
    s: RxState,
    data_type: DataType,
    from: DeviceType,
    to: DeviceType,
    payload: Seq<u8>,
    i: int,
    bad: u8,
    now: u64,
)
    requires
        s.state == State::Ready,
        payload.len() <= 255,
        6 <= i < spec_frame(data_type, from, to, payload).len(),
        bad != spec_frame(data_type, from, to, payload)[i],
    ensures
        ({
            let corrupted = spec_frame(data_type, from, to, payload).update(i, bad);
            let r = rx_drain(s, corrupted, now);
            &&& r.0.state == State::Ready
            &&& r.1 == Seq::<u8>::empty()
        }),
{
    let hdr = spec_frame_header(data_type, from, to, payload);
    let body = hdr + payload;
    let crc = spec_crc16(0, body);
    crate::wire::lemma_u16_le_bytes_roundtrip(crc);
    let crc_bytes = spec_u16_to_le_bytes(crc);
    let lo = crc_bytes[0];
    let hi = crc_bytes[1];
    assert(crc_bytes =~= seq![lo, hi]);
    let frame = spec_frame(data_type, from, to, payload);
    let n = payload.len() as int;
    assert(frame.len() == 8 + n);
    let corrupted = frame.update(i, bad);
    data_type.lemma_code_roundtrip();
    from.lemma_code_roundtrip();
    to.lemma_code_roundtrip();
    lemma_auto_spec_u16_to_from_le_bytes();
    if i < 6 + n {
        // a payload byte changed: the accumulated CRC moves, the trailing one
        // does not
        let payload2 = payload.update(i - 6, bad);
        assert(corrupted =~= seq![0x0Au8, 0x55u8] + seq![
            data_type.code(),
            payload.len() as u8,
            from.code(),
            to.code(),
        ] + payload2 + seq![lo, hi]);
        lemma_rx_raw_frame(
            s,
            data_type.code(),
            from.code(),
            to.code(),
            payload2,
            lo,
            hi,
            now,
        );
        let hdr2 = seq![data_type.code(), payload.len() as u8, from.code(), to.code()];
        assert(hdr2 =~= hdr);
        let body2 = hdr + payload2;
        assert(body2.len() == body.len());
        assert(body2[4 + (i - 6)] != body[4 + (i - 6)]);
        assert(forall|j: int| 0 <= j < body.len() && j != 4 + (i - 6) ==> body2[j] == body[j]);
        lemma_crc16_detects_one_byte_change(0, body, body2, 4 + (i - 6));
        assert(spec_u16_from_le_bytes(seq![lo, hi]) == crc);
        assert(hdr2 + payload2 =~= body2);
    } else {
        // a CRC byte changed: the accumulated CRC stays, the trailing one
        // cannot spell it any more
        let lo2 = if i == 6 + n {
            bad
        } else {
            lo
        };
        let hi2 = if i == 7 + n {
            bad
        } else {
            hi
        };
        assert(corrupted =~= seq![0x0Au8, 0x55u8] + seq![
            data_type.code(),
            payload.len() as u8,
            from.code(),
            to.code(),
        ] + payload + seq![lo2, hi2]);
        lemma_rx_raw_frame(
            s,
            data_type.code(),
            from.code(),
            to.code(),
            payload,
            lo2,
            hi2,
            now,
        );
        assert(seq![data_type.code(), payload.len() as u8, from.code(), to.code()] + payload
            =~= body);
        if spec_u16_from_le_bytes(seq![lo2, hi2]) == crc {
            assert(spec_u16_to_le_bytes(spec_u16_from_le_bytes(seq![lo2, hi2])) =~= seq![
                lo2,
                hi2,
            ]);
            assert(seq![lo2, hi2] =~= seq![lo, hi]);
            assert(false);
        }
    }
}

/// CRC soundness for the addressing bytes of the header: change the kind
/// byte, the sender byte or the addressee byte of a valid frame to a
/// different byte that still names a defined code, and the CRC still catches
/// it: the receiver consumes the whole frame without ever loading it.
pub proof fn lemma_corrupted_header_rejected(
    s: RxState,
    data_type: DataType,
    from: DeviceType,
    to: DeviceType,
    payload: Seq<u8>,
    i: int,
    bad: u8,
    now: u64,
)
    requires
        s.state == State::Ready,
        payload.len() <= 255,
        i == 2 || i == 4 || i == 5,
        bad != spec_frame(data_type, from, to, payload)[i],
        i == 2 ==> DataType::spec_is_defined(bad),
        i == 4 || i == 5 ==> DeviceType::spec_is_defined(bad),
    ensures
        ({
            let corrupted = spec_frame(data_type, from, to, payload).update(i, bad);
            let r = rx_drain(s, corrupted, now);
            &&& r.0.state == State::Ready
            &&& r.1 == Seq::<u8>::empty()
        }),
{
    let hdr = spec_frame_header(data_type, from, to, payload);
    let body = hdr + payload;
    let crc = spec_crc16(0, body);
    crate::wire::lemma_u16_le_bytes_roundtrip(crc);
    let crc_bytes = spec_u16_to_le_bytes(crc);
    let lo = crc_bytes[0];
    let hi = crc_bytes[1];
    assert(crc_bytes =~= seq![lo, hi]);
    let frame = spec_frame(data_type, from, to, payload);
    let corrupted = frame.update(i, bad);
    data_type.lemma_code_roundtrip();
    from.lemma_code_roundtrip();
    to.lemma_code_roundtrip();
    let dt_b = if i == 2 {
        bad
    } else {
        data_type.code()
    };
    let from_b = if i == 4 {
        bad
    } else {
        from.code()
    };
    let to_b = if i == 5 {
        bad
    } else {
        to.code()
    };
    let hdr2 = seq![dt_b, payload.len() as u8, from_b, to_b];
    assert(corrupted =~= seq![0x0Au8, 0x55u8] + hdr2 + payload + seq![lo, hi]);
    lemma_rx_raw_frame(s, dt_b, from_b, to_b, payload, lo, hi, now);
    let body2 = hdr2 + payload;
    assert(body2.len() == body.len());
    assert(body2[i - 2] != body[i - 2]);
    assert(forall|j: int| 0 <= j < body.len() && j != i - 2 ==> body2[j] == body[j]);
    lemma_crc16_detects_one_byte_change(0, body, body2, i - 2);
    assert(spec_u16_from_le_bytes(seq![lo, hi]) == crc);
}

/// Resync: garbage bytes in front of a frame are discarded one by one as long
/// as none of them is the first start-marker byte, and the following frame
/// then loads exactly as it would alone.
pub proof fn lemma_resync_after_garbage(
    s: RxState,
    garbage: Seq<u8>,
    data_type: DataType,
    from: DeviceType,
    to: DeviceType,
    payload: Seq<u8>,
    now: u64,
)
    requires
        s.state == State::Ready,
        forall|i: int| 0 <= i < garbage.len() ==> garbage[i] != 0x0A,
        payload.len() <= 255,
    ensures
        ({
            let frame = spec_frame(data_type, from, to, payload);
            let r = rx_drain(s, garbage + frame, now);
            &&& r.0.state == State::Loaded
            &&& r.0.header == (Header {
                data_type,
                length: payload.len() as u8,
                from,
                to,
            })
            &&& r.0.vec_data == payload
            &&& r.1 == Seq::<u8>::empty()
        }),
    decreases garbage.len(),
{
    if garbage.len() == 0 {
        assert(garbage + spec_frame(data_type, from, to, payload) =~= spec_frame(
            data_type,
            from,
            to,
            payload,
        ));
        lemma_frame_roundtrip(s, data_type, from, to, payload, now);
    } else {
        let b = garbage[0];
        let s1 = rx_step(s, b, now);
        assert(s1.state == State::Ready);
        let garbage1 = garbage.subrange(1, garbage.len() as int);
        lemma_resync_after_garbage(s1, garbage1, data_type, from, to, payload, now);
        assert((garbage + spec_frame(data_type, from, to, payload))[0] == b);
        assert((garbage + spec_frame(data_type, from, to, payload)).subrange(
            1,
            (garbage + spec_frame(data_type, from, to, payload)).len() as int,
        ) =~= garbage1 + spec_frame(data_type, from, to, payload));
        assert(rx_drain(s, garbage + spec_frame(data_type, from, to, payload), now) == rx_drain(
            s1,
            garbage1 + spec_frame(data_type, from, to, payload),
            now,
        ));
    }
}

/// Frame round-trip, taken through the dispatcher: whatever the dispatcher
/// answers for the frame built from a Ping payload is exactly that Ping
/// value.  The same argument composes for every other payload kind, from its
/// own wire round-trip lemma and the dispatcher's contract.
pub proof fn lemma_ping_frame_dispatch(
    s: RxState,
    v: Ping,
    from: DeviceType,
    to: DeviceType,
    d: Data,
    now: u64,
)
    requires
        s.state == State::Ready,
        ({
            let drained = rx_drain(s, spec_frame(DataType::Ping, from, to, v.wire()), now);
            spec_dispatch(d, drained.0.header, drained.0.vec_data)
        }),
    ensures
        d matches Data::Ping(p) && p == v,
{
    v.lemma_wire_roundtrip();
    lemma_frame_roundtrip(s, DataType::Ping, from, to, v.wire(), now);
}

/// The same composition for a variable-size payload: whatever the dispatcher
/// answers for the frame built from a DrawString payload carries exactly its
/// coordinates, font, pixel and text bytes.
pub proof fn lemma_draw_string_frame_dispatch(
    s: RxState,
    v: DrawString,
    from: DeviceType,
    to: DeviceType,
    d: Data,
    now: u64,
)
    requires
        s.state == State::Ready,
        1 <= v.string@.len() <= 249,
        ({
            let frame = spec_frame(DataType::DisplayDrawString, from, to, v.wire());
            let drained = rx_drain(s, frame, now);
            spec_dispatch(d, drained.0.header, drained.0.vec_data)
        }),
    ensures
        d matches Data::DisplayDrawString(w) && {
            &&& w.x == v.x
            &&& w.y == v.y
            &&& w.font == v.font
            &&& w.pixel == v.pixel
            &&& w.string@ == v.string@
        },
{
    v.lemma_wire_roundtrip();
    lemma_frame_roundtrip(s, DataType::DisplayDrawString, from, to, v.wire(), now);
}

/// Stall: a byte that arrives while a partial frame is more than 30 ms old is
/// handled as if the machine had first been reset to wait for a fresh start
/// marker; the partial frame is gone.
pub proof fn lemma_stall_discards_partial_frame(s: RxState, b: u8, now: u64)
    requires
        s.state == State::Receiving,
        now > s.time_receive_start + 30,
    ensures
        rx_step(s, b, now) == rx_step(
            RxState { state: State::Ready, section: Section::Start, index: 0, ..s },
            b,
            now,
        ),
{
}

} // verus!
