//! Little-endian encodings of the signed fixed-width integers, on top of the
//! unsigned encodings from `vstd::bytes`.  Every multi-byte value of the
//! protocol travels least-significant byte first; signed fields reuse the
//! unsigned encoding of their two's-complement bit pattern.

use vstd::bytes::*;
use vstd::prelude::*;

verus! {

pub open spec fn spec_i8_to_byte(x: i8) -> u8 {
    x as u8
}

pub open spec fn spec_i8_from_byte(b: u8) -> i8 {
    b as i8
}

pub open spec fn spec_i16_to_le_bytes(x: i16) -> Seq<u8> {
    spec_u16_to_le_bytes(x as u16)
}

pub open spec fn spec_i16_from_le_bytes(s: Seq<u8>) -> i16 {
    spec_u16_from_le_bytes(s) as i16
}

pub open spec fn spec_i32_to_le_bytes(x: i32) -> Seq<u8> {
    spec_u32_to_le_bytes(x as u32)
}

pub open spec fn spec_i32_from_le_bytes(s: Seq<u8>) -> i32 {
    spec_u32_from_le_bytes(s) as i32
}

pub open spec fn spec_i64_to_le_bytes(x: i64) -> Seq<u8> {
    spec_u64_to_le_bytes(x as u64)
}

pub open spec fn spec_i64_from_le_bytes(s: Seq<u8>) -> i64 {
    spec_u64_from_le_bytes(s) as i64
}

/// A boolean travels as one byte: zero is `false`, anything else is `true`.
pub open spec fn spec_bool_to_byte(x: bool) -> u8 {
    if x {
        1
    } else {
        0
    }
}

pub open spec fn spec_bool_from_byte(b: u8) -> bool {
    b != 0
}

pub proof fn lemma_u16_le_bytes_roundtrip(x: u16)
    ensures
        spec_u16_to_le_bytes(x).len() == 2,
        spec_u16_from_le_bytes(spec_u16_to_le_bytes(x)) == x,
{
    lemma_auto_spec_u16_to_from_le_bytes();
    assert(spec_u16_to_le_bytes(x).len() == 2);
}

pub proof fn lemma_u32_le_bytes_roundtrip(x: u32)
    ensures
        spec_u32_to_le_bytes(x).len() == 4,
        spec_u32_from_le_bytes(spec_u32_to_le_bytes(x)) == x,
{
    lemma_auto_spec_u32_to_from_le_bytes();
    assert(spec_u32_to_le_bytes(x).len() == 4);
}

pub proof fn lemma_u64_le_bytes_roundtrip(x: u64)
    ensures
        spec_u64_to_le_bytes(x).len() == 8,
        spec_u64_from_le_bytes(spec_u64_to_le_bytes(x)) == x,
{
    lemma_auto_spec_u64_to_from_le_bytes();
}

pub proof fn lemma_i8_byte_roundtrip(x: i8)
    ensures
        spec_i8_from_byte(spec_i8_to_byte(x)) == x,
{
    assert((x as u8) as i8 == x) by (bit_vector);
}

pub proof fn lemma_i16_le_bytes_roundtrip(x: i16)
    ensures
        spec_i16_to_le_bytes(x).len() == 2,
        spec_i16_from_le_bytes(spec_i16_to_le_bytes(x)) == x,
{
    lemma_auto_spec_u16_to_from_le_bytes();
    assert(spec_u16_to_le_bytes(x as u16).len() == 2);
    assert((x as u16) as i16 == x) by (bit_vector);
}

pub proof fn lemma_i32_le_bytes_roundtrip(x: i32)
    ensures
        spec_i32_to_le_bytes(x).len() == 4,
        spec_i32_from_le_bytes(spec_i32_to_le_bytes(x)) == x,
{
    lemma_auto_spec_u32_to_from_le_bytes();
    assert(spec_u32_to_le_bytes(x as u32).len() == 4);
    assert((x as u32) as i32 == x) by (bit_vector);
}

pub proof fn lemma_i64_le_bytes_roundtrip(x: i64)
    ensures
        spec_i64_to_le_bytes(x).len() == 8,
        spec_i64_from_le_bytes(spec_i64_to_le_bytes(x)) == x,
{
    lemma_auto_spec_u64_to_from_le_bytes();
    assert((x as u64) as i64 == x) by (bit_vector);
}

// Runs of equally typed values, used by payloads that carry short tables.

/// A run of i16 values encoded back-to-back little-endian.
pub open spec fn spec_i16s_to_le_bytes(v: Seq<i16>) -> Seq<u8>
    decreases v.len(),
{
    if v.len() == 0 {
        Seq::<u8>::empty()
    } else {
        spec_i16s_to_le_bytes(v.drop_last()) + spec_i16_to_le_bytes(v.last())
    }
}

/// The i16 values a run of bytes decodes to, two bytes each.
pub open spec fn spec_i16s_from_le_bytes(s: Seq<u8>) -> Seq<i16> {
    Seq::new((s.len() / 2) as nat, |j: int| spec_i16_from_le_bytes(s.subrange(2 * j, 2 * j + 2)))
}

/// A run of i8 values as their bytes.
pub open spec fn spec_i8s_to_bytes(v: Seq<i8>) -> Seq<u8> {
    Seq::new(v.len(), |j: int| spec_i8_to_byte(v[j]))
}

/// The i8 values a run of bytes decodes to.
pub open spec fn spec_i8s_from_bytes(s: Seq<u8>) -> Seq<i8> {
    Seq::new(s.len(), |j: int| spec_i8_from_byte(s[j]))
}

pub proof fn lemma_i16s_le_bytes_len(v: Seq<i16>)
    ensures
        spec_i16s_to_le_bytes(v).len() == 2 * v.len(),
    decreases v.len(),
{
    if v.len() > 0 {
        lemma_i16s_le_bytes_len(v.drop_last());
        lemma_i16_le_bytes_roundtrip(v.last());
    }
}

/// Decoding an encoded run gives the values back.
pub proof fn lemma_i16s_le_bytes_roundtrip(v: Seq<i16>)
    ensures
        spec_i16s_to_le_bytes(v).len() == 2 * v.len(),
        spec_i16s_from_le_bytes(spec_i16s_to_le_bytes(v)) =~= v,
    decreases v.len(),
{
    lemma_i16s_le_bytes_len(v);
    if v.len() > 0 {
        let n = v.len() as int;
        let w = spec_i16s_to_le_bytes(v);
        let w0 = spec_i16s_to_le_bytes(v.drop_last());
        lemma_i16s_le_bytes_roundtrip(v.drop_last());
        lemma_i16_le_bytes_roundtrip(v.last());
        assert forall|j: int| 0 <= j < n implies spec_i16s_from_le_bytes(w)[j] == v[j] by {
            if j < n - 1 {
                assert(w.subrange(2 * j, 2 * j + 2) =~= w0.subrange(2 * j, 2 * j + 2));
                assert(spec_i16s_from_le_bytes(w0)[j] == v.drop_last()[j]);
            } else {
                assert(w.subrange(2 * (n - 1), 2 * (n - 1) + 2) =~= spec_i16_to_le_bytes(
                    v.last(),
                ));
            }
        }
    }
}

/// Decoding the bytes of an i8 run gives the values back.
pub proof fn lemma_i8s_bytes_roundtrip(v: Seq<i8>)
    ensures
        spec_i8s_to_bytes(v).len() == v.len(),
        spec_i8s_from_bytes(spec_i8s_to_bytes(v)) =~= v,
{
    assert forall|j: int| 0 <= j < v.len() implies spec_i8s_from_bytes(spec_i8s_to_bytes(v))[j]
        == v[j] by {
        lemma_i8_byte_roundtrip(v[j]);
    }
}

} // verus!
