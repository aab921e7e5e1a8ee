//! Little-endian writers: each `add_*` appends one fixed-width value to the
//! end of a byte vector.

use crate::wire::{spec_i16_to_le_bytes, spec_i16s_to_le_bytes, spec_i32_to_le_bytes,
    spec_i64_to_le_bytes, spec_i8_to_byte, spec_i8s_to_bytes};
use vstd::bytes::*;
use vstd::prelude::*;

verus! {

pub fn add_u8(vec: &mut Vec<u8>, value: u8)
    ensures
        final(vec)@ == old(vec)@.push(value),
{
    vec.push(value);
}

pub fn add_u16(vec: &mut Vec<u8>, value: u16)
    ensures
        final(vec)@ == old(vec)@ + spec_u16_to_le_bytes(value),
{
    let mut tail = u16_to_le_bytes(value);
    vec.append(&mut tail);
}

pub fn add_u32(vec: &mut Vec<u8>, value: u32)
    ensures
        final(vec)@ == old(vec)@ + spec_u32_to_le_bytes(value),
{
    let mut tail = u32_to_le_bytes(value);
    vec.append(&mut tail);
}

pub fn add_u64(vec: &mut Vec<u8>, value: u64)
    ensures
        final(vec)@ == old(vec)@ + spec_u64_to_le_bytes(value),
{
    let mut tail = u64_to_le_bytes(value);
    vec.append(&mut tail);
}

pub fn add_i8(vec: &mut Vec<u8>, value: i8)
    ensures
        final(vec)@ == old(vec)@.push(spec_i8_to_byte(value)),
{
    vec.push(value as u8);
}

pub fn add_i16(vec: &mut Vec<u8>, value: i16)
    ensures
        final(vec)@ == old(vec)@ + spec_i16_to_le_bytes(value),
{
    let mut tail = u16_to_le_bytes(value as u16);
    vec.append(&mut tail);
}

pub fn add_i32(vec: &mut Vec<u8>, value: i32)
    ensures
        final(vec)@ == old(vec)@ + spec_i32_to_le_bytes(value),
{
    let mut tail = u32_to_le_bytes(value as u32);
    vec.append(&mut tail);
}

pub fn add_i64(vec: &mut Vec<u8>, value: i64)
    ensures
        final(vec)@ == old(vec)@ + spec_i64_to_le_bytes(value),
{
    let mut tail = u64_to_le_bytes(value as u64);
    vec.append(&mut tail);
}

pub fn add_slice(vec: &mut Vec<u8>, slice: &[u8])
    ensures
        final(vec)@ == old(vec)@ + slice@,
{
    vec.extend_from_slice(slice);
}

/// Appends a run of i16 values, each little-endian.
pub fn add_i16_slice(vec: &mut Vec<u8>, values: &Vec<i16>)
    ensures
        final(vec)@ == old(vec)@ + spec_i16s_to_le_bytes(values@),
{
    let ghost base = vec@;
    let mut i: usize = 0;
    while i < values.len()
        invariant
            i <= values@.len(),
            vec@ == base + spec_i16s_to_le_bytes(values@.subrange(0, i as int)),
        decreases values@.len() - i,
    {
        add_i16(vec, values[i]);
        proof {
            let vs = values@.subrange(0, i as int + 1);
            assert(vs.drop_last() =~= values@.subrange(0, i as int));
            assert(vs.last() == values@[i as int]);
        }
        i = i + 1;
    }
    proof {
        assert(values@.subrange(0, values@.len() as int) =~= values@);
        assert(base =~= base + spec_i16s_to_le_bytes(Seq::<i16>::empty()));
    }
}

/// Appends a run of i8 values as single bytes.
pub fn add_i8_slice(vec: &mut Vec<u8>, values: &Vec<i8>)
    ensures
        final(vec)@ == old(vec)@ + spec_i8s_to_bytes(values@),
{
    let ghost base = vec@;
    let mut i: usize = 0;
    while i < values.len()
        invariant
            i <= values@.len(),
            vec@ == base + spec_i8s_to_bytes(values@.subrange(0, i as int)),
        decreases values@.len() - i,
    {
        add_i8(vec, values[i]);
        proof {
            assert(base + spec_i8s_to_bytes(values@.subrange(0, i as int)) + seq![
                spec_i8_to_byte(values@[i as int]),
            ] =~= base + spec_i8s_to_bytes(values@.subrange(0, i as int + 1)));
        }
        i = i + 1;
    }
    proof {
        assert(values@.subrange(0, values@.len() as int) =~= values@);
        assert(base =~= base + spec_i8s_to_bytes(Seq::<i8>::empty()));
    }
}

} // verus!
