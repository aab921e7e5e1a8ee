//! CRC16 with the CCITT polynomial 0x1021, initial value 0 and no final XOR,
//! folded most-significant bit first over the frame's header and payload
//! bytes.  The wire carries the result little-endian.
//!
//! Besides the functional model this module proves the error-detection fact
//! the receiver relies on: two byte sequences of equal length that differ in
//! exactly one position never share a CRC.

use vstd::prelude::*;

verus! {

/// One shift step: shift left, folding the polynomial in when the top bit
/// falls out.
pub open spec fn spec_crc16_bit(acc: u16) -> u16 {
    if acc & 0x8000 != 0 {
        (acc << 1) ^ 0x1021
    } else {
        acc << 1
    }
}

/// `n` shift steps.
pub open spec fn spec_crc16_bits(acc: u16, n: nat) -> u16
    decreases n,
{
    if n == 0 {
        acc
    } else {
        spec_crc16_bit(spec_crc16_bits(acc, (n - 1) as nat))
    }
}

/// Folding one byte: XOR it into the top of the accumulator, then shift
/// eight times.
pub open spec fn spec_crc16_byte(acc: u16, b: u8) -> u16 {
    spec_crc16_bits(acc ^ ((b as u16) << 8), 8)
}

/// Folding a whole byte sequence, first byte first.
pub open spec fn spec_crc16(acc: u16, s: Seq<u8>) -> u16
    decreases s.len(),
{
    if s.len() == 0 {
        acc
    } else {
        spec_crc16(spec_crc16_byte(acc, s[0]), s.subrange(1, s.len() as int))
    }
}

/// Fold one byte into a running CRC.
pub fn calc_byte(crc: u16, data: u8) -> (r: u16)
    ensures
        r == spec_crc16_byte(crc, data),
{
    let start: u16 = crc ^ ((data as u16) << 8);
    let mut acc: u16 = start;
    let mut i: usize = 0;
    while i < 8
        invariant
            i <= 8,
            acc == spec_crc16_bits(start, i as nat),
        decreases 8 - i,
    {
        acc = if acc & 0x8000 != 0 {
            (acc << 1) ^ 0x1021
        } else {
            acc << 1
        };
        i = i + 1;
    }
    acc
}

/// Fold a slice into a running CRC, first byte first.
pub fn calc_array(crc: u16, slice_data: &[u8]) -> (r: u16)
    ensures
        r == spec_crc16(crc, slice_data@),
{
    let mut acc: u16 = crc;
    let mut i: usize = 0;
    while i < slice_data.len()
        invariant
            i <= slice_data@.len(),
            acc == spec_crc16(crc, slice_data@.subrange(0, i as int)),
        decreases slice_data@.len() - i,
    {
        proof {
            lemma_crc16_snoc(crc, slice_data@.subrange(0, i as int), slice_data@[i as int]);
            assert(slice_data@.subrange(0, i as int).push(slice_data@[i as int]) =~= slice_data@
                .subrange(0, i as int + 1));
        }
        acc = calc_byte(acc, slice_data[i]);
        i = i + 1;
    }
    proof {
        assert(slice_data@.subrange(0, slice_data@.len() as int) =~= slice_data@);
    }
    acc
}

/// Folding `s` and then one more byte equals folding `s.push(b)`.
pub proof fn lemma_crc16_snoc(acc: u16, s: Seq<u8>, b: u8)
    ensures
        spec_crc16(acc, s.push(b)) == spec_crc16_byte(spec_crc16(acc, s), b),
    decreases s.len(),
{
    let t = s.push(b);
    assert(t.len() == s.len() + 1);
    if s.len() == 0 {
        assert(t[0] == b);
        assert(t.subrange(1, t.len() as int) =~= Seq::<u8>::empty());
        assert(spec_crc16(acc, t) == spec_crc16(spec_crc16_byte(acc, b), Seq::<u8>::empty()));
    } else {
        assert(t[0] == s[0]);
        assert(t.subrange(1, t.len() as int) =~= s.subrange(1, s.len() as int).push(b));
        lemma_crc16_snoc(spec_crc16_byte(acc, s[0]), s.subrange(1, s.len() as int), b);
        assert(spec_crc16(acc, t) == spec_crc16(
            spec_crc16_byte(acc, s[0]),
            s.subrange(1, s.len() as int).push(b),
        ));
    }
}

/// Folding a concatenation folds the two halves in order.
pub proof fn lemma_crc16_append(acc: u16, s: Seq<u8>, t: Seq<u8>)
    ensures
        spec_crc16(acc, s + t) == spec_crc16(spec_crc16(acc, s), t),
    decreases t.len(),
{
    if t.len() == 0 {
        assert(s + t =~= s);
    } else {
        let t0 = t.subrange(0, t.len() - 1);
        let b = t[t.len() - 1];
        assert(t0.push(b) =~= t);
        assert(s + t0.push(b) =~= (s + t0).push(b));
        lemma_crc16_append(acc, s, t0);
        lemma_crc16_snoc(acc, s + t0, b);
        lemma_crc16_snoc(spec_crc16(acc, s), t0, b);
    }
}

proof fn lemma_crc16_bit_injective(x: u16, y: u16)
    requires
        spec_crc16_bit(x) == spec_crc16_bit(y),
    ensures
        x == y,
{
    assert((if x & 0x8000 != 0 {
        (x << 1) ^ 0x1021
    } else {
        x << 1
    }) == (if y & 0x8000 != 0 {
        (y << 1) ^ 0x1021
    } else {
        y << 1
    }) ==> x == y) by (bit_vector);
}

proof fn lemma_crc16_bits_injective(x: u16, y: u16, n: nat)
    requires
        spec_crc16_bits(x, n) == spec_crc16_bits(y, n),
    ensures
        x == y,
    decreases n,
{
    if n > 0 {
        lemma_crc16_bit_injective(spec_crc16_bits(x, (n - 1) as nat), spec_crc16_bits(y, (n - 1) as nat));
        lemma_crc16_bits_injective(x, y, (n - 1) as nat);
    }
}

/// With the byte fixed, folding it is injective in the accumulator.
pub proof fn lemma_crc16_byte_acc_injective(a1: u16, a2: u16, b: u8)
    requires
        spec_crc16_byte(a1, b) == spec_crc16_byte(a2, b),
    ensures
        a1 == a2,
{
    lemma_crc16_bits_injective(a1 ^ ((b as u16) << 8), a2 ^ ((b as u16) << 8), 8);
    let c = (b as u16) << 8;
    assert((a1 ^ c) == (a2 ^ c) ==> a1 == a2) by (bit_vector);
}

/// With the accumulator fixed, folding different bytes gives different CRCs.
pub proof fn lemma_crc16_byte_differs(acc: u16, b1: u8, b2: u8)
    requires
        b1 != b2,
    ensures
        spec_crc16_byte(acc, b1) != spec_crc16_byte(acc, b2),
{
    if spec_crc16_byte(acc, b1) == spec_crc16_byte(acc, b2) {
        lemma_crc16_bits_injective(acc ^ ((b1 as u16) << 8), acc ^ ((b2 as u16) << 8), 8);
        assert((acc ^ ((b1 as u16) << 8)) == (acc ^ ((b2 as u16) << 8)) ==> b1 == b2)
            by (bit_vector);
    }
}

/// Folding equal tails keeps different accumulators different.
pub proof fn lemma_crc16_acc_injective(a1: u16, a2: u16, t: Seq<u8>)
    requires
        a1 != a2,
    ensures
        spec_crc16(a1, t) != spec_crc16(a2, t),
    decreases t.len(),
{
    if t.len() > 0 {
        if spec_crc16_byte(a1, t[0]) == spec_crc16_byte(a2, t[0]) {
            lemma_crc16_byte_acc_injective(a1, a2, t[0]);
        }
        lemma_crc16_acc_injective(
            spec_crc16_byte(a1, t[0]),
            spec_crc16_byte(a2, t[0]),
            t.subrange(1, t.len() as int),
        );
    }
}

/// Two equal-length sequences that differ in exactly one position never
/// share a CRC: the corruption of any single byte (so in particular of any
/// single bit) is always detected.
pub proof fn lemma_crc16_detects_one_byte_change(acc: u16, s1: Seq<u8>, s2: Seq<u8>, i: int)
    requires
        s1.len() == s2.len(),
        0 <= i < s1.len(),
        s1[i] != s2[i],
        forall|j: int| 0 <= j < s1.len() && j != i ==> s1[j] == s2[j],
    ensures
        spec_crc16(acc, s1) != spec_crc16(acc, s2),
    decreases s1.len(),
{
    let t1 = s1.subrange(1, s1.len() as int);
    let t2 = s2.subrange(1, s2.len() as int);
    if i == 0 {
        lemma_crc16_byte_differs(acc, s1[0], s2[0]);
        assert(t1 =~= t2);
        lemma_crc16_acc_injective(spec_crc16_byte(acc, s1[0]), spec_crc16_byte(acc, s2[0]), t1);
    } else {
        assert(s1[0] == s2[0]);
        assert(forall|j: int| 0 <= j < t1.len() && j != i - 1 ==> t1[j] == t2[j]);
        lemma_crc16_detects_one_byte_change(spec_crc16_byte(acc, s1[0]), t1, t2, i - 1);
    }
}

} // verus!
