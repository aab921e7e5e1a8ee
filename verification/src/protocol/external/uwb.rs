//! Ultra-wideband positioning payload.

use crate::communication::extractor::Extractor;
use crate::communication::serializer::{add_i8, add_u32, add_u8};
use crate::wire::{lemma_i8_byte_roundtrip, lemma_u32_le_bytes_roundtrip, spec_i8_from_byte, 
    spec_i8_to_byte};
use vstd::bytes::*;
use vstd::prelude::*;


verus! {

/// Ultra-wideband fix; x, y, z carry IEEE-754 single-precision bit patterns.
#[derive(Clone, Copy, Debug, PartialEq, Eq, Structural)]
pub struct Position {
    pub x: u32,
    pub y: u32,
    pub z: u32,
    pub system_time: u32,
    pub anchor_group: u8,
    pub error: i8,
}

impl Position {
    pub fn new() -> (r: Position)
        ensures
            r.x == 0,
            r.y == 0,
            r.z == 0,
            r.system_time == 0,
            r.anchor_group == 0,
            r.error == 0,
    {
        Position {
            x: 0,
            y: 0,
            z: 0,
            system_time: 0,
            anchor_group: 0,
            error: 0,
        }
    }

    /// Exact on-wire size of the payload.
    pub open spec fn spec_size() -> usize {
        18
    }

    pub fn size() -> (r: usize)
        ensures
            r == Position::spec_size(),
    {
        18
    }

    /// The bytes this value puts on the wire.
    pub open spec fn wire(self) -> Seq<u8> {
        spec_u32_to_le_bytes(self.x) + spec_u32_to_le_bytes(self.y) + spec_u32_to_le_bytes(self.z) + spec_u32_to_le_bytes(self.system_time) + seq![self.anchor_group] + seq![spec_i8_to_byte(self.error)]
    }

    /// Whether `self` is exactly what the payload bytes `s` decode to.
    pub open spec fn decoded(self, s: Seq<u8>) -> bool {
        self == Position::decode(s)
    }

    /// The value a `spec_size()`-byte payload decodes to.
    pub open spec fn decode(s: Seq<u8>) -> Position {
        Position {
            x: spec_u32_from_le_bytes(s.subrange(0, 4)),
            y: spec_u32_from_le_bytes(s.subrange(4, 8)),
            z: spec_u32_from_le_bytes(s.subrange(8, 12)),
            system_time: spec_u32_from_le_bytes(s.subrange(12, 16)),
            anchor_group: s[16],
            error: spec_i8_from_byte(s[17]),
        }
    }

    pub fn parse(slice_data: &[u8]) -> (r: Result<Position, &'static str>)
        ensures
            slice_data@.len() == Position::spec_size() ==> (r matches Ok(v) && v == Position::decode(
                slice_data@,
            )),
            slice_data@.len() != Position::spec_size() ==> (r matches Err(_)),
    {
        if slice_data.len() == Position::size() {
            let mut ext: Extractor = Extractor::from_slice(slice_data);
            let x = ext.get_u32();
            let y = ext.get_u32();
            let z = ext.get_u32();
            let system_time = ext.get_u32();
            let anchor_group = ext.get_u8();
            let error = ext.get_i8();
            Ok(Position { x, y, z, system_time, anchor_group, error })
        } else {
            Err("Wrong length")
        }
    }

}

impl Position {
    pub fn to_vec(&self) -> (r: Vec<u8>)
        ensures
            r@ == self.wire(),
            r@.len() == Position::spec_size(),
    {
        let mut vec_data: Vec<u8> = Vec::new();
        add_u32(&mut vec_data, self.x);
        add_u32(&mut vec_data, self.y);
        add_u32(&mut vec_data, self.z);
        add_u32(&mut vec_data, self.system_time);
        add_u8(&mut vec_data, self.anchor_group);
        add_i8(&mut vec_data, self.error);
        proof {
            self.lemma_wire_len();
            assert(vec_data@ =~= self.wire());
        }
        vec_data
    }

    pub proof fn lemma_wire_len(self)
        ensures
            self.wire().len() == Position::spec_size(),
    {
        lemma_u32_le_bytes_roundtrip(self.x);
        lemma_u32_le_bytes_roundtrip(self.y);
        lemma_u32_le_bytes_roundtrip(self.z);
        lemma_u32_le_bytes_roundtrip(self.system_time);
    }

    /// Decoding the wire image of a value gives the value back.
    pub proof fn lemma_wire_roundtrip(self)
        ensures
            self.wire().len() == Position::spec_size(),
            Position::decode(self.wire()) == self,
    {
        lemma_u32_le_bytes_roundtrip(self.x);
        lemma_u32_le_bytes_roundtrip(self.y);
        lemma_u32_le_bytes_roundtrip(self.z);
        lemma_u32_le_bytes_roundtrip(self.system_time);
        lemma_i8_byte_roundtrip(self.error);
        assert(self.wire().subrange(0, 4) =~= spec_u32_to_le_bytes(self.x));
        assert(self.wire().subrange(4, 8) =~= spec_u32_to_le_bytes(self.y));
        assert(self.wire().subrange(8, 12) =~= spec_u32_to_le_bytes(self.z));
        assert(self.wire().subrange(12, 16) =~= spec_u32_to_le_bytes(self.system_time));
        assert(self.wire()[16] == seq![self.anchor_group][0]);
        assert(self.wire()[17] == seq![spec_i8_to_byte(self.error)][0]);
    }
}

} // verus!
