//! Link payloads: pairing parameters, signal strength, loss reactions.

use crate::communication::extractor::Extractor;
use crate::communication::serializer::{add_i8, add_u16, add_u32, add_u8};
use crate::wire::{lemma_i8_byte_roundtrip, lemma_u16_le_bytes_roundtrip, 
    lemma_u32_le_bytes_roundtrip, spec_i8_from_byte, spec_i8_to_byte};
use vstd::bytes::*;
use vstd::prelude::*;


verus! {

/// How long after losing the link to neutralize sticks, land, and stop.
#[derive(Clone, Copy, Debug, PartialEq, Eq, Structural)]
pub struct LostConnection {
    pub time_neutral: u16,
    pub time_landing: u16,
    pub time_stop: u32,
}

impl LostConnection {
    pub fn new() -> (r: LostConnection)
        ensures
            r.time_neutral == 0,
            r.time_landing == 0,
            r.time_stop == 0,
    {
        LostConnection {
            time_neutral: 0,
            time_landing: 0,
            time_stop: 0,
        }
    }

    /// Exact on-wire size of the payload.
    pub open spec fn spec_size() -> usize {
        8
    }

    pub fn size() -> (r: usize)
        ensures
            r == LostConnection::spec_size(),
    {
        8
    }

    /// The bytes this value puts on the wire.
    pub open spec fn wire(self) -> Seq<u8> {
        spec_u16_to_le_bytes(self.time_neutral) + spec_u16_to_le_bytes(self.time_landing) + spec_u32_to_le_bytes(self.time_stop)
    }

    /// Whether `self` is exactly what the payload bytes `s` decode to.
    pub open spec fn decoded(self, s: Seq<u8>) -> bool {
        self == LostConnection::decode(s)
    }

    /// The value a `spec_size()`-byte payload decodes to.
    pub open spec fn decode(s: Seq<u8>) -> LostConnection {
        LostConnection {
            time_neutral: spec_u16_from_le_bytes(s.subrange(0, 2)),
            time_landing: spec_u16_from_le_bytes(s.subrange(2, 4)),
            time_stop: spec_u32_from_le_bytes(s.subrange(4, 8)),
        }
    }

    pub fn parse(slice_data: &[u8]) -> (r: Result<LostConnection, &'static str>)
        ensures
            slice_data@.len() == LostConnection::spec_size() ==> (r matches Ok(v) && v == LostConnection::decode(
                slice_data@,
            )),
            slice_data@.len() != LostConnection::spec_size() ==> (r matches Err(_)),
    {
        if slice_data.len() == LostConnection::size() {
            let mut ext: Extractor = Extractor::from_slice(slice_data);
            let time_neutral = ext.get_u16();
            let time_landing = ext.get_u16();
            let time_stop = ext.get_u32();
            Ok(LostConnection { time_neutral, time_landing, time_stop })
        } else {
            Err("Wrong length")
        }
    }

}

impl LostConnection {
    pub fn to_vec(&self) -> (r: Vec<u8>)
        ensures
            r@ == self.wire(),
            r@.len() == LostConnection::spec_size(),
    {
        let mut vec_data: Vec<u8> = Vec::new();
        add_u16(&mut vec_data, self.time_neutral);
        add_u16(&mut vec_data, self.time_landing);
        add_u32(&mut vec_data, self.time_stop);
        proof {
            self.lemma_wire_len();
            assert(vec_data@ =~= self.wire());
        }
        vec_data
    }

    pub proof fn lemma_wire_len(self)
        ensures
            self.wire().len() == LostConnection::spec_size(),
    {
        lemma_u16_le_bytes_roundtrip(self.time_neutral);
        lemma_u16_le_bytes_roundtrip(self.time_landing);
        lemma_u32_le_bytes_roundtrip(self.time_stop);
    }

    /// Decoding the wire image of a value gives the value back.
    pub proof fn lemma_wire_roundtrip(self)
        ensures
            self.wire().len() == LostConnection::spec_size(),
            LostConnection::decode(self.wire()) == self,
    {
        lemma_u16_le_bytes_roundtrip(self.time_neutral);
        lemma_u16_le_bytes_roundtrip(self.time_landing);
        lemma_u32_le_bytes_roundtrip(self.time_stop);
        assert(self.wire().subrange(0, 2) =~= spec_u16_to_le_bytes(self.time_neutral));
        assert(self.wire().subrange(2, 4) =~= spec_u16_to_le_bytes(self.time_landing));
        assert(self.wire().subrange(4, 8) =~= spec_u32_to_le_bytes(self.time_stop));
    }
}

#[derive(Clone, Copy, Debug, PartialEq, Eq, Structural)]
pub struct Rssi {
    pub rssi: i8,
}

impl Rssi {
    pub fn new() -> (r: Rssi)
        ensures
            r.rssi == 0,
    {
        Rssi {
            rssi: 0,
        }
    }

    /// Exact on-wire size of the payload.
    pub open spec fn spec_size() -> usize {
        1
    }

    pub fn size() -> (r: usize)
        ensures
            r == Rssi::spec_size(),
    {
        1
    }

    /// The bytes this value puts on the wire.
    pub open spec fn wire(self) -> Seq<u8> {
        seq![spec_i8_to_byte(self.rssi)]
    }

    /// Whether `self` is exactly what the payload bytes `s` decode to.
    pub open spec fn decoded(self, s: Seq<u8>) -> bool {
        self == Rssi::decode(s)
    }

    /// The value a `spec_size()`-byte payload decodes to.
    pub open spec fn decode(s: Seq<u8>) -> Rssi {
        Rssi {
            rssi: spec_i8_from_byte(s[0]),
        }
    }

    pub fn parse(slice_data: &[u8]) -> (r: Result<Rssi, &'static str>)
        ensures
            slice_data@.len() == Rssi::spec_size() ==> (r matches Ok(v) && v == Rssi::decode(
                slice_data@,
            )),
            slice_data@.len() != Rssi::spec_size() ==> (r matches Err(_)),
    {
        if slice_data.len() == Rssi::size() {
            let mut ext: Extractor = Extractor::from_slice(slice_data);
            let rssi = ext.get_i8();
            Ok(Rssi { rssi })
        } else {
            Err("Wrong length")
        }
    }

}

impl Rssi {
    pub fn to_vec(&self) -> (r: Vec<u8>)
        ensures
            r@ == self.wire(),
            r@.len() == Rssi::spec_size(),
    {
        let mut vec_data: Vec<u8> = Vec::new();
        add_i8(&mut vec_data, self.rssi);
        proof {
            self.lemma_wire_len();
            assert(vec_data@ =~= self.wire());
        }
        vec_data
    }

    pub proof fn lemma_wire_len(self)
        ensures
            self.wire().len() == Rssi::spec_size(),
    {
    }

    /// Decoding the wire image of a value gives the value back.
    pub proof fn lemma_wire_roundtrip(self)
        ensures
            self.wire().len() == Rssi::spec_size(),
            Rssi::decode(self.wire()) == self,
    {
        lemma_i8_byte_roundtrip(self.rssi);
        assert(self.wire()[0] == seq![spec_i8_to_byte(self.rssi)][0]);
    }
}


/// Radio pairing parameters: three address words, the scramble byte and four
/// hop channels.
#[derive(Clone, Copy, Debug)]
pub struct Pairing {
    pub address: [u16; 3],
    pub scramble: u8,
    pub channel: [u8; 4],
}

impl Pairing {
    pub fn new() -> (r: Pairing)
        ensures
            r.address@ =~= seq![0u16, 0u16, 0u16],
            r.scramble == 0,
            r.channel@ =~= seq![0u8, 0u8, 0u8, 0u8],
    {
        Pairing { address: [0, 0, 0], scramble: 0, channel: [0, 0, 0, 0] }
    }

    /// Exact on-wire size of the payload.
    pub open spec fn spec_size() -> usize {
        11
    }

    pub fn size() -> (r: usize)
        ensures
            r == Pairing::spec_size(),
    {
        11
    }

    /// The bytes this value puts on the wire.
    pub open spec fn wire(self) -> Seq<u8> {
        spec_u16_to_le_bytes(self.address@[0]) + spec_u16_to_le_bytes(self.address@[1])
            + spec_u16_to_le_bytes(self.address@[2]) + seq![self.scramble]
            + seq![self.channel@[0], self.channel@[1], self.channel@[2], self.channel@[3]]
    }

    /// Whether `self` is exactly what the payload bytes `s` decode to.
    pub open spec fn decoded(self, s: Seq<u8>) -> bool {
        &&& self.address@[0] == spec_u16_from_le_bytes(s.subrange(0, 2))
        &&& self.address@[1] == spec_u16_from_le_bytes(s.subrange(2, 4))
        &&& self.address@[2] == spec_u16_from_le_bytes(s.subrange(4, 6))
        &&& self.scramble == s[6]
        &&& self.channel@ == s.subrange(7, 11)
    }

    pub fn parse(slice_data: &[u8]) -> (r: Result<Pairing, &'static str>)
        ensures
            slice_data@.len() == Pairing::spec_size() ==> (r matches Ok(v) && {
                &&& v.address@[0] == spec_u16_from_le_bytes(slice_data@.subrange(0, 2))
                &&& v.address@[1] == spec_u16_from_le_bytes(slice_data@.subrange(2, 4))
                &&& v.address@[2] == spec_u16_from_le_bytes(slice_data@.subrange(4, 6))
                &&& v.scramble == slice_data@[6]
                &&& v.channel@ =~= slice_data@.subrange(7, 11)
            }),
            slice_data@.len() != Pairing::spec_size() ==> (r matches Err(_)),
    {
        if slice_data.len() == Pairing::size() {
            let mut ext: Extractor = Extractor::from_slice(slice_data);
            let a0 = ext.get_u16();
            let a1 = ext.get_u16();
            let a2 = ext.get_u16();
            let scramble = ext.get_u8();
            let c0 = ext.get_u8();
            let c1 = ext.get_u8();
            let c2 = ext.get_u8();
            let c3 = ext.get_u8();
            let r = Pairing { address: [a0, a1, a2], scramble, channel: [c0, c1, c2, c3] };
            proof {
                assert(r.channel@ =~= slice_data@.subrange(7, 11));
            }
            Ok(r)
        } else {
            Err("Wrong length")
        }
    }

    pub fn to_vec(&self) -> (r: Vec<u8>)
        ensures
            r@ == self.wire(),
            r@.len() == Pairing::spec_size(),
    {
        let mut vec_data: Vec<u8> = Vec::new();
        add_u16(&mut vec_data, self.address[0]);
        add_u16(&mut vec_data, self.address[1]);
        add_u16(&mut vec_data, self.address[2]);
        add_u8(&mut vec_data, self.scramble);
        add_u8(&mut vec_data, self.channel[0]);
        add_u8(&mut vec_data, self.channel[1]);
        add_u8(&mut vec_data, self.channel[2]);
        add_u8(&mut vec_data, self.channel[3]);
        proof {
            self.lemma_wire_len();
            assert(vec_data@ =~= self.wire());
        }
        vec_data
    }

    pub proof fn lemma_wire_len(self)
        ensures
            self.wire().len() == Pairing::spec_size(),
    {
        lemma_u16_le_bytes_roundtrip(self.address@[0]);
        lemma_u16_le_bytes_roundtrip(self.address@[1]);
        lemma_u16_le_bytes_roundtrip(self.address@[2]);
    }

    /// Decoding the wire image of a value gives the value back, field by
    /// field.
    pub proof fn lemma_wire_roundtrip(self)
        ensures
            self.wire().len() == Pairing::spec_size(),
            spec_u16_from_le_bytes(self.wire().subrange(0, 2)) == self.address@[0],
            spec_u16_from_le_bytes(self.wire().subrange(2, 4)) == self.address@[1],
            spec_u16_from_le_bytes(self.wire().subrange(4, 6)) == self.address@[2],
            self.wire()[6] == self.scramble,
            self.wire().subrange(7, 11) =~= self.channel@,
    {
        lemma_u16_le_bytes_roundtrip(self.address@[0]);
        lemma_u16_le_bytes_roundtrip(self.address@[1]);
        lemma_u16_le_bytes_roundtrip(self.address@[2]);
        assert(self.wire().subrange(0, 2) =~= spec_u16_to_le_bytes(self.address@[0]));
        assert(self.wire().subrange(2, 4) =~= spec_u16_to_le_bytes(self.address@[1]));
        assert(self.wire().subrange(4, 6) =~= spec_u16_to_le_bytes(self.address@[2]));
    }
}

} // verus!
