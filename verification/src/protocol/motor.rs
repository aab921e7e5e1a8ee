//! Motor payloads: drive values for all motors or a single one.

use crate::communication::extractor::Extractor;
use crate::communication::serializer::{add_i16, add_u8};
use crate::wire::{lemma_i16_le_bytes_roundtrip, spec_i16_from_le_bytes, spec_i16_to_le_bytes};
use vstd::bytes::*;
use vstd::prelude::*;

use crate::system::Rotation;


verus! {

#[derive(Clone, Copy, Debug, PartialEq, Eq, Structural)]
pub struct MotorV {
    pub value: i16,
}

impl MotorV {
    pub fn new() -> (r: MotorV)
        ensures
            r.value == 0,
    {
        MotorV {
            value: 0,
        }
    }

    /// Exact on-wire size of the payload.
    pub open spec fn spec_size() -> usize {
        2
    }

    pub fn size() -> (r: usize)
        ensures
            r == MotorV::spec_size(),
    {
        2
    }

    /// The bytes this value puts on the wire.
    pub open spec fn wire(self) -> Seq<u8> {
        spec_i16_to_le_bytes(self.value)
    }

    /// Whether `self` is exactly what the payload bytes `s` decode to.
    pub open spec fn decoded(self, s: Seq<u8>) -> bool {
        self == MotorV::decode(s)
    }

    /// The value a `spec_size()`-byte payload decodes to.
    pub open spec fn decode(s: Seq<u8>) -> MotorV {
        MotorV {
            value: spec_i16_from_le_bytes(s.subrange(0, 2)),
        }
    }

    pub fn parse(slice_data: &[u8]) -> (r: Result<MotorV, &'static str>)
        ensures
            slice_data@.len() == MotorV::spec_size() ==> (r matches Ok(v) && v == MotorV::decode(
                slice_data@,
            )),
            slice_data@.len() != MotorV::spec_size() ==> (r matches Err(_)),
    {
        if slice_data.len() == MotorV::size() {
            let mut ext: Extractor = Extractor::from_slice(slice_data);
            let value = ext.get_i16();
            Ok(MotorV { value })
        } else {
            Err("Wrong length")
        }
    }

}

impl MotorV {
    pub fn to_vec(&self) -> (r: Vec<u8>)
        ensures
            r@ == self.wire(),
            r@.len() == MotorV::spec_size(),
    {
        let mut vec_data: Vec<u8> = Vec::new();
        add_i16(&mut vec_data, self.value);
        proof {
            self.lemma_wire_len();
            assert(vec_data@ =~= self.wire());
        }
        vec_data
    }

    pub proof fn lemma_wire_len(self)
        ensures
            self.wire().len() == MotorV::spec_size(),
    {
        lemma_i16_le_bytes_roundtrip(self.value);
    }

    /// Decoding the wire image of a value gives the value back.
    pub proof fn lemma_wire_roundtrip(self)
        ensures
            self.wire().len() == MotorV::spec_size(),
            MotorV::decode(self.wire()) == self,
    {
        lemma_i16_le_bytes_roundtrip(self.value);
        assert(self.wire().subrange(0, 2) =~= spec_i16_to_le_bytes(self.value));
    }
}

#[derive(Clone, Copy, Debug, PartialEq, Eq, Structural)]
pub struct MotorRV {
    pub rotation: Rotation,
    pub value: i16,
}

impl MotorRV {
    pub fn new() -> (r: MotorRV)
        ensures
            r.rotation == Rotation::Nil,
            r.value == 0,
    {
        MotorRV {
            rotation: Rotation::Nil,
            value: 0,
        }
    }

    /// Exact on-wire size of the payload.
    pub open spec fn spec_size() -> usize {
        3
    }

    pub fn size() -> (r: usize)
        ensures
            r == MotorRV::spec_size(),
    {
        3
    }

    /// The bytes this value puts on the wire.
    pub open spec fn wire(self) -> Seq<u8> {
        seq![self.rotation.code()] + spec_i16_to_le_bytes(self.value)
    }

    /// Whether `self` is exactly what the payload bytes `s` decode to.
    pub open spec fn decoded(self, s: Seq<u8>) -> bool {
        self == MotorRV::decode(s)
    }

    /// The value a `spec_size()`-byte payload decodes to.
    pub open spec fn decode(s: Seq<u8>) -> MotorRV {
        MotorRV {
            rotation: Rotation::spec_from_u8(s[0]),
            value: spec_i16_from_le_bytes(s.subrange(1, 3)),
        }
    }

    pub fn parse(slice_data: &[u8]) -> (r: Result<MotorRV, &'static str>)
        ensures
            slice_data@.len() == MotorRV::spec_size() ==> (r matches Ok(v) && v == MotorRV::decode(
                slice_data@,
            )),
            slice_data@.len() != MotorRV::spec_size() ==> (r matches Err(_)),
    {
        if slice_data.len() == MotorRV::size() {
            let mut ext: Extractor = Extractor::from_slice(slice_data);
            let rotation = Rotation::from_u8(ext.get_u8());
            let value = ext.get_i16();
            Ok(MotorRV { rotation, value })
        } else {
            Err("Wrong length")
        }
    }

}

impl MotorRV {
    pub fn to_vec(&self) -> (r: Vec<u8>)
        ensures
            r@ == self.wire(),
            r@.len() == MotorRV::spec_size(),
    {
        let mut vec_data: Vec<u8> = Vec::new();
        add_u8(&mut vec_data, self.rotation.to_u8());
        add_i16(&mut vec_data, self.value);
        proof {
            self.lemma_wire_len();
            assert(vec_data@ =~= self.wire());
        }
        vec_data
    }

    pub proof fn lemma_wire_len(self)
        ensures
            self.wire().len() == MotorRV::spec_size(),
    {
        lemma_i16_le_bytes_roundtrip(self.value);
    }

    /// Decoding the wire image of a value gives the value back.
    pub proof fn lemma_wire_roundtrip(self)
        ensures
            self.wire().len() == MotorRV::spec_size(),
            MotorRV::decode(self.wire()) == self,
    {
        self.rotation.lemma_code_roundtrip();
        lemma_i16_le_bytes_roundtrip(self.value);
        assert(self.wire()[0] == seq![self.rotation.code()][0]);
        assert(self.wire().subrange(1, 3) =~= spec_i16_to_le_bytes(self.value));
    }
}

#[derive(Clone, Copy, Debug, PartialEq, Eq, Structural)]
pub struct MotorVA {
    pub value: i16,
    pub adc: i16,
}

impl MotorVA {
    pub fn new() -> (r: MotorVA)
        ensures
            r.value == 0,
            r.adc == 0,
    {
        MotorVA {
            value: 0,
            adc: 0,
        }
    }

    /// Exact on-wire size of the payload.
    pub open spec fn spec_size() -> usize {
        4
    }

    pub fn size() -> (r: usize)
        ensures
            r == MotorVA::spec_size(),
    {
        4
    }

    /// The bytes this value puts on the wire.
    pub open spec fn wire(self) -> Seq<u8> {
        spec_i16_to_le_bytes(self.value) + spec_i16_to_le_bytes(self.adc)
    }

    /// Whether `self` is exactly what the payload bytes `s` decode to.
    pub open spec fn decoded(self, s: Seq<u8>) -> bool {
        self == MotorVA::decode(s)
    }

    /// The value a `spec_size()`-byte payload decodes to.
    pub open spec fn decode(s: Seq<u8>) -> MotorVA {
        MotorVA {
            value: spec_i16_from_le_bytes(s.subrange(0, 2)),
            adc: spec_i16_from_le_bytes(s.subrange(2, 4)),
        }
    }

    pub fn parse(slice_data: &[u8]) -> (r: Result<MotorVA, &'static str>)
        ensures
            slice_data@.len() == MotorVA::spec_size() ==> (r matches Ok(v) && v == MotorVA::decode(
                slice_data@,
            )),
            slice_data@.len() != MotorVA::spec_size() ==> (r matches Err(_)),
    {
        if slice_data.len() == MotorVA::size() {
            let mut ext: Extractor = Extractor::from_slice(slice_data);
            let value = ext.get_i16();
            let adc = ext.get_i16();
            Ok(MotorVA { value, adc })
        } else {
            Err("Wrong length")
        }
    }

}

impl MotorVA {
    pub fn to_vec(&self) -> (r: Vec<u8>)
        ensures
            r@ == self.wire(),
            r@.len() == MotorVA::spec_size(),
    {
        let mut vec_data: Vec<u8> = Vec::new();
        add_i16(&mut vec_data, self.value);
        add_i16(&mut vec_data, self.adc);
        proof {
            self.lemma_wire_len();
            assert(vec_data@ =~= self.wire());
        }
        vec_data
    }

    pub proof fn lemma_wire_len(self)
        ensures
            self.wire().len() == MotorVA::spec_size(),
    {
        lemma_i16_le_bytes_roundtrip(self.value);
        lemma_i16_le_bytes_roundtrip(self.adc);
    }

    /// Decoding the wire image of a value gives the value back.
    pub proof fn lemma_wire_roundtrip(self)
        ensures
            self.wire().len() == MotorVA::spec_size(),
            MotorVA::decode(self.wire()) == self,
    {
        lemma_i16_le_bytes_roundtrip(self.value);
        lemma_i16_le_bytes_roundtrip(self.adc);
        assert(self.wire().subrange(0, 2) =~= spec_i16_to_le_bytes(self.value));
        assert(self.wire().subrange(2, 4) =~= spec_i16_to_le_bytes(self.adc));
    }
}

#[derive(Clone, Copy, Debug, PartialEq, Eq, Structural)]
pub struct MotorRVA {
    pub rotation: Rotation,
    pub value: i16,
    pub adc: i16,
}

impl MotorRVA {
    pub fn new() -> (r: MotorRVA)
        ensures
            r.rotation == Rotation::Nil,
            r.value == 0,
            r.adc == 0,
    {
        MotorRVA {
            rotation: Rotation::Nil,
            value: 0,
            adc: 0,
        }
    }

    /// Exact on-wire size of the payload.
    pub open spec fn spec_size() -> usize {
        5
    }

    pub fn size() -> (r: usize)
        ensures
            r == MotorRVA::spec_size(),
    {
        5
    }

    /// The bytes this value puts on the wire.
    pub open spec fn wire(self) -> Seq<u8> {
        seq![self.rotation.code()] + spec_i16_to_le_bytes(self.value) + spec_i16_to_le_bytes(self.adc)
    }

    /// Whether `self` is exactly what the payload bytes `s` decode to.
    pub open spec fn decoded(self, s: Seq<u8>) -> bool {
        self == MotorRVA::decode(s)
    }

    /// The value a `spec_size()`-byte payload decodes to.
    pub open spec fn decode(s: Seq<u8>) -> MotorRVA {
        MotorRVA {
            rotation: Rotation::spec_from_u8(s[0]),
            value: spec_i16_from_le_bytes(s.subrange(1, 3)),
            adc: spec_i16_from_le_bytes(s.subrange(3, 5)),
        }
    }

    pub fn parse(slice_data: &[u8]) -> (r: Result<MotorRVA, &'static str>)
        ensures
            slice_data@.len() == MotorRVA::spec_size() ==> (r matches Ok(v) && v == MotorRVA::decode(
                slice_data@,
            )),
            slice_data@.len() != MotorRVA::spec_size() ==> (r matches Err(_)),
    {
        if slice_data.len() == MotorRVA::size() {
            let mut ext: Extractor = Extractor::from_slice(slice_data);
            let rotation = Rotation::from_u8(ext.get_u8());
            let value = ext.get_i16();
            let adc = ext.get_i16();
            Ok(MotorRVA { rotation, value, adc })
        } else {
            Err("Wrong length")
        }
    }

}

impl MotorRVA {
    pub fn to_vec(&self) -> (r: Vec<u8>)
        ensures
            r@ == self.wire(),
            r@.len() == MotorRVA::spec_size(),
    {
        let mut vec_data: Vec<u8> = Vec::new();
        add_u8(&mut vec_data, self.rotation.to_u8());
        add_i16(&mut vec_data, self.value);
        add_i16(&mut vec_data, self.adc);
        proof {
            self.lemma_wire_len();
            assert(vec_data@ =~= self.wire());
        }
        vec_data
    }

    pub proof fn lemma_wire_len(self)
        ensures
            self.wire().len() == MotorRVA::spec_size(),
    {
        lemma_i16_le_bytes_roundtrip(self.value);
        lemma_i16_le_bytes_roundtrip(self.adc);
    }

    /// Decoding the wire image of a value gives the value back.
    pub proof fn lemma_wire_roundtrip(self)
        ensures
            self.wire().len() == MotorRVA::spec_size(),
            MotorRVA::decode(self.wire()) == self,
    {
        self.rotation.lemma_code_roundtrip();
        lemma_i16_le_bytes_roundtrip(self.value);
        lemma_i16_le_bytes_roundtrip(self.adc);
        assert(self.wire()[0] == seq![self.rotation.code()][0]);
        assert(self.wire().subrange(1, 3) =~= spec_i16_to_le_bytes(self.value));
        assert(self.wire().subrange(3, 5) =~= spec_i16_to_le_bytes(self.adc));
    }
}

#[derive(Clone, Copy, Debug, PartialEq, Eq, Structural)]
pub struct MotorSingleV {
    pub target: u8,
    pub value: i16,
}

impl MotorSingleV {
    pub fn new() -> (r: MotorSingleV)
        ensures
            r.target == 0,
            r.value == 0,
    {
        MotorSingleV {
            target: 0,
            value: 0,
        }
    }

    /// Exact on-wire size of the payload.
    pub open spec fn spec_size() -> usize {
        3
    }

    pub fn size() -> (r: usize)
        ensures
            r == MotorSingleV::spec_size(),
    {
        3
    }

    /// The bytes this value puts on the wire.
    pub open spec fn wire(self) -> Seq<u8> {
        seq![self.target] + spec_i16_to_le_bytes(self.value)
    }

    /// Whether `self` is exactly what the payload bytes `s` decode to.
    pub open spec fn decoded(self, s: Seq<u8>) -> bool {
        self == MotorSingleV::decode(s)
    }

    /// The value a `spec_size()`-byte payload decodes to.
    pub open spec fn decode(s: Seq<u8>) -> MotorSingleV {
        MotorSingleV {
            target: s[0],
            value: spec_i16_from_le_bytes(s.subrange(1, 3)),
        }
    }

    pub fn parse(slice_data: &[u8]) -> (r: Result<MotorSingleV, &'static str>)
        ensures
            slice_data@.len() == MotorSingleV::spec_size() ==> (r matches Ok(v) && v == MotorSingleV::decode(
                slice_data@,
            )),
            slice_data@.len() != MotorSingleV::spec_size() ==> (r matches Err(_)),
    {
        if slice_data.len() == MotorSingleV::size() {
            let mut ext: Extractor = Extractor::from_slice(slice_data);
            let target = ext.get_u8();
            let value = ext.get_i16();
            Ok(MotorSingleV { target, value })
        } else {
            Err("Wrong length")
        }
    }

}

impl MotorSingleV {
    pub fn to_vec(&self) -> (r: Vec<u8>)
        ensures
            r@ == self.wire(),
            r@.len() == MotorSingleV::spec_size(),
    {
        let mut vec_data: Vec<u8> = Vec::new();
        add_u8(&mut vec_data, self.target);
        add_i16(&mut vec_data, self.value);
        proof {
            self.lemma_wire_len();
            assert(vec_data@ =~= self.wire());
        }
        vec_data
    }

    pub proof fn lemma_wire_len(self)
        ensures
            self.wire().len() == MotorSingleV::spec_size(),
    {
        lemma_i16_le_bytes_roundtrip(self.value);
    }

    /// Decoding the wire image of a value gives the value back.
    pub proof fn lemma_wire_roundtrip(self)
        ensures
            self.wire().len() == MotorSingleV::spec_size(),
            MotorSingleV::decode(self.wire()) == self,
    {
        lemma_i16_le_bytes_roundtrip(self.value);
        assert(self.wire()[0] == seq![self.target][0]);
        assert(self.wire().subrange(1, 3) =~= spec_i16_to_le_bytes(self.value));
    }
}

#[derive(Clone, Copy, Debug, PartialEq, Eq, Structural)]
pub struct MotorSingleRV {
    pub target: u8,
    pub rotation: Rotation,
    pub value: i16,
}

impl MotorSingleRV {
    pub fn new() -> (r: MotorSingleRV)
        ensures
            r.target == 0,
            r.rotation == Rotation::Nil,
            r.value == 0,
    {
        MotorSingleRV {
            target: 0,
            rotation: Rotation::Nil,
            value: 0,
        }
    }

    /// Exact on-wire size of the payload.
    pub open spec fn spec_size() -> usize {
        4
    }

    pub fn size() -> (r: usize)
        ensures
            r == MotorSingleRV::spec_size(),
    {
        4
    }

    /// The bytes this value puts on the wire.
    pub open spec fn wire(self) -> Seq<u8> {
        seq![self.target] + seq![self.rotation.code()] + spec_i16_to_le_bytes(self.value)
    }

    /// Whether `self` is exactly what the payload bytes `s` decode to.
    pub open spec fn decoded(self, s: Seq<u8>) -> bool {
        self == MotorSingleRV::decode(s)
    }

    /// The value a `spec_size()`-byte payload decodes to.
    pub open spec fn decode(s: Seq<u8>) -> MotorSingleRV {
        MotorSingleRV {
            target: s[0],
            rotation: Rotation::spec_from_u8(s[1]),
            value: spec_i16_from_le_bytes(s.subrange(2, 4)),
        }
    }

    pub fn parse(slice_data: &[u8]) -> (r: Result<MotorSingleRV, &'static str>)
        ensures
            slice_data@.len() == MotorSingleRV::spec_size() ==> (r matches Ok(v) && v == MotorSingleRV::decode(
                slice_data@,
            )),
            slice_data@.len() != MotorSingleRV::spec_size() ==> (r matches Err(_)),
    {
        if slice_data.len() == MotorSingleRV::size() {
            let mut ext: Extractor = Extractor::from_slice(slice_data);
            let target = ext.get_u8();
            let rotation = Rotation::from_u8(ext.get_u8());
            let value = ext.get_i16();
            Ok(MotorSingleRV { target, rotation, value })
        } else {
            Err("Wrong length")
        }
    }

}

impl MotorSingleRV {
    pub fn to_vec(&self) -> (r: Vec<u8>)
        ensures
            r@ == self.wire(),
            r@.len() == MotorSingleRV::spec_size(),
    {
        let mut vec_data: Vec<u8> = Vec::new();
        add_u8(&mut vec_data, self.target);
        add_u8(&mut vec_data, self.rotation.to_u8());
        add_i16(&mut vec_data, self.value);
        proof {
            self.lemma_wire_len();
            assert(vec_data@ =~= self.wire());
        }
        vec_data
    }

    pub proof fn lemma_wire_len(self)
        ensures
            self.wire().len() == MotorSingleRV::spec_size(),
    {
        lemma_i16_le_bytes_roundtrip(self.value);
    }

    /// Decoding the wire image of a value gives the value back.
    pub proof fn lemma_wire_roundtrip(self)
        ensures
            self.wire().len() == MotorSingleRV::spec_size(),
            MotorSingleRV::decode(self.wire()) == self,
    {
        self.rotation.lemma_code_roundtrip();
        lemma_i16_le_bytes_roundtrip(self.value);
        assert(self.wire()[0] == seq![self.target][0]);
        assert(self.wire()[1] == seq![self.rotation.code()][0]);
        assert(self.wire().subrange(2, 4) =~= spec_i16_to_le_bytes(self.value));
    }
}

} // verus!
