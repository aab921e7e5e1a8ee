//! Control payloads: stick quadruples and position set-points.

use crate::communication::extractor::Extractor;
use crate::communication::serializer::{add_i16, add_i8, add_u32, add_u8};
use crate::wire::{lemma_i16_le_bytes_roundtrip, lemma_i8_byte_roundtrip, 
    lemma_u32_le_bytes_roundtrip, spec_i16_from_le_bytes, spec_i16_to_le_bytes, 
    spec_i8_from_byte, spec_i8_to_byte};
use vstd::bytes::*;
use vstd::prelude::*;

use crate::protocol::DataType;


verus! {

/// Attitude control sticks: roll, pitch, yaw, throttle, each -100..100.
#[derive(Clone, Copy, Debug, PartialEq, Eq, Structural)]
pub struct Quad8 {
    pub roll: i8,
    pub pitch: i8,
    pub yaw: i8,
    pub throttle: i8,
}

impl Quad8 {
    pub fn new() -> (r: Quad8)
        ensures
            r.roll == 0,
            r.pitch == 0,
            r.yaw == 0,
            r.throttle == 0,
    {
        Quad8 {
            roll: 0,
            pitch: 0,
            yaw: 0,
            throttle: 0,
        }
    }

    /// Exact on-wire size of the payload.
    pub open spec fn spec_size() -> usize {
        4
    }

    pub fn size() -> (r: usize)
        ensures
            r == Quad8::spec_size(),
    {
        4
    }

    /// The bytes this value puts on the wire.
    pub open spec fn wire(self) -> Seq<u8> {
        seq![spec_i8_to_byte(self.roll)] + seq![spec_i8_to_byte(self.pitch)] + seq![spec_i8_to_byte(self.yaw)] + seq![spec_i8_to_byte(self.throttle)]
    }

    /// Whether `self` is exactly what the payload bytes `s` decode to.
    pub open spec fn decoded(self, s: Seq<u8>) -> bool {
        self == Quad8::decode(s)
    }

    /// The value a `spec_size()`-byte payload decodes to.
    pub open spec fn decode(s: Seq<u8>) -> Quad8 {
        Quad8 {
            roll: spec_i8_from_byte(s[0]),
            pitch: spec_i8_from_byte(s[1]),
            yaw: spec_i8_from_byte(s[2]),
            throttle: spec_i8_from_byte(s[3]),
        }
    }

    pub fn parse(slice_data: &[u8]) -> (r: Result<Quad8, &'static str>)
        ensures
            slice_data@.len() == Quad8::spec_size() ==> (r matches Ok(v) && v == Quad8::decode(
                slice_data@,
            )),
            slice_data@.len() != Quad8::spec_size() ==> (r matches Err(_)),
    {
        if slice_data.len() == Quad8::size() {
            let mut ext: Extractor = Extractor::from_slice(slice_data);
            let roll = ext.get_i8();
            let pitch = ext.get_i8();
            let yaw = ext.get_i8();
            let throttle = ext.get_i8();
            Ok(Quad8 { roll, pitch, yaw, throttle })
        } else {
            Err("Wrong length")
        }
    }

}

impl Quad8 {
    pub fn to_vec(&self) -> (r: Vec<u8>)
        ensures
            r@ == self.wire(),
            r@.len() == Quad8::spec_size(),
    {
        let mut vec_data: Vec<u8> = Vec::new();
        add_i8(&mut vec_data, self.roll);
        add_i8(&mut vec_data, self.pitch);
        add_i8(&mut vec_data, self.yaw);
        add_i8(&mut vec_data, self.throttle);
        proof {
            self.lemma_wire_len();
            assert(vec_data@ =~= self.wire());
        }
        vec_data
    }

    pub proof fn lemma_wire_len(self)
        ensures
            self.wire().len() == Quad8::spec_size(),
    {
    }

    /// Decoding the wire image of a value gives the value back.
    pub proof fn lemma_wire_roundtrip(self)
        ensures
            self.wire().len() == Quad8::spec_size(),
            Quad8::decode(self.wire()) == self,
    {
        lemma_i8_byte_roundtrip(self.roll);
        lemma_i8_byte_roundtrip(self.pitch);
        lemma_i8_byte_roundtrip(self.yaw);
        lemma_i8_byte_roundtrip(self.throttle);
        assert(self.wire()[0] == seq![spec_i8_to_byte(self.roll)][0]);
        assert(self.wire()[1] == seq![spec_i8_to_byte(self.pitch)][0]);
        assert(self.wire()[2] == seq![spec_i8_to_byte(self.yaw)][0]);
        assert(self.wire()[3] == seq![spec_i8_to_byte(self.throttle)][0]);
    }
}

/// Control sticks plus a request for one payload kind in the same frame.
#[derive(Clone, Copy, Debug, PartialEq, Eq, Structural)]
pub struct Quad8AndRequestData {
    pub roll: i8,
    pub pitch: i8,
    pub yaw: i8,
    pub throttle: i8,
    pub data_type: DataType,
}

impl Quad8AndRequestData {
    pub fn new() -> (r: Quad8AndRequestData)
        ensures
            r.roll == 0,
            r.pitch == 0,
            r.yaw == 0,
            r.throttle == 0,
            r.data_type == DataType::Nil,
    {
        Quad8AndRequestData {
            roll: 0,
            pitch: 0,
            yaw: 0,
            throttle: 0,
            data_type: DataType::Nil,
        }
    }

    /// Exact on-wire size of the payload.
    pub open spec fn spec_size() -> usize {
        5
    }

    pub fn size() -> (r: usize)
        ensures
            r == Quad8AndRequestData::spec_size(),
    {
        5
    }

    /// The bytes this value puts on the wire.
    pub open spec fn wire(self) -> Seq<u8> {
        seq![spec_i8_to_byte(self.roll)] + seq![spec_i8_to_byte(self.pitch)] + seq![spec_i8_to_byte(self.yaw)] + seq![spec_i8_to_byte(self.throttle)] + seq![self.data_type.code()]
    }

    /// Whether `self` is exactly what the payload bytes `s` decode to.
    pub open spec fn decoded(self, s: Seq<u8>) -> bool {
        self == Quad8AndRequestData::decode(s)
    }

    /// The value a `spec_size()`-byte payload decodes to.
    pub open spec fn decode(s: Seq<u8>) -> Quad8AndRequestData {
        Quad8AndRequestData {
            roll: spec_i8_from_byte(s[0]),
            pitch: spec_i8_from_byte(s[1]),
            yaw: spec_i8_from_byte(s[2]),
            throttle: spec_i8_from_byte(s[3]),
            data_type: DataType::spec_from_u8(s[4]),
        }
    }

    pub fn parse(slice_data: &[u8]) -> (r: Result<Quad8AndRequestData, &'static str>)
        ensures
            slice_data@.len() == Quad8AndRequestData::spec_size() ==> (r matches Ok(v) && v == Quad8AndRequestData::decode(
                slice_data@,
            )),
            slice_data@.len() != Quad8AndRequestData::spec_size() ==> (r matches Err(_)),
    {
        if slice_data.len() == Quad8AndRequestData::size() {
            let mut ext: Extractor = Extractor::from_slice(slice_data);
            let roll = ext.get_i8();
            let pitch = ext.get_i8();
            let yaw = ext.get_i8();
            let throttle = ext.get_i8();
            let data_type = DataType::from_u8(ext.get_u8());
            Ok(Quad8AndRequestData { roll, pitch, yaw, throttle, data_type })
        } else {
            Err("Wrong length")
        }
    }

}

impl Quad8AndRequestData {
    pub fn to_vec(&self) -> (r: Vec<u8>)
        ensures
            r@ == self.wire(),
            r@.len() == Quad8AndRequestData::spec_size(),
    {
        let mut vec_data: Vec<u8> = Vec::new();
        add_i8(&mut vec_data, self.roll);
        add_i8(&mut vec_data, self.pitch);
        add_i8(&mut vec_data, self.yaw);
        add_i8(&mut vec_data, self.throttle);
        add_u8(&mut vec_data, self.data_type.to_u8());
        proof {
            self.lemma_wire_len();
            assert(vec_data@ =~= self.wire());
        }
        vec_data
    }

    pub proof fn lemma_wire_len(self)
        ensures
            self.wire().len() == Quad8AndRequestData::spec_size(),
    {
    }

    /// Decoding the wire image of a value gives the value back.
    pub proof fn lemma_wire_roundtrip(self)
        ensures
            self.wire().len() == Quad8AndRequestData::spec_size(),
            Quad8AndRequestData::decode(self.wire()) == self,
    {
        lemma_i8_byte_roundtrip(self.roll);
        lemma_i8_byte_roundtrip(self.pitch);
        lemma_i8_byte_roundtrip(self.yaw);
        lemma_i8_byte_roundtrip(self.throttle);
        self.data_type.lemma_code_roundtrip();
        assert(self.wire()[0] == seq![spec_i8_to_byte(self.roll)][0]);
        assert(self.wire()[1] == seq![spec_i8_to_byte(self.pitch)][0]);
        assert(self.wire()[2] == seq![spec_i8_to_byte(self.yaw)][0]);
        assert(self.wire()[3] == seq![spec_i8_to_byte(self.throttle)][0]);
        assert(self.wire()[4] == seq![self.data_type.code()][0]);
    }
}

/// Position-mode control with every quantity scaled to 16-bit integers.
#[derive(Clone, Copy, Debug, PartialEq, Eq, Structural)]
pub struct Position16 {
    pub position_x: i16,
    pub position_y: i16,
    pub position_z: i16,
    pub velocity: i16,
    pub heading: i16,
    pub rotational_velocity: i16,
}

impl Position16 {
    pub fn new() -> (r: Position16)
        ensures
            r.position_x == 0,
            r.position_y == 0,
            r.position_z == 0,
            r.velocity == 0,
            r.heading == 0,
            r.rotational_velocity == 0,
    {
        Position16 {
            position_x: 0,
            position_y: 0,
            position_z: 0,
            velocity: 0,
            heading: 0,
            rotational_velocity: 0,
        }
    }

    /// Exact on-wire size of the payload.
    pub open spec fn spec_size() -> usize {
        12
    }

    pub fn size() -> (r: usize)
        ensures
            r == Position16::spec_size(),
    {
        12
    }

    /// The bytes this value puts on the wire.
    pub open spec fn wire(self) -> Seq<u8> {
        spec_i16_to_le_bytes(self.position_x) + spec_i16_to_le_bytes(self.position_y) + spec_i16_to_le_bytes(self.position_z) + spec_i16_to_le_bytes(self.velocity) + spec_i16_to_le_bytes(self.heading) + spec_i16_to_le_bytes(self.rotational_velocity)
    }

    /// Whether `self` is exactly what the payload bytes `s` decode to.
    pub open spec fn decoded(self, s: Seq<u8>) -> bool {
        self == Position16::decode(s)
    }

    /// The value a `spec_size()`-byte payload decodes to.
    pub open spec fn decode(s: Seq<u8>) -> Position16 {
        Position16 {
            position_x: spec_i16_from_le_bytes(s.subrange(0, 2)),
            position_y: spec_i16_from_le_bytes(s.subrange(2, 4)),
            position_z: spec_i16_from_le_bytes(s.subrange(4, 6)),
            velocity: spec_i16_from_le_bytes(s.subrange(6, 8)),
            heading: spec_i16_from_le_bytes(s.subrange(8, 10)),
            rotational_velocity: spec_i16_from_le_bytes(s.subrange(10, 12)),
        }
    }

    pub fn parse(slice_data: &[u8]) -> (r: Result<Position16, &'static str>)
        ensures
            slice_data@.len() == Position16::spec_size() ==> (r matches Ok(v) && v == Position16::decode(
                slice_data@,
            )),
            slice_data@.len() != Position16::spec_size() ==> (r matches Err(_)),
    {
        if slice_data.len() == Position16::size() {
            let mut ext: Extractor = Extractor::from_slice(slice_data);
            let position_x = ext.get_i16();
            let position_y = ext.get_i16();
            let position_z = ext.get_i16();
            let velocity = ext.get_i16();
            let heading = ext.get_i16();
            let rotational_velocity = ext.get_i16();
            Ok(Position16 { position_x, position_y, position_z, velocity, heading, rotational_velocity })
        } else {
            Err("Wrong length")
        }
    }

}

impl Position16 {
    pub fn to_vec(&self) -> (r: Vec<u8>)
        ensures
            r@ == self.wire(),
            r@.len() == Position16::spec_size(),
    {
        let mut vec_data: Vec<u8> = Vec::new();
        add_i16(&mut vec_data, self.position_x);
        add_i16(&mut vec_data, self.position_y);
        add_i16(&mut vec_data, self.position_z);
        add_i16(&mut vec_data, self.velocity);
        add_i16(&mut vec_data, self.heading);
        add_i16(&mut vec_data, self.rotational_velocity);
        proof {
            self.lemma_wire_len();
            assert(vec_data@ =~= self.wire());
        }
        vec_data
    }

    pub proof fn lemma_wire_len(self)
        ensures
            self.wire().len() == Position16::spec_size(),
    {
        lemma_i16_le_bytes_roundtrip(self.position_x);
        lemma_i16_le_bytes_roundtrip(self.position_y);
        lemma_i16_le_bytes_roundtrip(self.position_z);
        lemma_i16_le_bytes_roundtrip(self.velocity);
        lemma_i16_le_bytes_roundtrip(self.heading);
        lemma_i16_le_bytes_roundtrip(self.rotational_velocity);
    }

    /// Decoding the wire image of a value gives the value back.
    pub proof fn lemma_wire_roundtrip(self)
        ensures
            self.wire().len() == Position16::spec_size(),
            Position16::decode(self.wire()) == self,
    {
        lemma_i16_le_bytes_roundtrip(self.position_x);
        lemma_i16_le_bytes_roundtrip(self.position_y);
        lemma_i16_le_bytes_roundtrip(self.position_z);
        lemma_i16_le_bytes_roundtrip(self.velocity);
        lemma_i16_le_bytes_roundtrip(self.heading);
        lemma_i16_le_bytes_roundtrip(self.rotational_velocity);
        assert(self.wire().subrange(0, 2) =~= spec_i16_to_le_bytes(self.position_x));
        assert(self.wire().subrange(2, 4) =~= spec_i16_to_le_bytes(self.position_y));
        assert(self.wire().subrange(4, 6) =~= spec_i16_to_le_bytes(self.position_z));
        assert(self.wire().subrange(6, 8) =~= spec_i16_to_le_bytes(self.velocity));
        assert(self.wire().subrange(8, 10) =~= spec_i16_to_le_bytes(self.heading));
        assert(self.wire().subrange(10, 12) =~= spec_i16_to_le_bytes(self.rotational_velocity));
    }
}

/// Position-mode control; x, y, z and velocity carry IEEE-754 single-precision bit patterns.
#[derive(Clone, Copy, Debug, PartialEq, Eq, Structural)]
pub struct Position {
    pub x: u32,
    pub y: u32,
    pub z: u32,
    pub velocity: u32,
    pub heading: i16,
    pub rotational_velocity: i16,
}

impl Position {
    pub fn new() -> (r: Position)
        ensures
            r.x == 0,
            r.y == 0,
            r.z == 0,
            r.velocity == 0,
            r.heading == 0,
            r.rotational_velocity == 0,
    {
        Position {
            x: 0,
            y: 0,
            z: 0,
            velocity: 0,
            heading: 0,
            rotational_velocity: 0,
        }
    }

    /// Exact on-wire size of the payload.
    pub open spec fn spec_size() -> usize {
        20
    }

    pub fn size() -> (r: usize)
        ensures
            r == Position::spec_size(),
    {
        20
    }

    /// The bytes this value puts on the wire.
    pub open spec fn wire(self) -> Seq<u8> {
        spec_u32_to_le_bytes(self.x) + spec_u32_to_le_bytes(self.y) + spec_u32_to_le_bytes(self.z) + spec_u32_to_le_bytes(self.velocity) + spec_i16_to_le_bytes(self.heading) + spec_i16_to_le_bytes(self.rotational_velocity)
    }

    /// Whether `self` is exactly what the payload bytes `s` decode to.
    pub open spec fn decoded(self, s: Seq<u8>) -> bool {
        self == Position::decode(s)
    }

    /// The value a `spec_size()`-byte payload decodes to.
    pub open spec fn decode(s: Seq<u8>) -> Position {
        Position {
            x: spec_u32_from_le_bytes(s.subrange(0, 4)),
            y: spec_u32_from_le_bytes(s.subrange(4, 8)),
            z: spec_u32_from_le_bytes(s.subrange(8, 12)),
            velocity: spec_u32_from_le_bytes(s.subrange(12, 16)),
            heading: spec_i16_from_le_bytes(s.subrange(16, 18)),
            rotational_velocity: spec_i16_from_le_bytes(s.subrange(18, 20)),
        }
    }

    pub fn parse(slice_data: &[u8]) -> (r: Result<Position, &'static str>)
        ensures
            slice_data@.len() == Position::spec_size() ==> (r matches Ok(v) && v == Position::decode(
                slice_data@,
            )),
            slice_data@.len() != Position::spec_size() ==> (r matches Err(_)),
    {
        if slice_data.len() == Position::size() {
            let mut ext: Extractor = Extractor::from_slice(slice_data);
            let x = ext.get_u32();
            let y = ext.get_u32();
            let z = ext.get_u32();
            let velocity = ext.get_u32();
            let heading = ext.get_i16();
            let rotational_velocity = ext.get_i16();
            Ok(Position { x, y, z, velocity, heading, rotational_velocity })
        } else {
            Err("Wrong length")
        }
    }

}

impl Position {
    pub fn to_vec(&self) -> (r: Vec<u8>)
        ensures
            r@ == self.wire(),
            r@.len() == Position::spec_size(),
    {
        let mut vec_data: Vec<u8> = Vec::new();
        add_u32(&mut vec_data, self.x);
        add_u32(&mut vec_data, self.y);
        add_u32(&mut vec_data, self.z);
        add_u32(&mut vec_data, self.velocity);
        add_i16(&mut vec_data, self.heading);
        add_i16(&mut vec_data, self.rotational_velocity);
        proof {
            self.lemma_wire_len();
            assert(vec_data@ =~= self.wire());
        }
        vec_data
    }

    pub proof fn lemma_wire_len(self)
        ensures
            self.wire().len() == Position::spec_size(),
    {
        lemma_u32_le_bytes_roundtrip(self.x);
        lemma_u32_le_bytes_roundtrip(self.y);
        lemma_u32_le_bytes_roundtrip(self.z);
        lemma_u32_le_bytes_roundtrip(self.velocity);
        lemma_i16_le_bytes_roundtrip(self.heading);
        lemma_i16_le_bytes_roundtrip(self.rotational_velocity);
    }

    /// Decoding the wire image of a value gives the value back.
    pub proof fn lemma_wire_roundtrip(self)
        ensures
            self.wire().len() == Position::spec_size(),
            Position::decode(self.wire()) == self,
    {
        lemma_u32_le_bytes_roundtrip(self.x);
        lemma_u32_le_bytes_roundtrip(self.y);
        lemma_u32_le_bytes_roundtrip(self.z);
        lemma_u32_le_bytes_roundtrip(self.velocity);
        lemma_i16_le_bytes_roundtrip(self.heading);
        lemma_i16_le_bytes_roundtrip(self.rotational_velocity);
        assert(self.wire().subrange(0, 4) =~= spec_u32_to_le_bytes(self.x));
        assert(self.wire().subrange(4, 8) =~= spec_u32_to_le_bytes(self.y));
        assert(self.wire().subrange(8, 12) =~= spec_u32_to_le_bytes(self.z));
        assert(self.wire().subrange(12, 16) =~= spec_u32_to_le_bytes(self.velocity));
        assert(self.wire().subrange(16, 18) =~= spec_i16_to_le_bytes(self.heading));
        assert(self.wire().subrange(18, 20) =~= spec_i16_to_le_bytes(self.rotational_velocity));
    }
}

} // verus!
