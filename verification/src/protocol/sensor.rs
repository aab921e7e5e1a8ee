//! Sensor payloads: raw readings, fused state, biases and trims.

use crate::communication::extractor::Extractor;
use crate::communication::serializer::{add_i16, add_u32};
use crate::wire::{lemma_i16_le_bytes_roundtrip, lemma_u32_le_bytes_roundtrip, 
    spec_i16_from_le_bytes, spec_i16_to_le_bytes};
use vstd::bytes::*;
use vstd::prelude::*;


verus! {

#[derive(Clone, Copy, Debug, PartialEq, Eq, Structural)]
pub struct RawMotion {
    pub accel_x: i16,
    pub accel_y: i16,
    pub accel_z: i16,
    pub gyro_roll: i16,
    pub gyro_pitch: i16,
    pub gyro_yaw: i16,
}

impl RawMotion {
    pub fn new() -> (r: RawMotion)
        ensures
            r.accel_x == 0,
            r.accel_y == 0,
            r.accel_z == 0,
            r.gyro_roll == 0,
            r.gyro_pitch == 0,
            r.gyro_yaw == 0,
    {
        RawMotion {
            accel_x: 0,
            accel_y: 0,
            accel_z: 0,
            gyro_roll: 0,
            gyro_pitch: 0,
            gyro_yaw: 0,
        }
    }

    /// Exact on-wire size of the payload.
    pub open spec fn spec_size() -> usize {
        12
    }

    pub fn size() -> (r: usize)
        ensures
            r == RawMotion::spec_size(),
    {
        12
    }

    /// The bytes this value puts on the wire.
    pub open spec fn wire(self) -> Seq<u8> {
        spec_i16_to_le_bytes(self.accel_x) + spec_i16_to_le_bytes(self.accel_y) + spec_i16_to_le_bytes(self.accel_z) + spec_i16_to_le_bytes(self.gyro_roll) + spec_i16_to_le_bytes(self.gyro_pitch) + spec_i16_to_le_bytes(self.gyro_yaw)
    }

    /// Whether `self` is exactly what the payload bytes `s` decode to.
    pub open spec fn decoded(self, s: Seq<u8>) -> bool {
        self == RawMotion::decode(s)
    }

    /// The value a `spec_size()`-byte payload decodes to.
    pub open spec fn decode(s: Seq<u8>) -> RawMotion {
        RawMotion {
            accel_x: spec_i16_from_le_bytes(s.subrange(0, 2)),
            accel_y: spec_i16_from_le_bytes(s.subrange(2, 4)),
            accel_z: spec_i16_from_le_bytes(s.subrange(4, 6)),
            gyro_roll: spec_i16_from_le_bytes(s.subrange(6, 8)),
            gyro_pitch: spec_i16_from_le_bytes(s.subrange(8, 10)),
            gyro_yaw: spec_i16_from_le_bytes(s.subrange(10, 12)),
        }
    }

    pub fn parse(slice_data: &[u8]) -> (r: Result<RawMotion, &'static str>)
        ensures
            slice_data@.len() == RawMotion::spec_size() ==> (r matches Ok(v) && v == RawMotion::decode(
                slice_data@,
            )),
            slice_data@.len() != RawMotion::spec_size() ==> (r matches Err(_)),
    {
        if slice_data.len() == RawMotion::size() {
            let mut ext: Extractor = Extractor::from_slice(slice_data);
            let accel_x = ext.get_i16();
            let accel_y = ext.get_i16();
            let accel_z = ext.get_i16();
            let gyro_roll = ext.get_i16();
            let gyro_pitch = ext.get_i16();
            let gyro_yaw = ext.get_i16();
            Ok(RawMotion { accel_x, accel_y, accel_z, gyro_roll, gyro_pitch, gyro_yaw })
        } else {
            Err("Wrong length")
        }
    }

}

impl RawMotion {
    pub fn to_vec(&self) -> (r: Vec<u8>)
        ensures
            r@ == self.wire(),
            r@.len() == RawMotion::spec_size(),
    {
        let mut vec_data: Vec<u8> = Vec::new();
        add_i16(&mut vec_data, self.accel_x);
        add_i16(&mut vec_data, self.accel_y);
        add_i16(&mut vec_data, self.accel_z);
        add_i16(&mut vec_data, self.gyro_roll);
        add_i16(&mut vec_data, self.gyro_pitch);
        add_i16(&mut vec_data, self.gyro_yaw);
        proof {
            self.lemma_wire_len();
            assert(vec_data@ =~= self.wire());
        }
        vec_data
    }

    pub proof fn lemma_wire_len(self)
        ensures
            self.wire().len() == RawMotion::spec_size(),
    {
        lemma_i16_le_bytes_roundtrip(self.accel_x);
        lemma_i16_le_bytes_roundtrip(self.accel_y);
        lemma_i16_le_bytes_roundtrip(self.accel_z);
        lemma_i16_le_bytes_roundtrip(self.gyro_roll);
        lemma_i16_le_bytes_roundtrip(self.gyro_pitch);
        lemma_i16_le_bytes_roundtrip(self.gyro_yaw);
    }

    /// Decoding the wire image of a value gives the value back.
    pub proof fn lemma_wire_roundtrip(self)
        ensures
            self.wire().len() == RawMotion::spec_size(),
            RawMotion::decode(self.wire()) == self,
    {
        lemma_i16_le_bytes_roundtrip(self.accel_x);
        lemma_i16_le_bytes_roundtrip(self.accel_y);
        lemma_i16_le_bytes_roundtrip(self.accel_z);
        lemma_i16_le_bytes_roundtrip(self.gyro_roll);
        lemma_i16_le_bytes_roundtrip(self.gyro_pitch);
        lemma_i16_le_bytes_roundtrip(self.gyro_yaw);
        assert(self.wire().subrange(0, 2) =~= spec_i16_to_le_bytes(self.accel_x));
        assert(self.wire().subrange(2, 4) =~= spec_i16_to_le_bytes(self.accel_y));
        assert(self.wire().subrange(4, 6) =~= spec_i16_to_le_bytes(self.accel_z));
        assert(self.wire().subrange(6, 8) =~= spec_i16_to_le_bytes(self.gyro_roll));
        assert(self.wire().subrange(8, 10) =~= spec_i16_to_le_bytes(self.gyro_pitch));
        assert(self.wire().subrange(10, 12) =~= spec_i16_to_le_bytes(self.gyro_yaw));
    }
}

/// Raw optical-flow deltas; x and y carry IEEE-754 single-precision bit patterns.
#[derive(Clone, Copy, Debug, PartialEq, Eq, Structural)]
pub struct RawFlow {
    pub x: u32,
    pub y: u32,
}

impl RawFlow {
    pub fn new() -> (r: RawFlow)
        ensures
            r.x == 0,
            r.y == 0,
    {
        RawFlow {
            x: 0,
            y: 0,
        }
    }

    /// Exact on-wire size of the payload.
    pub open spec fn spec_size() -> usize {
        8
    }

    pub fn size() -> (r: usize)
        ensures
            r == RawFlow::spec_size(),
    {
        8
    }

    /// The bytes this value puts on the wire.
    pub open spec fn wire(self) -> Seq<u8> {
        spec_u32_to_le_bytes(self.x) + spec_u32_to_le_bytes(self.y)
    }

    /// Whether `self` is exactly what the payload bytes `s` decode to.
    pub open spec fn decoded(self, s: Seq<u8>) -> bool {
        self == RawFlow::decode(s)
    }

    /// The value a `spec_size()`-byte payload decodes to.
    pub open spec fn decode(s: Seq<u8>) -> RawFlow {
        RawFlow {
            x: spec_u32_from_le_bytes(s.subrange(0, 4)),
            y: spec_u32_from_le_bytes(s.subrange(4, 8)),
        }
    }

    pub fn parse(slice_data: &[u8]) -> (r: Result<RawFlow, &'static str>)
        ensures
            slice_data@.len() == RawFlow::spec_size() ==> (r matches Ok(v) && v == RawFlow::decode(
                slice_data@,
            )),
            slice_data@.len() != RawFlow::spec_size() ==> (r matches Err(_)),
    {
        if slice_data.len() == RawFlow::size() {
            let mut ext: Extractor = Extractor::from_slice(slice_data);
            let x = ext.get_u32();
            let y = ext.get_u32();
            Ok(RawFlow { x, y })
        } else {
            Err("Wrong length")
        }
    }

}

impl RawFlow {
    pub fn to_vec(&self) -> (r: Vec<u8>)
        ensures
            r@ == self.wire(),
            r@.len() == RawFlow::spec_size(),
    {
        let mut vec_data: Vec<u8> = Vec::new();
        add_u32(&mut vec_data, self.x);
        add_u32(&mut vec_data, self.y);
        proof {
            self.lemma_wire_len();
            assert(vec_data@ =~= self.wire());
        }
        vec_data
    }

    pub proof fn lemma_wire_len(self)
        ensures
            self.wire().len() == RawFlow::spec_size(),
    {
        lemma_u32_le_bytes_roundtrip(self.x);
        lemma_u32_le_bytes_roundtrip(self.y);
    }

    /// Decoding the wire image of a value gives the value back.
    pub proof fn lemma_wire_roundtrip(self)
        ensures
            self.wire().len() == RawFlow::spec_size(),
            RawFlow::decode(self.wire()) == self,
    {
        lemma_u32_le_bytes_roundtrip(self.x);
        lemma_u32_le_bytes_roundtrip(self.y);
        assert(self.wire().subrange(0, 4) =~= spec_u32_to_le_bytes(self.x));
        assert(self.wire().subrange(4, 8) =~= spec_u32_to_le_bytes(self.y));
    }
}

#[derive(Clone, Copy, Debug, PartialEq, Eq, Structural)]
pub struct Attitude {
    pub roll: i16,
    pub pitch: i16,
    pub yaw: i16,
}

impl Attitude {
    pub fn new() -> (r: Attitude)
        ensures
            r.roll == 0,
            r.pitch == 0,
            r.yaw == 0,
    {
        Attitude {
            roll: 0,
            pitch: 0,
            yaw: 0,
        }
    }

    /// Exact on-wire size of the payload.
    pub open spec fn spec_size() -> usize {
        6
    }

    pub fn size() -> (r: usize)
        ensures
            r == Attitude::spec_size(),
    {
        6
    }

    /// The bytes this value puts on the wire.
    pub open spec fn wire(self) -> Seq<u8> {
        spec_i16_to_le_bytes(self.roll) + spec_i16_to_le_bytes(self.pitch) + spec_i16_to_le_bytes(self.yaw)
    }

    /// Whether `self` is exactly what the payload bytes `s` decode to.
    pub open spec fn decoded(self, s: Seq<u8>) -> bool {
        self == Attitude::decode(s)
    }

    /// The value a `spec_size()`-byte payload decodes to.
    pub open spec fn decode(s: Seq<u8>) -> Attitude {
        Attitude {
            roll: spec_i16_from_le_bytes(s.subrange(0, 2)),
            pitch: spec_i16_from_le_bytes(s.subrange(2, 4)),
            yaw: spec_i16_from_le_bytes(s.subrange(4, 6)),
        }
    }

    pub fn parse(slice_data: &[u8]) -> (r: Result<Attitude, &'static str>)
        ensures
            slice_data@.len() == Attitude::spec_size() ==> (r matches Ok(v) && v == Attitude::decode(
                slice_data@,
            )),
            slice_data@.len() != Attitude::spec_size() ==> (r matches Err(_)),
    {
        if slice_data.len() == Attitude::size() {
            let mut ext: Extractor = Extractor::from_slice(slice_data);
            let roll = ext.get_i16();
            let pitch = ext.get_i16();
            let yaw = ext.get_i16();
            Ok(Attitude { roll, pitch, yaw })
        } else {
            Err("Wrong length")
        }
    }

}

impl Attitude {
    pub fn to_vec(&self) -> (r: Vec<u8>)
        ensures
            r@ == self.wire(),
            r@.len() == Attitude::spec_size(),
    {
        let mut vec_data: Vec<u8> = Vec::new();
        add_i16(&mut vec_data, self.roll);
        add_i16(&mut vec_data, self.pitch);
        add_i16(&mut vec_data, self.yaw);
        proof {
            self.lemma_wire_len();
            assert(vec_data@ =~= self.wire());
        }
        vec_data
    }

    pub proof fn lemma_wire_len(self)
        ensures
            self.wire().len() == Attitude::spec_size(),
    {
        lemma_i16_le_bytes_roundtrip(self.roll);
        lemma_i16_le_bytes_roundtrip(self.pitch);
        lemma_i16_le_bytes_roundtrip(self.yaw);
    }

    /// Decoding the wire image of a value gives the value back.
    pub proof fn lemma_wire_roundtrip(self)
        ensures
            self.wire().len() == Attitude::spec_size(),
            Attitude::decode(self.wire()) == self,
    {
        lemma_i16_le_bytes_roundtrip(self.roll);
        lemma_i16_le_bytes_roundtrip(self.pitch);
        lemma_i16_le_bytes_roundtrip(self.yaw);
        assert(self.wire().subrange(0, 2) =~= spec_i16_to_le_bytes(self.roll));
        assert(self.wire().subrange(2, 4) =~= spec_i16_to_le_bytes(self.pitch));
        assert(self.wire().subrange(4, 6) =~= spec_i16_to_le_bytes(self.yaw));
    }
}

#[derive(Clone, Copy, Debug, PartialEq, Eq, Structural)]
pub struct Motion {
    pub accel_x: i16,
    pub accel_y: i16,
    pub accel_z: i16,
    pub gyro_roll: i16,
    pub gyro_pitch: i16,
    pub gyro_yaw: i16,
    pub angle_roll: i16,
    pub angle_pitch: i16,
    pub angle_yaw: i16,
}

impl Motion {
    pub fn new() -> (r: Motion)
        ensures
            r.accel_x == 0,
            r.accel_y == 0,
            r.accel_z == 0,
            r.gyro_roll == 0,
            r.gyro_pitch == 0,
            r.gyro_yaw == 0,
            r.angle_roll == 0,
            r.angle_pitch == 0,
            r.angle_yaw == 0,
    {
        Motion {
            accel_x: 0,
            accel_y: 0,
            accel_z: 0,
            gyro_roll: 0,
            gyro_pitch: 0,
            gyro_yaw: 0,
            angle_roll: 0,
            angle_pitch: 0,
            angle_yaw: 0,
        }
    }

    /// Exact on-wire size of the payload.
    pub open spec fn spec_size() -> usize {
        18
    }

    pub fn size() -> (r: usize)
        ensures
            r == Motion::spec_size(),
    {
        18
    }

    /// The bytes this value puts on the wire.
    pub open spec fn wire(self) -> Seq<u8> {
        spec_i16_to_le_bytes(self.accel_x) + spec_i16_to_le_bytes(self.accel_y) + spec_i16_to_le_bytes(self.accel_z) + spec_i16_to_le_bytes(self.gyro_roll) + spec_i16_to_le_bytes(self.gyro_pitch) + spec_i16_to_le_bytes(self.gyro_yaw) + spec_i16_to_le_bytes(self.angle_roll) + spec_i16_to_le_bytes(self.angle_pitch) + spec_i16_to_le_bytes(self.angle_yaw)
    }

    /// Whether `self` is exactly what the payload bytes `s` decode to.
    pub open spec fn decoded(self, s: Seq<u8>) -> bool {
        self == Motion::decode(s)
    }

    /// The value a `spec_size()`-byte payload decodes to.
    pub open spec fn decode(s: Seq<u8>) -> Motion {
        Motion {
            accel_x: spec_i16_from_le_bytes(s.subrange(0, 2)),
            accel_y: spec_i16_from_le_bytes(s.subrange(2, 4)),
            accel_z: spec_i16_from_le_bytes(s.subrange(4, 6)),
            gyro_roll: spec_i16_from_le_bytes(s.subrange(6, 8)),
            gyro_pitch: spec_i16_from_le_bytes(s.subrange(8, 10)),
            gyro_yaw: spec_i16_from_le_bytes(s.subrange(10, 12)),
            angle_roll: spec_i16_from_le_bytes(s.subrange(12, 14)),
            angle_pitch: spec_i16_from_le_bytes(s.subrange(14, 16)),
            angle_yaw: spec_i16_from_le_bytes(s.subrange(16, 18)),
        }
    }

    pub fn parse(slice_data: &[u8]) -> (r: Result<Motion, &'static str>)
        ensures
            slice_data@.len() == Motion::spec_size() ==> (r matches Ok(v) && v == Motion::decode(
                slice_data@,
            )),
            slice_data@.len() != Motion::spec_size() ==> (r matches Err(_)),
    {
        if slice_data.len() == Motion::size() {
            let mut ext: Extractor = Extractor::from_slice(slice_data);
            let accel_x = ext.get_i16();
            let accel_y = ext.get_i16();
            let accel_z = ext.get_i16();
            let gyro_roll = ext.get_i16();
            let gyro_pitch = ext.get_i16();
            let gyro_yaw = ext.get_i16();
            let angle_roll = ext.get_i16();
            let angle_pitch = ext.get_i16();
            let angle_yaw = ext.get_i16();
            Ok(Motion { accel_x, accel_y, accel_z, gyro_roll, gyro_pitch, gyro_yaw, angle_roll, angle_pitch, angle_yaw })
        } else {
            Err("Wrong length")
        }
    }

}

impl Motion {
    pub fn to_vec(&self) -> (r: Vec<u8>)
        ensures
            r@ == self.wire(),
            r@.len() == Motion::spec_size(),
    {
        let mut vec_data: Vec<u8> = Vec::new();
        add_i16(&mut vec_data, self.accel_x);
        add_i16(&mut vec_data, self.accel_y);
        add_i16(&mut vec_data, self.accel_z);
        add_i16(&mut vec_data, self.gyro_roll);
        add_i16(&mut vec_data, self.gyro_pitch);
        add_i16(&mut vec_data, self.gyro_yaw);
        add_i16(&mut vec_data, self.angle_roll);
        add_i16(&mut vec_data, self.angle_pitch);
        add_i16(&mut vec_data, self.angle_yaw);
        proof {
            self.lemma_wire_len();
            assert(vec_data@ =~= self.wire());
        }
        vec_data
    }

    pub proof fn lemma_wire_len(self)
        ensures
            self.wire().len() == Motion::spec_size(),
    {
        lemma_i16_le_bytes_roundtrip(self.accel_x);
        lemma_i16_le_bytes_roundtrip(self.accel_y);
        lemma_i16_le_bytes_roundtrip(self.accel_z);
        lemma_i16_le_bytes_roundtrip(self.gyro_roll);
        lemma_i16_le_bytes_roundtrip(self.gyro_pitch);
        lemma_i16_le_bytes_roundtrip(self.gyro_yaw);
        lemma_i16_le_bytes_roundtrip(self.angle_roll);
        lemma_i16_le_bytes_roundtrip(self.angle_pitch);
        lemma_i16_le_bytes_roundtrip(self.angle_yaw);
    }

    /// Decoding the wire image of a value gives the value back.
    pub proof fn lemma_wire_roundtrip(self)
        ensures
            self.wire().len() == Motion::spec_size(),
            Motion::decode(self.wire()) == self,
    {
        lemma_i16_le_bytes_roundtrip(self.accel_x);
        lemma_i16_le_bytes_roundtrip(self.accel_y);
        lemma_i16_le_bytes_roundtrip(self.accel_z);
        lemma_i16_le_bytes_roundtrip(self.gyro_roll);
        lemma_i16_le_bytes_roundtrip(self.gyro_pitch);
        lemma_i16_le_bytes_roundtrip(self.gyro_yaw);
        lemma_i16_le_bytes_roundtrip(self.angle_roll);
        lemma_i16_le_bytes_roundtrip(self.angle_pitch);
        lemma_i16_le_bytes_roundtrip(self.angle_yaw);
        assert(self.wire().subrange(0, 2) =~= spec_i16_to_le_bytes(self.accel_x));
        assert(self.wire().subrange(2, 4) =~= spec_i16_to_le_bytes(self.accel_y));
        assert(self.wire().subrange(4, 6) =~= spec_i16_to_le_bytes(self.accel_z));
        assert(self.wire().subrange(6, 8) =~= spec_i16_to_le_bytes(self.gyro_roll));
        assert(self.wire().subrange(8, 10) =~= spec_i16_to_le_bytes(self.gyro_pitch));
        assert(self.wire().subrange(10, 12) =~= spec_i16_to_le_bytes(self.gyro_yaw));
        assert(self.wire().subrange(12, 14) =~= spec_i16_to_le_bytes(self.angle_roll));
        assert(self.wire().subrange(14, 16) =~= spec_i16_to_le_bytes(self.angle_pitch));
        assert(self.wire().subrange(16, 18) =~= spec_i16_to_le_bytes(self.angle_yaw));
    }
}

#[derive(Clone, Copy, Debug, PartialEq, Eq, Structural)]
pub struct Range {
    pub left: i16,
    pub front: i16,
    pub right: i16,
    pub rear: i16,
    pub top: i16,
    pub bottom: i16,
}

impl Range {
    pub fn new() -> (r: Range)
        ensures
            r.left == 0,
            r.front == 0,
            r.right == 0,
            r.rear == 0,
            r.top == 0,
            r.bottom == 0,
    {
        Range {
            left: 0,
            front: 0,
            right: 0,
            rear: 0,
            top: 0,
            bottom: 0,
        }
    }

    /// Exact on-wire size of the payload.
    pub open spec fn spec_size() -> usize {
        12
    }

    pub fn size() -> (r: usize)
        ensures
            r == Range::spec_size(),
    {
        12
    }

    /// The bytes this value puts on the wire.
    pub open spec fn wire(self) -> Seq<u8> {
        spec_i16_to_le_bytes(self.left) + spec_i16_to_le_bytes(self.front) + spec_i16_to_le_bytes(self.right) + spec_i16_to_le_bytes(self.rear) + spec_i16_to_le_bytes(self.top) + spec_i16_to_le_bytes(self.bottom)
    }

    /// Whether `self` is exactly what the payload bytes `s` decode to.
    pub open spec fn decoded(self, s: Seq<u8>) -> bool {
        self == Range::decode(s)
    }

    /// The value a `spec_size()`-byte payload decodes to.
    pub open spec fn decode(s: Seq<u8>) -> Range {
        Range {
            left: spec_i16_from_le_bytes(s.subrange(0, 2)),
            front: spec_i16_from_le_bytes(s.subrange(2, 4)),
            right: spec_i16_from_le_bytes(s.subrange(4, 6)),
            rear: spec_i16_from_le_bytes(s.subrange(6, 8)),
            top: spec_i16_from_le_bytes(s.subrange(8, 10)),
            bottom: spec_i16_from_le_bytes(s.subrange(10, 12)),
        }
    }

    pub fn parse(slice_data: &[u8]) -> (r: Result<Range, &'static str>)
        ensures
            slice_data@.len() == Range::spec_size() ==> (r matches Ok(v) && v == Range::decode(
                slice_data@,
            )),
            slice_data@.len() != Range::spec_size() ==> (r matches Err(_)),
    {
        if slice_data.len() == Range::size() {
            let mut ext: Extractor = Extractor::from_slice(slice_data);
            let left = ext.get_i16();
            let front = ext.get_i16();
            let right = ext.get_i16();
            let rear = ext.get_i16();
            let top = ext.get_i16();
            let bottom = ext.get_i16();
            Ok(Range { left, front, right, rear, top, bottom })
        } else {
            Err("Wrong length")
        }
    }

}

impl Range {
    pub fn to_vec(&self) -> (r: Vec<u8>)
        ensures
            r@ == self.wire(),
            r@.len() == Range::spec_size(),
    {
        let mut vec_data: Vec<u8> = Vec::new();
        add_i16(&mut vec_data, self.left);
        add_i16(&mut vec_data, self.front);
        add_i16(&mut vec_data, self.right);
        add_i16(&mut vec_data, self.rear);
        add_i16(&mut vec_data, self.top);
        add_i16(&mut vec_data, self.bottom);
        proof {
            self.lemma_wire_len();
            assert(vec_data@ =~= self.wire());
        }
        vec_data
    }

    pub proof fn lemma_wire_len(self)
        ensures
            self.wire().len() == Range::spec_size(),
    {
        lemma_i16_le_bytes_roundtrip(self.left);
        lemma_i16_le_bytes_roundtrip(self.front);
        lemma_i16_le_bytes_roundtrip(self.right);
        lemma_i16_le_bytes_roundtrip(self.rear);
        lemma_i16_le_bytes_roundtrip(self.top);
        lemma_i16_le_bytes_roundtrip(self.bottom);
    }

    /// Decoding the wire image of a value gives the value back.
    pub proof fn lemma_wire_roundtrip(self)
        ensures
            self.wire().len() == Range::spec_size(),
            Range::decode(self.wire()) == self,
    {
        lemma_i16_le_bytes_roundtrip(self.left);
        lemma_i16_le_bytes_roundtrip(self.front);
        lemma_i16_le_bytes_roundtrip(self.right);
        lemma_i16_le_bytes_roundtrip(self.rear);
        lemma_i16_le_bytes_roundtrip(self.top);
        lemma_i16_le_bytes_roundtrip(self.bottom);
        assert(self.wire().subrange(0, 2) =~= spec_i16_to_le_bytes(self.left));
        assert(self.wire().subrange(2, 4) =~= spec_i16_to_le_bytes(self.front));
        assert(self.wire().subrange(4, 6) =~= spec_i16_to_le_bytes(self.right));
        assert(self.wire().subrange(6, 8) =~= spec_i16_to_le_bytes(self.rear));
        assert(self.wire().subrange(8, 10) =~= spec_i16_to_le_bytes(self.top));
        assert(self.wire().subrange(10, 12) =~= spec_i16_to_le_bytes(self.bottom));
    }
}

/// Position in meters; x, y, z carry IEEE-754 single-precision bit patterns.
#[derive(Clone, Copy, Debug, PartialEq, Eq, Structural)]
pub struct Position {
    pub x: u32,
    pub y: u32,
    pub z: u32,
}

impl Position {
    pub fn new() -> (r: Position)
        ensures
            r.x == 0,
            r.y == 0,
            r.z == 0,
    {
        Position {
            x: 0,
            y: 0,
            z: 0,
        }
    }

    /// Exact on-wire size of the payload.
    pub open spec fn spec_size() -> usize {
        12
    }

    pub fn size() -> (r: usize)
        ensures
            r == Position::spec_size(),
    {
        12
    }

    /// The bytes this value puts on the wire.
    pub open spec fn wire(self) -> Seq<u8> {
        spec_u32_to_le_bytes(self.x) + spec_u32_to_le_bytes(self.y) + spec_u32_to_le_bytes(self.z)
    }

    /// Whether `self` is exactly what the payload bytes `s` decode to.
    pub open spec fn decoded(self, s: Seq<u8>) -> bool {
        self == Position::decode(s)
    }

    /// The value a `spec_size()`-byte payload decodes to.
    pub open spec fn decode(s: Seq<u8>) -> Position {
        Position {
            x: spec_u32_from_le_bytes(s.subrange(0, 4)),
            y: spec_u32_from_le_bytes(s.subrange(4, 8)),
            z: spec_u32_from_le_bytes(s.subrange(8, 12)),
        }
    }

    pub fn parse(slice_data: &[u8]) -> (r: Result<Position, &'static str>)
        ensures
            slice_data@.len() == Position::spec_size() ==> (r matches Ok(v) && v == Position::decode(
                slice_data@,
            )),
            slice_data@.len() != Position::spec_size() ==> (r matches Err(_)),
    {
        if slice_data.len() == Position::size() {
            let mut ext: Extractor = Extractor::from_slice(slice_data);
            let x = ext.get_u32();
            let y = ext.get_u32();
            let z = ext.get_u32();
            Ok(Position { x, y, z })
        } else {
            Err("Wrong length")
        }
    }

}

impl Position {
    pub fn to_vec(&self) -> (r: Vec<u8>)
        ensures
            r@ == self.wire(),
            r@.len() == Position::spec_size(),
    {
        let mut vec_data: Vec<u8> = Vec::new();
        add_u32(&mut vec_data, self.x);
        add_u32(&mut vec_data, self.y);
        add_u32(&mut vec_data, self.z);
        proof {
            self.lemma_wire_len();
            assert(vec_data@ =~= self.wire());
        }
        vec_data
    }

    pub proof fn lemma_wire_len(self)
        ensures
            self.wire().len() == Position::spec_size(),
    {
        lemma_u32_le_bytes_roundtrip(self.x);
        lemma_u32_le_bytes_roundtrip(self.y);
        lemma_u32_le_bytes_roundtrip(self.z);
    }

    /// Decoding the wire image of a value gives the value back.
    pub proof fn lemma_wire_roundtrip(self)
        ensures
            self.wire().len() == Position::spec_size(),
            Position::decode(self.wire()) == self,
    {
        lemma_u32_le_bytes_roundtrip(self.x);
        lemma_u32_le_bytes_roundtrip(self.y);
        lemma_u32_le_bytes_roundtrip(self.z);
        assert(self.wire().subrange(0, 4) =~= spec_u32_to_le_bytes(self.x));
        assert(self.wire().subrange(4, 8) =~= spec_u32_to_le_bytes(self.y));
        assert(self.wire().subrange(8, 12) =~= spec_u32_to_le_bytes(self.z));
    }
}

/// Position and velocity; all six fields carry IEEE-754 single-precision bit patterns.
#[derive(Clone, Copy, Debug, PartialEq, Eq, Structural)]
pub struct PositionVelocity {
    pub x: u32,
    pub y: u32,
    pub z: u32,
    pub vx: u32,
    pub vy: u32,
    pub vz: u32,
}

impl PositionVelocity {
    pub fn new() -> (r: PositionVelocity)
        ensures
            r.x == 0,
            r.y == 0,
            r.z == 0,
            r.vx == 0,
            r.vy == 0,
            r.vz == 0,
    {
        PositionVelocity {
            x: 0,
            y: 0,
            z: 0,
            vx: 0,
            vy: 0,
            vz: 0,
        }
    }

    /// Exact on-wire size of the payload.
    pub open spec fn spec_size() -> usize {
        24
    }

    pub fn size() -> (r: usize)
        ensures
            r == PositionVelocity::spec_size(),
    {
        24
    }

    /// The bytes this value puts on the wire.
    pub open spec fn wire(self) -> Seq<u8> {
        spec_u32_to_le_bytes(self.x) + spec_u32_to_le_bytes(self.y) + spec_u32_to_le_bytes(self.z) + spec_u32_to_le_bytes(self.vx) + spec_u32_to_le_bytes(self.vy) + spec_u32_to_le_bytes(self.vz)
    }

    /// Whether `self` is exactly what the payload bytes `s` decode to.
    pub open spec fn decoded(self, s: Seq<u8>) -> bool {
        self == PositionVelocity::decode(s)
    }

    /// The value a `spec_size()`-byte payload decodes to.
    pub open spec fn decode(s: Seq<u8>) -> PositionVelocity {
        PositionVelocity {
            x: spec_u32_from_le_bytes(s.subrange(0, 4)),
            y: spec_u32_from_le_bytes(s.subrange(4, 8)),
            z: spec_u32_from_le_bytes(s.subrange(8, 12)),
            vx: spec_u32_from_le_bytes(s.subrange(12, 16)),
            vy: spec_u32_from_le_bytes(s.subrange(16, 20)),
            vz: spec_u32_from_le_bytes(s.subrange(20, 24)),
        }
    }

    pub fn parse(slice_data: &[u8]) -> (r: Result<PositionVelocity, &'static str>)
        ensures
            slice_data@.len() == PositionVelocity::spec_size() ==> (r matches Ok(v) && v == PositionVelocity::decode(
                slice_data@,
            )),
            slice_data@.len() != PositionVelocity::spec_size() ==> (r matches Err(_)),
    {
        if slice_data.len() == PositionVelocity::size() {
            let mut ext: Extractor = Extractor::from_slice(slice_data);
            let x = ext.get_u32();
            let y = ext.get_u32();
            let z = ext.get_u32();
            let vx = ext.get_u32();
            let vy = ext.get_u32();
            let vz = ext.get_u32();
            Ok(PositionVelocity { x, y, z, vx, vy, vz })
        } else {
            Err("Wrong length")
        }
    }

}

impl PositionVelocity {
    pub fn to_vec(&self) -> (r: Vec<u8>)
        ensures
            r@ == self.wire(),
            r@.len() == PositionVelocity::spec_size(),
    {
        let mut vec_data: Vec<u8> = Vec::new();
        add_u32(&mut vec_data, self.x);
        add_u32(&mut vec_data, self.y);
        add_u32(&mut vec_data, self.z);
        add_u32(&mut vec_data, self.vx);
        add_u32(&mut vec_data, self.vy);
        add_u32(&mut vec_data, self.vz);
        proof {
            self.lemma_wire_len();
            assert(vec_data@ =~= self.wire());
        }
        vec_data
    }

    pub proof fn lemma_wire_len(self)
        ensures
            self.wire().len() == PositionVelocity::spec_size(),
    {
        lemma_u32_le_bytes_roundtrip(self.x);
        lemma_u32_le_bytes_roundtrip(self.y);
        lemma_u32_le_bytes_roundtrip(self.z);
        lemma_u32_le_bytes_roundtrip(self.vx);
        lemma_u32_le_bytes_roundtrip(self.vy);
        lemma_u32_le_bytes_roundtrip(self.vz);
    }

    /// Decoding the wire image of a value gives the value back.
    pub proof fn lemma_wire_roundtrip(self)
        ensures
            self.wire().len() == PositionVelocity::spec_size(),
            PositionVelocity::decode(self.wire()) == self,
    {
        lemma_u32_le_bytes_roundtrip(self.x);
        lemma_u32_le_bytes_roundtrip(self.y);
        lemma_u32_le_bytes_roundtrip(self.z);
        lemma_u32_le_bytes_roundtrip(self.vx);
        lemma_u32_le_bytes_roundtrip(self.vy);
        lemma_u32_le_bytes_roundtrip(self.vz);
        assert(self.wire().subrange(0, 4) =~= spec_u32_to_le_bytes(self.x));
        assert(self.wire().subrange(4, 8) =~= spec_u32_to_le_bytes(self.y));
        assert(self.wire().subrange(8, 12) =~= spec_u32_to_le_bytes(self.z));
        assert(self.wire().subrange(12, 16) =~= spec_u32_to_le_bytes(self.vx));
        assert(self.wire().subrange(16, 20) =~= spec_u32_to_le_bytes(self.vy));
        assert(self.wire().subrange(20, 24) =~= spec_u32_to_le_bytes(self.vz));
    }
}

#[derive(Clone, Copy, Debug, PartialEq, Eq, Structural)]
pub struct Bias {
    pub accel_x: i16,
    pub accel_y: i16,
    pub accel_z: i16,
    pub gyro_roll: i16,
    pub gyro_pitch: i16,
    pub gyro_yaw: i16,
}

impl Bias {
    pub fn new() -> (r: Bias)
        ensures
            r.accel_x == 0,
            r.accel_y == 0,
            r.accel_z == 0,
            r.gyro_roll == 0,
            r.gyro_pitch == 0,
            r.gyro_yaw == 0,
    {
        Bias {
            accel_x: 0,
            accel_y: 0,
            accel_z: 0,
            gyro_roll: 0,
            gyro_pitch: 0,
            gyro_yaw: 0,
        }
    }

    /// Exact on-wire size of the payload.
    pub open spec fn spec_size() -> usize {
        12
    }

    pub fn size() -> (r: usize)
        ensures
            r == Bias::spec_size(),
    {
        12
    }

    /// The bytes this value puts on the wire.
    pub open spec fn wire(self) -> Seq<u8> {
        spec_i16_to_le_bytes(self.accel_x) + spec_i16_to_le_bytes(self.accel_y) + spec_i16_to_le_bytes(self.accel_z) + spec_i16_to_le_bytes(self.gyro_roll) + spec_i16_to_le_bytes(self.gyro_pitch) + spec_i16_to_le_bytes(self.gyro_yaw)
    }

    /// Whether `self` is exactly what the payload bytes `s` decode to.
    pub open spec fn decoded(self, s: Seq<u8>) -> bool {
        self == Bias::decode(s)
    }

    /// The value a `spec_size()`-byte payload decodes to.
    pub open spec fn decode(s: Seq<u8>) -> Bias {
        Bias {
            accel_x: spec_i16_from_le_bytes(s.subrange(0, 2)),
            accel_y: spec_i16_from_le_bytes(s.subrange(2, 4)),
            accel_z: spec_i16_from_le_bytes(s.subrange(4, 6)),
            gyro_roll: spec_i16_from_le_bytes(s.subrange(6, 8)),
            gyro_pitch: spec_i16_from_le_bytes(s.subrange(8, 10)),
            gyro_yaw: spec_i16_from_le_bytes(s.subrange(10, 12)),
        }
    }

    pub fn parse(slice_data: &[u8]) -> (r: Result<Bias, &'static str>)
        ensures
            slice_data@.len() == Bias::spec_size() ==> (r matches Ok(v) && v == Bias::decode(
                slice_data@,
            )),
            slice_data@.len() != Bias::spec_size() ==> (r matches Err(_)),
    {
        if slice_data.len() == Bias::size() {
            let mut ext: Extractor = Extractor::from_slice(slice_data);
            let accel_x = ext.get_i16();
            let accel_y = ext.get_i16();
            let accel_z = ext.get_i16();
            let gyro_roll = ext.get_i16();
            let gyro_pitch = ext.get_i16();
            let gyro_yaw = ext.get_i16();
            Ok(Bias { accel_x, accel_y, accel_z, gyro_roll, gyro_pitch, gyro_yaw })
        } else {
            Err("Wrong length")
        }
    }

}

impl Bias {
    pub fn to_vec(&self) -> (r: Vec<u8>)
        ensures
            r@ == self.wire(),
            r@.len() == Bias::spec_size(),
    {
        let mut vec_data: Vec<u8> = Vec::new();
        add_i16(&mut vec_data, self.accel_x);
        add_i16(&mut vec_data, self.accel_y);
        add_i16(&mut vec_data, self.accel_z);
        add_i16(&mut vec_data, self.gyro_roll);
        add_i16(&mut vec_data, self.gyro_pitch);
        add_i16(&mut vec_data, self.gyro_yaw);
        proof {
            self.lemma_wire_len();
            assert(vec_data@ =~= self.wire());
        }
        vec_data
    }

    pub proof fn lemma_wire_len(self)
        ensures
            self.wire().len() == Bias::spec_size(),
    {
        lemma_i16_le_bytes_roundtrip(self.accel_x);
        lemma_i16_le_bytes_roundtrip(self.accel_y);
        lemma_i16_le_bytes_roundtrip(self.accel_z);
        lemma_i16_le_bytes_roundtrip(self.gyro_roll);
        lemma_i16_le_bytes_roundtrip(self.gyro_pitch);
        lemma_i16_le_bytes_roundtrip(self.gyro_yaw);
    }

    /// Decoding the wire image of a value gives the value back.
    pub proof fn lemma_wire_roundtrip(self)
        ensures
            self.wire().len() == Bias::spec_size(),
            Bias::decode(self.wire()) == self,
    {
        lemma_i16_le_bytes_roundtrip(self.accel_x);
        lemma_i16_le_bytes_roundtrip(self.accel_y);
        lemma_i16_le_bytes_roundtrip(self.accel_z);
        lemma_i16_le_bytes_roundtrip(self.gyro_roll);
        lemma_i16_le_bytes_roundtrip(self.gyro_pitch);
        lemma_i16_le_bytes_roundtrip(self.gyro_yaw);
        assert(self.wire().subrange(0, 2) =~= spec_i16_to_le_bytes(self.accel_x));
        assert(self.wire().subrange(2, 4) =~= spec_i16_to_le_bytes(self.accel_y));
        assert(self.wire().subrange(4, 6) =~= spec_i16_to_le_bytes(self.accel_z));
        assert(self.wire().subrange(6, 8) =~= spec_i16_to_le_bytes(self.gyro_roll));
        assert(self.wire().subrange(8, 10) =~= spec_i16_to_le_bytes(self.gyro_pitch));
        assert(self.wire().subrange(10, 12) =~= spec_i16_to_le_bytes(self.gyro_yaw));
    }
}

#[derive(Clone, Copy, Debug, PartialEq, Eq, Structural)]
pub struct Trim {
    pub roll: i16,
    pub pitch: i16,
    pub yaw: i16,
    pub throttle: i16,
}

impl Trim {
    pub fn new() -> (r: Trim)
        ensures
            r.roll == 0,
            r.pitch == 0,
            r.yaw == 0,
            r.throttle == 0,
    {
        Trim {
            roll: 0,
            pitch: 0,
            yaw: 0,
            throttle: 0,
        }
    }

    /// Exact on-wire size of the payload.
    pub open spec fn spec_size() -> usize {
        8
    }

    pub fn size() -> (r: usize)
        ensures
            r == Trim::spec_size(),
    {
        8
    }

    /// The bytes this value puts on the wire.
    pub open spec fn wire(self) -> Seq<u8> {
        spec_i16_to_le_bytes(self.roll) + spec_i16_to_le_bytes(self.pitch) + spec_i16_to_le_bytes(self.yaw) + spec_i16_to_le_bytes(self.throttle)
    }

    /// Whether `self` is exactly what the payload bytes `s` decode to.
    pub open spec fn decoded(self, s: Seq<u8>) -> bool {
        self == Trim::decode(s)
    }

    /// The value a `spec_size()`-byte payload decodes to.
    pub open spec fn decode(s: Seq<u8>) -> Trim {
        Trim {
            roll: spec_i16_from_le_bytes(s.subrange(0, 2)),
            pitch: spec_i16_from_le_bytes(s.subrange(2, 4)),
            yaw: spec_i16_from_le_bytes(s.subrange(4, 6)),
            throttle: spec_i16_from_le_bytes(s.subrange(6, 8)),
        }
    }

    pub fn parse(slice_data: &[u8]) -> (r: Result<Trim, &'static str>)
        ensures
            slice_data@.len() == Trim::spec_size() ==> (r matches Ok(v) && v == Trim::decode(
                slice_data@,
            )),
            slice_data@.len() != Trim::spec_size() ==> (r matches Err(_)),
    {
        if slice_data.len() == Trim::size() {
            let mut ext: Extractor = Extractor::from_slice(slice_data);
            let roll = ext.get_i16();
            let pitch = ext.get_i16();
            let yaw = ext.get_i16();
            let throttle = ext.get_i16();
            Ok(Trim { roll, pitch, yaw, throttle })
        } else {
            Err("Wrong length")
        }
    }

}

impl Trim {
    pub fn to_vec(&self) -> (r: Vec<u8>)
        ensures
            r@ == self.wire(),
            r@.len() == Trim::spec_size(),
    {
        let mut vec_data: Vec<u8> = Vec::new();
        add_i16(&mut vec_data, self.roll);
        add_i16(&mut vec_data, self.pitch);
        add_i16(&mut vec_data, self.yaw);
        add_i16(&mut vec_data, self.throttle);
        proof {
            self.lemma_wire_len();
            assert(vec_data@ =~= self.wire());
        }
        vec_data
    }

    pub proof fn lemma_wire_len(self)
        ensures
            self.wire().len() == Trim::spec_size(),
    {
        lemma_i16_le_bytes_roundtrip(self.roll);
        lemma_i16_le_bytes_roundtrip(self.pitch);
        lemma_i16_le_bytes_roundtrip(self.yaw);
        lemma_i16_le_bytes_roundtrip(self.throttle);
    }

    /// Decoding the wire image of a value gives the value back.
    pub proof fn lemma_wire_roundtrip(self)
        ensures
            self.wire().len() == Trim::spec_size(),
            Trim::decode(self.wire()) == self,
    {
        lemma_i16_le_bytes_roundtrip(self.roll);
        lemma_i16_le_bytes_roundtrip(self.pitch);
        lemma_i16_le_bytes_roundtrip(self.yaw);
        lemma_i16_le_bytes_roundtrip(self.throttle);
        assert(self.wire().subrange(0, 2) =~= spec_i16_to_le_bytes(self.roll));
        assert(self.wire().subrange(2, 4) =~= spec_i16_to_le_bytes(self.pitch));
        assert(self.wire().subrange(4, 6) =~= spec_i16_to_le_bytes(self.yaw));
        assert(self.wire().subrange(6, 8) =~= spec_i16_to_le_bytes(self.throttle));
    }
}

#[derive(Clone, Copy, Debug, PartialEq, Eq, Structural)]
pub struct MagnetometerOffset {
    pub offset: i16,
}

impl MagnetometerOffset {
    pub fn new() -> (r: MagnetometerOffset)
        ensures
            r.offset == 0,
    {
        MagnetometerOffset {
            offset: 0,
        }
    }

    /// Exact on-wire size of the payload.
    pub open spec fn spec_size() -> usize {
        2
    }

    pub fn size() -> (r: usize)
        ensures
            r == MagnetometerOffset::spec_size(),
    {
        2
    }

    /// The bytes this value puts on the wire.
    pub open spec fn wire(self) -> Seq<u8> {
        spec_i16_to_le_bytes(self.offset)
    }

    /// Whether `self` is exactly what the payload bytes `s` decode to.
    pub open spec fn decoded(self, s: Seq<u8>) -> bool {
        self == MagnetometerOffset::decode(s)
    }

    /// The value a `spec_size()`-byte payload decodes to.
    pub open spec fn decode(s: Seq<u8>) -> MagnetometerOffset {
        MagnetometerOffset {
            offset: spec_i16_from_le_bytes(s.subrange(0, 2)),
        }
    }

    pub fn parse(slice_data: &[u8]) -> (r: Result<MagnetometerOffset, &'static str>)
        ensures
            slice_data@.len() == MagnetometerOffset::spec_size() ==> (r matches Ok(v) && v == MagnetometerOffset::decode(
                slice_data@,
            )),
            slice_data@.len() != MagnetometerOffset::spec_size() ==> (r matches Err(_)),
    {
        if slice_data.len() == MagnetometerOffset::size() {
            let mut ext: Extractor = Extractor::from_slice(slice_data);
            let offset = ext.get_i16();
            Ok(MagnetometerOffset { offset })
        } else {
            Err("Wrong length")
        }
    }

}

impl MagnetometerOffset {
    pub fn to_vec(&self) -> (r: Vec<u8>)
        ensures
            r@ == self.wire(),
            r@.len() == MagnetometerOffset::spec_size(),
    {
        let mut vec_data: Vec<u8> = Vec::new();
        add_i16(&mut vec_data, self.offset);
        proof {
            self.lemma_wire_len();
            assert(vec_data@ =~= self.wire());
        }
        vec_data
    }

    pub proof fn lemma_wire_len(self)
        ensures
            self.wire().len() == MagnetometerOffset::spec_size(),
    {
        lemma_i16_le_bytes_roundtrip(self.offset);
    }

    /// Decoding the wire image of a value gives the value back.
    pub proof fn lemma_wire_roundtrip(self)
        ensures
            self.wire().len() == MagnetometerOffset::spec_size(),
            MagnetometerOffset::decode(self.wire()) == self,
    {
        lemma_i16_le_bytes_roundtrip(self.offset);
        assert(self.wire().subrange(0, 2) =~= spec_i16_to_le_bytes(self.offset));
    }
}

} // verus!
