//! Navigation payloads: waypoints, fixes and progress reports.

use crate::communication::extractor::Extractor;
use crate::communication::serializer::{add_i16, add_i32, add_u16, add_u32, add_u64, add_u8};
use crate::wire::{lemma_i16_le_bytes_roundtrip, lemma_i32_le_bytes_roundtrip, 
    lemma_u16_le_bytes_roundtrip, lemma_u32_le_bytes_roundtrip, lemma_u64_le_bytes_roundtrip, 
    spec_i16_from_le_bytes, spec_i16_to_le_bytes, spec_i32_from_le_bytes, spec_i32_to_le_bytes};
use vstd::bytes::*;
use vstd::prelude::*;

pub mod mode;

use mode::{Action, Navigation, NavOption};


verus! {

/// A full waypoint: where to go and what to do there.  Latitude and
/// longitude carry IEEE-754 double-precision bit patterns; altitude, speed,
/// heading and rotational speed carry single-precision bit patterns.
#[derive(Clone, Copy, Debug, PartialEq, Eq, Structural)]
pub struct Target {
    pub index: u32,
    pub mode_action: mode::Action,
    pub mode_option: mode::NavOption,
    pub time: u32,
    pub latitude: u64,
    pub longitude: u64,
    pub altitude: u32,
    pub speed: u32,
    pub heading: u32,
    pub rotational_speed: u32,
}

impl Target {
    pub fn new() -> (r: Target)
        ensures
            r.index == 0,
            r.mode_action == mode::Action::Nil,
            r.mode_option == mode::NavOption::Nil,
            r.time == 0,
            r.latitude == 0,
            r.longitude == 0,
            r.altitude == 0,
            r.speed == 0,
            r.heading == 0,
            r.rotational_speed == 0,
    {
        Target {
            index: 0,
            mode_action: mode::Action::Nil,
            mode_option: mode::NavOption::Nil,
            time: 0,
            latitude: 0,
            longitude: 0,
            altitude: 0,
            speed: 0,
            heading: 0,
            rotational_speed: 0,
        }
    }

    /// Exact on-wire size of the payload.
    pub open spec fn spec_size() -> usize {
        48
    }

    pub fn size() -> (r: usize)
        ensures
            r == Target::spec_size(),
    {
        48
    }

    /// The bytes this value puts on the wire.
    pub open spec fn wire(self) -> Seq<u8> {
        spec_u32_to_le_bytes(self.index) + spec_u32_to_le_bytes(self.mode_action.code()) + spec_u32_to_le_bytes(self.mode_option.code()) + spec_u32_to_le_bytes(self.time) + spec_u64_to_le_bytes(self.latitude) + spec_u64_to_le_bytes(self.longitude) + spec_u32_to_le_bytes(self.altitude) + spec_u32_to_le_bytes(self.speed) + spec_u32_to_le_bytes(self.heading) + spec_u32_to_le_bytes(self.rotational_speed)
    }

    /// Whether `self` is exactly what the payload bytes `s` decode to.
    pub open spec fn decoded(self, s: Seq<u8>) -> bool {
        self == Target::decode(s)
    }

    /// The value a `spec_size()`-byte payload decodes to.
    pub open spec fn decode(s: Seq<u8>) -> Target {
        Target {
            index: spec_u32_from_le_bytes(s.subrange(0, 4)),
            mode_action: mode::Action::spec_from_u32(spec_u32_from_le_bytes(s.subrange(4, 8))),
            mode_option: mode::NavOption::spec_from_u32(spec_u32_from_le_bytes(s.subrange(8, 12))),
            time: spec_u32_from_le_bytes(s.subrange(12, 16)),
            latitude: spec_u64_from_le_bytes(s.subrange(16, 24)),
            longitude: spec_u64_from_le_bytes(s.subrange(24, 32)),
            altitude: spec_u32_from_le_bytes(s.subrange(32, 36)),
            speed: spec_u32_from_le_bytes(s.subrange(36, 40)),
            heading: spec_u32_from_le_bytes(s.subrange(40, 44)),
            rotational_speed: spec_u32_from_le_bytes(s.subrange(44, 48)),
        }
    }

    pub fn parse(slice_data: &[u8]) -> (r: Result<Target, &'static str>)
        ensures
            slice_data@.len() == Target::spec_size() ==> (r matches Ok(v) && v == Target::decode(
                slice_data@,
            )),
            slice_data@.len() != Target::spec_size() ==> (r matches Err(_)),
    {
        if slice_data.len() == Target::size() {
            let mut ext: Extractor = Extractor::from_slice(slice_data);
            let index = ext.get_u32();
            let mode_action = mode::Action::from_u32(ext.get_u32());
            let mode_option = mode::NavOption::from_u32(ext.get_u32());
            let time = ext.get_u32();
            let latitude = ext.get_u64();
            let longitude = ext.get_u64();
            let altitude = ext.get_u32();
            let speed = ext.get_u32();
            let heading = ext.get_u32();
            let rotational_speed = ext.get_u32();
            Ok(Target { index, mode_action, mode_option, time, latitude, longitude, altitude, speed, heading, rotational_speed })
        } else {
            Err("Wrong length")
        }
    }

}

impl Target {
    pub fn to_vec(&self) -> (r: Vec<u8>)
        ensures
            r@ == self.wire(),
            r@.len() == Target::spec_size(),
    {
        let mut vec_data: Vec<u8> = Vec::new();
        add_u32(&mut vec_data, self.index);
        add_u32(&mut vec_data, self.mode_action.to_u32());
        add_u32(&mut vec_data, self.mode_option.to_u32());
        add_u32(&mut vec_data, self.time);
        add_u64(&mut vec_data, self.latitude);
        add_u64(&mut vec_data, self.longitude);
        add_u32(&mut vec_data, self.altitude);
        add_u32(&mut vec_data, self.speed);
        add_u32(&mut vec_data, self.heading);
        add_u32(&mut vec_data, self.rotational_speed);
        proof {
            self.lemma_wire_len();
            assert(vec_data@ =~= self.wire());
        }
        vec_data
    }

    pub proof fn lemma_wire_len(self)
        ensures
            self.wire().len() == Target::spec_size(),
    {
        lemma_u32_le_bytes_roundtrip(self.index);
        lemma_u32_le_bytes_roundtrip(self.mode_action.code());
        lemma_u32_le_bytes_roundtrip(self.mode_option.code());
        lemma_u32_le_bytes_roundtrip(self.time);
        lemma_u64_le_bytes_roundtrip(self.latitude);
        lemma_u64_le_bytes_roundtrip(self.longitude);
        lemma_u32_le_bytes_roundtrip(self.altitude);
        lemma_u32_le_bytes_roundtrip(self.speed);
        lemma_u32_le_bytes_roundtrip(self.heading);
        lemma_u32_le_bytes_roundtrip(self.rotational_speed);
    }

    /// Decoding the wire image of a value gives the value back.
    pub proof fn lemma_wire_roundtrip(self)
        ensures
            self.wire().len() == Target::spec_size(),
            Target::decode(self.wire()) == self,
    {
        lemma_u32_le_bytes_roundtrip(self.index);
        lemma_u32_le_bytes_roundtrip(self.mode_action.code());
        self.mode_action.lemma_code_roundtrip();
        lemma_u32_le_bytes_roundtrip(self.mode_option.code());
        self.mode_option.lemma_code_roundtrip();
        lemma_u32_le_bytes_roundtrip(self.time);
        lemma_u64_le_bytes_roundtrip(self.latitude);
        lemma_u64_le_bytes_roundtrip(self.longitude);
        lemma_u32_le_bytes_roundtrip(self.altitude);
        lemma_u32_le_bytes_roundtrip(self.speed);
        lemma_u32_le_bytes_roundtrip(self.heading);
        lemma_u32_le_bytes_roundtrip(self.rotational_speed);
        assert(self.wire().subrange(0, 4) =~= spec_u32_to_le_bytes(self.index));
        assert(self.wire().subrange(4, 8) =~= spec_u32_to_le_bytes(self.mode_action.code()));
        assert(self.wire().subrange(8, 12) =~= spec_u32_to_le_bytes(self.mode_option.code()));
        assert(self.wire().subrange(12, 16) =~= spec_u32_to_le_bytes(self.time));
        assert(self.wire().subrange(16, 24) =~= spec_u64_to_le_bytes(self.latitude));
        assert(self.wire().subrange(24, 32) =~= spec_u64_to_le_bytes(self.longitude));
        assert(self.wire().subrange(32, 36) =~= spec_u32_to_le_bytes(self.altitude));
        assert(self.wire().subrange(36, 40) =~= spec_u32_to_le_bytes(self.speed));
        assert(self.wire().subrange(40, 44) =~= spec_u32_to_le_bytes(self.heading));
        assert(self.wire().subrange(44, 48) =~= spec_u32_to_le_bytes(self.rotational_speed));
    }
}

/// A compact waypoint with every quantity scaled to an integer.
#[derive(Clone, Copy, Debug, PartialEq, Eq, Structural)]
pub struct TargetLight {
    pub index: u16,
    pub mode_action: mode::Action,
    pub mode_option: mode::NavOption,
    pub time: u16,
    pub latitude: i32,
    pub longitude: i32,
    pub altitude: i16,
    pub speed: i16,
    pub heading: i16,
    pub rotational_speed: i16,
}

impl TargetLight {
    pub fn new() -> (r: TargetLight)
        ensures
            r.index == 0,
            r.mode_action == mode::Action::Nil,
            r.mode_option == mode::NavOption::Nil,
            r.time == 0,
            r.latitude == 0,
            r.longitude == 0,
            r.altitude == 0,
            r.speed == 0,
            r.heading == 0,
            r.rotational_speed == 0,
    {
        TargetLight {
            index: 0,
            mode_action: mode::Action::Nil,
            mode_option: mode::NavOption::Nil,
            time: 0,
            latitude: 0,
            longitude: 0,
            altitude: 0,
            speed: 0,
            heading: 0,
            rotational_speed: 0,
        }
    }

    /// Exact on-wire size of the payload.
    pub open spec fn spec_size() -> usize {
        24
    }

    pub fn size() -> (r: usize)
        ensures
            r == TargetLight::spec_size(),
    {
        24
    }

    /// The bytes this value puts on the wire.
    pub open spec fn wire(self) -> Seq<u8> {
        spec_u16_to_le_bytes(self.index) + spec_u16_to_le_bytes(self.mode_action.code() as u16) + spec_u16_to_le_bytes(self.mode_option.code() as u16) + spec_u16_to_le_bytes(self.time) + spec_i32_to_le_bytes(self.latitude) + spec_i32_to_le_bytes(self.longitude) + spec_i16_to_le_bytes(self.altitude) + spec_i16_to_le_bytes(self.speed) + spec_i16_to_le_bytes(self.heading) + spec_i16_to_le_bytes(self.rotational_speed)
    }

    /// Whether `self` is exactly what the payload bytes `s` decode to.
    pub open spec fn decoded(self, s: Seq<u8>) -> bool {
        self == TargetLight::decode(s)
    }

    /// The value a `spec_size()`-byte payload decodes to.
    pub open spec fn decode(s: Seq<u8>) -> TargetLight {
        TargetLight {
            index: spec_u16_from_le_bytes(s.subrange(0, 2)),
            mode_action: mode::Action::spec_from_u32(spec_u16_from_le_bytes(s.subrange(2, 4)) as u32),
            mode_option: mode::NavOption::spec_from_u32(spec_u16_from_le_bytes(s.subrange(4, 6)) as u32),
            time: spec_u16_from_le_bytes(s.subrange(6, 8)),
            latitude: spec_i32_from_le_bytes(s.subrange(8, 12)),
            longitude: spec_i32_from_le_bytes(s.subrange(12, 16)),
            altitude: spec_i16_from_le_bytes(s.subrange(16, 18)),
            speed: spec_i16_from_le_bytes(s.subrange(18, 20)),
            heading: spec_i16_from_le_bytes(s.subrange(20, 22)),
            rotational_speed: spec_i16_from_le_bytes(s.subrange(22, 24)),
        }
    }

    pub fn parse(slice_data: &[u8]) -> (r: Result<TargetLight, &'static str>)
        ensures
            slice_data@.len() == TargetLight::spec_size() ==> (r matches Ok(v) && v == TargetLight::decode(
                slice_data@,
            )),
            slice_data@.len() != TargetLight::spec_size() ==> (r matches Err(_)),
    {
        if slice_data.len() == TargetLight::size() {
            let mut ext: Extractor = Extractor::from_slice(slice_data);
            let index = ext.get_u16();
            let mode_action = mode::Action::from_u32(ext.get_u16() as u32);
            let mode_option = mode::NavOption::from_u32(ext.get_u16() as u32);
            let time = ext.get_u16();
            let latitude = ext.get_i32();
            let longitude = ext.get_i32();
            let altitude = ext.get_i16();
            let speed = ext.get_i16();
            let heading = ext.get_i16();
            let rotational_speed = ext.get_i16();
            Ok(TargetLight { index, mode_action, mode_option, time, latitude, longitude, altitude, speed, heading, rotational_speed })
        } else {
            Err("Wrong length")
        }
    }

}

impl TargetLight {
    pub fn to_vec(&self) -> (r: Vec<u8>)
        ensures
            r@ == self.wire(),
            r@.len() == TargetLight::spec_size(),
    {
        let mut vec_data: Vec<u8> = Vec::new();
        add_u16(&mut vec_data, self.index);
        add_u16(&mut vec_data, self.mode_action.to_u32() as u16);
        add_u16(&mut vec_data, self.mode_option.to_u32() as u16);
        add_u16(&mut vec_data, self.time);
        add_i32(&mut vec_data, self.latitude);
        add_i32(&mut vec_data, self.longitude);
        add_i16(&mut vec_data, self.altitude);
        add_i16(&mut vec_data, self.speed);
        add_i16(&mut vec_data, self.heading);
        add_i16(&mut vec_data, self.rotational_speed);
        proof {
            self.lemma_wire_len();
            assert(vec_data@ =~= self.wire());
        }
        vec_data
    }

    pub proof fn lemma_wire_len(self)
        ensures
            self.wire().len() == TargetLight::spec_size(),
    {
        lemma_u16_le_bytes_roundtrip(self.index);
        lemma_u16_le_bytes_roundtrip(self.mode_action.code() as u16);
        lemma_u16_le_bytes_roundtrip(self.mode_option.code() as u16);
        lemma_u16_le_bytes_roundtrip(self.time);
        lemma_i32_le_bytes_roundtrip(self.latitude);
        lemma_i32_le_bytes_roundtrip(self.longitude);
        lemma_i16_le_bytes_roundtrip(self.altitude);
        lemma_i16_le_bytes_roundtrip(self.speed);
        lemma_i16_le_bytes_roundtrip(self.heading);
        lemma_i16_le_bytes_roundtrip(self.rotational_speed);
    }

    /// Decoding the wire image of a value gives the value back.
    pub proof fn lemma_wire_roundtrip(self)
        ensures
            self.wire().len() == TargetLight::spec_size(),
            TargetLight::decode(self.wire()) == self,
    {
        lemma_u16_le_bytes_roundtrip(self.index);
        lemma_u16_le_bytes_roundtrip(self.mode_action.code() as u16);
        self.mode_action.lemma_code_roundtrip();
        assert(self.mode_action.code() < 0x10000);
        lemma_u16_le_bytes_roundtrip(self.mode_option.code() as u16);
        self.mode_option.lemma_code_roundtrip();
        assert(self.mode_option.code() < 0x10000);
        lemma_u16_le_bytes_roundtrip(self.time);
        lemma_i32_le_bytes_roundtrip(self.latitude);
        lemma_i32_le_bytes_roundtrip(self.longitude);
        lemma_i16_le_bytes_roundtrip(self.altitude);
        lemma_i16_le_bytes_roundtrip(self.speed);
        lemma_i16_le_bytes_roundtrip(self.heading);
        lemma_i16_le_bytes_roundtrip(self.rotational_speed);
        assert(self.wire().subrange(0, 2) =~= spec_u16_to_le_bytes(self.index));
        assert(self.wire().subrange(2, 4) =~= spec_u16_to_le_bytes(self.mode_action.code() as u16));
        assert(self.wire().subrange(4, 6) =~= spec_u16_to_le_bytes(self.mode_option.code() as u16));
        assert(self.wire().subrange(6, 8) =~= spec_u16_to_le_bytes(self.time));
        assert(self.wire().subrange(8, 12) =~= spec_i32_to_le_bytes(self.latitude));
        assert(self.wire().subrange(12, 16) =~= spec_i32_to_le_bytes(self.longitude));
        assert(self.wire().subrange(16, 18) =~= spec_i16_to_le_bytes(self.altitude));
        assert(self.wire().subrange(18, 20) =~= spec_i16_to_le_bytes(self.speed));
        assert(self.wire().subrange(20, 22) =~= spec_i16_to_le_bytes(self.heading));
        assert(self.wire().subrange(22, 24) =~= spec_i16_to_le_bytes(self.rotational_speed));
    }
}

/// A GNSS fix; latitude and longitude carry IEEE-754 double-precision bit
/// patterns, altitude a single-precision pattern.
#[derive(Clone, Copy, Debug, PartialEq, Eq, Structural)]
pub struct Location {
    pub fix_type: u8,
    pub num_sv: u8,
    pub latitude: u64,
    pub longitude: u64,
    pub altitude: u32,
}

impl Location {
    pub fn new() -> (r: Location)
        ensures
            r.fix_type == 0,
            r.num_sv == 0,
            r.latitude == 0,
            r.longitude == 0,
            r.altitude == 0,
    {
        Location {
            fix_type: 0,
            num_sv: 0,
            latitude: 0,
            longitude: 0,
            altitude: 0,
        }
    }

    /// Exact on-wire size of the payload.
    pub open spec fn spec_size() -> usize {
        22
    }

    pub fn size() -> (r: usize)
        ensures
            r == Location::spec_size(),
    {
        22
    }

    /// The bytes this value puts on the wire.
    pub open spec fn wire(self) -> Seq<u8> {
        seq![self.fix_type] + seq![self.num_sv] + spec_u64_to_le_bytes(self.latitude) + spec_u64_to_le_bytes(self.longitude) + spec_u32_to_le_bytes(self.altitude)
    }

    /// Whether `self` is exactly what the payload bytes `s` decode to.
    pub open spec fn decoded(self, s: Seq<u8>) -> bool {
        self == Location::decode(s)
    }

    /// The value a `spec_size()`-byte payload decodes to.
    pub open spec fn decode(s: Seq<u8>) -> Location {
        Location {
            fix_type: s[0],
            num_sv: s[1],
            latitude: spec_u64_from_le_bytes(s.subrange(2, 10)),
            longitude: spec_u64_from_le_bytes(s.subrange(10, 18)),
            altitude: spec_u32_from_le_bytes(s.subrange(18, 22)),
        }
    }

    pub fn parse(slice_data: &[u8]) -> (r: Result<Location, &'static str>)
        ensures
            slice_data@.len() == Location::spec_size() ==> (r matches Ok(v) && v == Location::decode(
                slice_data@,
            )),
            slice_data@.len() != Location::spec_size() ==> (r matches Err(_)),
    {
        if slice_data.len() == Location::size() {
            let mut ext: Extractor = Extractor::from_slice(slice_data);
            let fix_type = ext.get_u8();
            let num_sv = ext.get_u8();
            let latitude = ext.get_u64();
            let longitude = ext.get_u64();
            let altitude = ext.get_u32();
            Ok(Location { fix_type, num_sv, latitude, longitude, altitude })
        } else {
            Err("Wrong length")
        }
    }

}

impl Location {
    pub fn to_vec(&self) -> (r: Vec<u8>)
        ensures
            r@ == self.wire(),
            r@.len() == Location::spec_size(),
    {
        let mut vec_data: Vec<u8> = Vec::new();
        add_u8(&mut vec_data, self.fix_type);
        add_u8(&mut vec_data, self.num_sv);
        add_u64(&mut vec_data, self.latitude);
        add_u64(&mut vec_data, self.longitude);
        add_u32(&mut vec_data, self.altitude);
        proof {
            self.lemma_wire_len();
            assert(vec_data@ =~= self.wire());
        }
        vec_data
    }

    pub proof fn lemma_wire_len(self)
        ensures
            self.wire().len() == Location::spec_size(),
    {
        lemma_u64_le_bytes_roundtrip(self.latitude);
        lemma_u64_le_bytes_roundtrip(self.longitude);
        lemma_u32_le_bytes_roundtrip(self.altitude);
    }

    /// Decoding the wire image of a value gives the value back.
    pub proof fn lemma_wire_roundtrip(self)
        ensures
            self.wire().len() == Location::spec_size(),
            Location::decode(self.wire()) == self,
    {
        lemma_u64_le_bytes_roundtrip(self.latitude);
        lemma_u64_le_bytes_roundtrip(self.longitude);
        lemma_u32_le_bytes_roundtrip(self.altitude);
        assert(self.wire()[0] == seq![self.fix_type][0]);
        assert(self.wire()[1] == seq![self.num_sv][0]);
        assert(self.wire().subrange(2, 10) =~= spec_u64_to_le_bytes(self.latitude));
        assert(self.wire().subrange(10, 18) =~= spec_u64_to_le_bytes(self.longitude));
        assert(self.wire().subrange(18, 22) =~= spec_u32_to_le_bytes(self.altitude));
    }
}

/// A location correction; latitude and longitude carry IEEE-754
/// double-precision bit patterns.
#[derive(Clone, Copy, Debug, PartialEq, Eq, Structural)]
pub struct LocationAdjust {
    pub mode_navigation: u8,
    pub latitude: u64,
    pub longitude: u64,
}

impl LocationAdjust {
    pub fn new() -> (r: LocationAdjust)
        ensures
            r.mode_navigation == 0,
            r.latitude == 0,
            r.longitude == 0,
    {
        LocationAdjust {
            mode_navigation: 0,
            latitude: 0,
            longitude: 0,
        }
    }

    /// Exact on-wire size of the payload.
    pub open spec fn spec_size() -> usize {
        17
    }

    pub fn size() -> (r: usize)
        ensures
            r == LocationAdjust::spec_size(),
    {
        17
    }

    /// The bytes this value puts on the wire.
    pub open spec fn wire(self) -> Seq<u8> {
        seq![self.mode_navigation] + spec_u64_to_le_bytes(self.latitude) + spec_u64_to_le_bytes(self.longitude)
    }

    /// Whether `self` is exactly what the payload bytes `s` decode to.
    pub open spec fn decoded(self, s: Seq<u8>) -> bool {
        self == LocationAdjust::decode(s)
    }

    /// The value a `spec_size()`-byte payload decodes to.
    pub open spec fn decode(s: Seq<u8>) -> LocationAdjust {
        LocationAdjust {
            mode_navigation: s[0],
            latitude: spec_u64_from_le_bytes(s.subrange(1, 9)),
            longitude: spec_u64_from_le_bytes(s.subrange(9, 17)),
        }
    }

    pub fn parse(slice_data: &[u8]) -> (r: Result<LocationAdjust, &'static str>)
        ensures
            slice_data@.len() == LocationAdjust::spec_size() ==> (r matches Ok(v) && v == LocationAdjust::decode(
                slice_data@,
            )),
            slice_data@.len() != LocationAdjust::spec_size() ==> (r matches Err(_)),
    {
        if slice_data.len() == LocationAdjust::size() {
            let mut ext: Extractor = Extractor::from_slice(slice_data);
            let mode_navigation = ext.get_u8();
            let latitude = ext.get_u64();
            let longitude = ext.get_u64();
            Ok(LocationAdjust { mode_navigation, latitude, longitude })
        } else {
            Err("Wrong length")
        }
    }

}

impl LocationAdjust {
    pub fn to_vec(&self) -> (r: Vec<u8>)
        ensures
            r@ == self.wire(),
            r@.len() == LocationAdjust::spec_size(),
    {
        let mut vec_data: Vec<u8> = Vec::new();
        add_u8(&mut vec_data, self.mode_navigation);
        add_u64(&mut vec_data, self.latitude);
        add_u64(&mut vec_data, self.longitude);
        proof {
            self.lemma_wire_len();
            assert(vec_data@ =~= self.wire());
        }
        vec_data
    }

    pub proof fn lemma_wire_len(self)
        ensures
            self.wire().len() == LocationAdjust::spec_size(),
    {
        lemma_u64_le_bytes_roundtrip(self.latitude);
        lemma_u64_le_bytes_roundtrip(self.longitude);
    }

    /// Decoding the wire image of a value gives the value back.
    pub proof fn lemma_wire_roundtrip(self)
        ensures
            self.wire().len() == LocationAdjust::spec_size(),
            LocationAdjust::decode(self.wire()) == self,
    {
        lemma_u64_le_bytes_roundtrip(self.latitude);
        lemma_u64_le_bytes_roundtrip(self.longitude);
        assert(self.wire()[0] == seq![self.mode_navigation][0]);
        assert(self.wire().subrange(1, 9) =~= spec_u64_to_le_bytes(self.latitude));
        assert(self.wire().subrange(9, 17) =~= spec_u64_to_le_bytes(self.longitude));
    }
}

/// Progress report; distance, velocity and heading carry IEEE-754
/// single-precision bit patterns.
#[derive(Clone, Copy, Debug, PartialEq, Eq, Structural)]
pub struct Monitor {
    pub mode_navigation: mode::Navigation,
    pub distance_to_target: u32,
    pub velocity: u32,
    pub heading: u32,
    pub time_remain: u32,
}

impl Monitor {
    pub fn new() -> (r: Monitor)
        ensures
            r.mode_navigation == mode::Navigation::Nil,
            r.distance_to_target == 0,
            r.velocity == 0,
            r.heading == 0,
            r.time_remain == 0,
    {
        Monitor {
            mode_navigation: mode::Navigation::Nil,
            distance_to_target: 0,
            velocity: 0,
            heading: 0,
            time_remain: 0,
        }
    }

    /// Exact on-wire size of the payload.
    pub open spec fn spec_size() -> usize {
        20
    }

    pub fn size() -> (r: usize)
        ensures
            r == Monitor::spec_size(),
    {
        20
    }

    /// The bytes this value puts on the wire.
    pub open spec fn wire(self) -> Seq<u8> {
        spec_u32_to_le_bytes(self.mode_navigation.code()) + spec_u32_to_le_bytes(self.distance_to_target) + spec_u32_to_le_bytes(self.velocity) + spec_u32_to_le_bytes(self.heading) + spec_u32_to_le_bytes(self.time_remain)
    }

    /// Whether `self` is exactly what the payload bytes `s` decode to.
    pub open spec fn decoded(self, s: Seq<u8>) -> bool {
        self == Monitor::decode(s)
    }

    /// The value a `spec_size()`-byte payload decodes to.
    pub open spec fn decode(s: Seq<u8>) -> Monitor {
        Monitor {
            mode_navigation: mode::Navigation::spec_from_u32(spec_u32_from_le_bytes(s.subrange(0, 4))),
            distance_to_target: spec_u32_from_le_bytes(s.subrange(4, 8)),
            velocity: spec_u32_from_le_bytes(s.subrange(8, 12)),
            heading: spec_u32_from_le_bytes(s.subrange(12, 16)),
            time_remain: spec_u32_from_le_bytes(s.subrange(16, 20)),
        }
    }

    pub fn parse(slice_data: &[u8]) -> (r: Result<Monitor, &'static str>)
        ensures
            slice_data@.len() == Monitor::spec_size() ==> (r matches Ok(v) && v == Monitor::decode(
                slice_data@,
            )),
            slice_data@.len() != Monitor::spec_size() ==> (r matches Err(_)),
    {
        if slice_data.len() == Monitor::size() {
            let mut ext: Extractor = Extractor::from_slice(slice_data);
            let mode_navigation = mode::Navigation::from_u32(ext.get_u32());
            let distance_to_target = ext.get_u32();
            let velocity = ext.get_u32();
            let heading = ext.get_u32();
            let time_remain = ext.get_u32();
            Ok(Monitor { mode_navigation, distance_to_target, velocity, heading, time_remain })
        } else {
            Err("Wrong length")
        }
    }

}

impl Monitor {
    pub fn to_vec(&self) -> (r: Vec<u8>)
        ensures
            r@ == self.wire(),
            r@.len() == Monitor::spec_size(),
    {
        let mut vec_data: Vec<u8> = Vec::new();
        add_u32(&mut vec_data, self.mode_navigation.to_u32());
        add_u32(&mut vec_data, self.distance_to_target);
        add_u32(&mut vec_data, self.velocity);
        add_u32(&mut vec_data, self.heading);
        add_u32(&mut vec_data, self.time_remain);
        proof {
            self.lemma_wire_len();
            assert(vec_data@ =~= self.wire());
        }
        vec_data
    }

    pub proof fn lemma_wire_len(self)
        ensures
            self.wire().len() == Monitor::spec_size(),
    {
        lemma_u32_le_bytes_roundtrip(self.mode_navigation.code());
        lemma_u32_le_bytes_roundtrip(self.distance_to_target);
        lemma_u32_le_bytes_roundtrip(self.velocity);
        lemma_u32_le_bytes_roundtrip(self.heading);
        lemma_u32_le_bytes_roundtrip(self.time_remain);
    }

    /// Decoding the wire image of a value gives the value back.
    pub proof fn lemma_wire_roundtrip(self)
        ensures
            self.wire().len() == Monitor::spec_size(),
            Monitor::decode(self.wire()) == self,
    {
        lemma_u32_le_bytes_roundtrip(self.mode_navigation.code());
        self.mode_navigation.lemma_code_roundtrip();
        lemma_u32_le_bytes_roundtrip(self.distance_to_target);
        lemma_u32_le_bytes_roundtrip(self.velocity);
        lemma_u32_le_bytes_roundtrip(self.heading);
        lemma_u32_le_bytes_roundtrip(self.time_remain);
        assert(self.wire().subrange(0, 4) =~= spec_u32_to_le_bytes(self.mode_navigation.code()));
        assert(self.wire().subrange(4, 8) =~= spec_u32_to_le_bytes(self.distance_to_target));
        assert(self.wire().subrange(8, 12) =~= spec_u32_to_le_bytes(self.velocity));
        assert(self.wire().subrange(12, 16) =~= spec_u32_to_le_bytes(self.heading));
        assert(self.wire().subrange(16, 20) =~= spec_u32_to_le_bytes(self.time_remain));
    }
}

/// Heading diagnostics; all four fields carry IEEE-754 single-precision
/// bit patterns.
#[derive(Clone, Copy, Debug, PartialEq, Eq, Structural)]
pub struct Heading {
    pub heading: u32,
    pub heading_path: u32,
    pub heading_to_target: u32,
    pub heading_error: u32,
}

impl Heading {
    pub fn new() -> (r: Heading)
        ensures
            r.heading == 0,
            r.heading_path == 0,
            r.heading_to_target == 0,
            r.heading_error == 0,
    {
        Heading {
            heading: 0,
            heading_path: 0,
            heading_to_target: 0,
            heading_error: 0,
        }
    }

    /// Exact on-wire size of the payload.
    pub open spec fn spec_size() -> usize {
        16
    }

    pub fn size() -> (r: usize)
        ensures
            r == Heading::spec_size(),
    {
        16
    }

    /// The bytes this value puts on the wire.
    pub open spec fn wire(self) -> Seq<u8> {
        spec_u32_to_le_bytes(self.heading) + spec_u32_to_le_bytes(self.heading_path) + spec_u32_to_le_bytes(self.heading_to_target) + spec_u32_to_le_bytes(self.heading_error)
    }

    /// Whether `self` is exactly what the payload bytes `s` decode to.
    pub open spec fn decoded(self, s: Seq<u8>) -> bool {
        self == Heading::decode(s)
    }

    /// The value a `spec_size()`-byte payload decodes to.
    pub open spec fn decode(s: Seq<u8>) -> Heading {
        Heading {
            heading: spec_u32_from_le_bytes(s.subrange(0, 4)),
            heading_path: spec_u32_from_le_bytes(s.subrange(4, 8)),
            heading_to_target: spec_u32_from_le_bytes(s.subrange(8, 12)),
            heading_error: spec_u32_from_le_bytes(s.subrange(12, 16)),
        }
    }

    pub fn parse(slice_data: &[u8]) -> (r: Result<Heading, &'static str>)
        ensures
            slice_data@.len() == Heading::spec_size() ==> (r matches Ok(v) && v == Heading::decode(
                slice_data@,
            )),
            slice_data@.len() != Heading::spec_size() ==> (r matches Err(_)),
    {
        if slice_data.len() == Heading::size() {
            let mut ext: Extractor = Extractor::from_slice(slice_data);
            let heading = ext.get_u32();
            let heading_path = ext.get_u32();
            let heading_to_target = ext.get_u32();
            let heading_error = ext.get_u32();
            Ok(Heading { heading, heading_path, heading_to_target, heading_error })
        } else {
            Err("Wrong length")
        }
    }

}

impl Heading {
    pub fn to_vec(&self) -> (r: Vec<u8>)
        ensures
            r@ == self.wire(),
            r@.len() == Heading::spec_size(),
    {
        let mut vec_data: Vec<u8> = Vec::new();
        add_u32(&mut vec_data, self.heading);
        add_u32(&mut vec_data, self.heading_path);
        add_u32(&mut vec_data, self.heading_to_target);
        add_u32(&mut vec_data, self.heading_error);
        proof {
            self.lemma_wire_len();
            assert(vec_data@ =~= self.wire());
        }
        vec_data
    }

    pub proof fn lemma_wire_len(self)
        ensures
            self.wire().len() == Heading::spec_size(),
    {
        lemma_u32_le_bytes_roundtrip(self.heading);
        lemma_u32_le_bytes_roundtrip(self.heading_path);
        lemma_u32_le_bytes_roundtrip(self.heading_to_target);
        lemma_u32_le_bytes_roundtrip(self.heading_error);
    }

    /// Decoding the wire image of a value gives the value back.
    pub proof fn lemma_wire_roundtrip(self)
        ensures
            self.wire().len() == Heading::spec_size(),
            Heading::decode(self.wire()) == self,
    {
        lemma_u32_le_bytes_roundtrip(self.heading);
        lemma_u32_le_bytes_roundtrip(self.heading_path);
        lemma_u32_le_bytes_roundtrip(self.heading_to_target);
        lemma_u32_le_bytes_roundtrip(self.heading_error);
        assert(self.wire().subrange(0, 4) =~= spec_u32_to_le_bytes(self.heading));
        assert(self.wire().subrange(4, 8) =~= spec_u32_to_le_bytes(self.heading_path));
        assert(self.wire().subrange(8, 12) =~= spec_u32_to_le_bytes(self.heading_to_target));
        assert(self.wire().subrange(12, 16) =~= spec_u32_to_le_bytes(self.heading_error));
    }
}

#[derive(Clone, Copy, Debug, PartialEq, Eq, Structural)]
pub struct Counter {
    pub count_per_sec_receive: u16,
    pub count_per_sec_transfer: u16,
}

impl Counter {
    pub fn new() -> (r: Counter)
        ensures
            r.count_per_sec_receive == 0,
            r.count_per_sec_transfer == 0,
    {
        Counter {
            count_per_sec_receive: 0,
            count_per_sec_transfer: 0,
        }
    }

    /// Exact on-wire size of the payload.
    pub open spec fn spec_size() -> usize {
        4
    }

    pub fn size() -> (r: usize)
        ensures
            r == Counter::spec_size(),
    {
        4
    }

    /// The bytes this value puts on the wire.
    pub open spec fn wire(self) -> Seq<u8> {
        spec_u16_to_le_bytes(self.count_per_sec_receive) + spec_u16_to_le_bytes(self.count_per_sec_transfer)
    }

    /// Whether `self` is exactly what the payload bytes `s` decode to.
    pub open spec fn decoded(self, s: Seq<u8>) -> bool {
        self == Counter::decode(s)
    }

    /// The value a `spec_size()`-byte payload decodes to.
    pub open spec fn decode(s: Seq<u8>) -> Counter {
        Counter {
            count_per_sec_receive: spec_u16_from_le_bytes(s.subrange(0, 2)),
            count_per_sec_transfer: spec_u16_from_le_bytes(s.subrange(2, 4)),
        }
    }

    pub fn parse(slice_data: &[u8]) -> (r: Result<Counter, &'static str>)
        ensures
            slice_data@.len() == Counter::spec_size() ==> (r matches Ok(v) && v == Counter::decode(
                slice_data@,
            )),
            slice_data@.len() != Counter::spec_size() ==> (r matches Err(_)),
    {
        if slice_data.len() == Counter::size() {
            let mut ext: Extractor = Extractor::from_slice(slice_data);
            let count_per_sec_receive = ext.get_u16();
            let count_per_sec_transfer = ext.get_u16();
            Ok(Counter { count_per_sec_receive, count_per_sec_transfer })
        } else {
            Err("Wrong length")
        }
    }

}

impl Counter {
    pub fn to_vec(&self) -> (r: Vec<u8>)
        ensures
            r@ == self.wire(),
            r@.len() == Counter::spec_size(),
    {
        let mut vec_data: Vec<u8> = Vec::new();
        add_u16(&mut vec_data, self.count_per_sec_receive);
        add_u16(&mut vec_data, self.count_per_sec_transfer);
        proof {
            self.lemma_wire_len();
            assert(vec_data@ =~= self.wire());
        }
        vec_data
    }

    pub proof fn lemma_wire_len(self)
        ensures
            self.wire().len() == Counter::spec_size(),
    {
        lemma_u16_le_bytes_roundtrip(self.count_per_sec_receive);
        lemma_u16_le_bytes_roundtrip(self.count_per_sec_transfer);
    }

    /// Decoding the wire image of a value gives the value back.
    pub proof fn lemma_wire_roundtrip(self)
        ensures
            self.wire().len() == Counter::spec_size(),
            Counter::decode(self.wire()) == self,
    {
        lemma_u16_le_bytes_roundtrip(self.count_per_sec_receive);
        lemma_u16_le_bytes_roundtrip(self.count_per_sec_transfer);
        assert(self.wire().subrange(0, 2) =~= spec_u16_to_le_bytes(self.count_per_sec_receive));
        assert(self.wire().subrange(2, 4) =~= spec_u16_to_le_bytes(self.count_per_sec_transfer));
    }
}

#[derive(Clone, Copy, Debug, PartialEq, Eq, Structural)]
pub struct Satellite {
    pub i_tow: u32,
    pub year: u16,
    pub month: u8,
    pub day: u8,
    pub hour: u8,
    pub min: u8,
    pub sec: u8,
    pub valid: u8,
    pub flags: u8,
    pub flags2: u8,
    pub g_speed: i32,
    pub p_dop: u16,
}

impl Satellite {
    pub fn new() -> (r: Satellite)
        ensures
            r.i_tow == 0,
            r.year == 0,
            r.month == 0,
            r.day == 0,
            r.hour == 0,
            r.min == 0,
            r.sec == 0,
            r.valid == 0,
            r.flags == 0,
            r.flags2 == 0,
            r.g_speed == 0,
            r.p_dop == 0,
    {
        Satellite {
            i_tow: 0,
            year: 0,
            month: 0,
            day: 0,
            hour: 0,
            min: 0,
            sec: 0,
            valid: 0,
            flags: 0,
            flags2: 0,
            g_speed: 0,
            p_dop: 0,
        }
    }

    /// Exact on-wire size of the payload.
    pub open spec fn spec_size() -> usize {
        20
    }

    pub fn size() -> (r: usize)
        ensures
            r == Satellite::spec_size(),
    {
        20
    }

    /// The bytes this value puts on the wire.
    pub open spec fn wire(self) -> Seq<u8> {
        spec_u32_to_le_bytes(self.i_tow) + spec_u16_to_le_bytes(self.year) + seq![self.month] + seq![self.day] + seq![self.hour] + seq![self.min] + seq![self.sec] + seq![self.valid] + seq![self.flags] + seq![self.flags2] + spec_i32_to_le_bytes(self.g_speed) + spec_u16_to_le_bytes(self.p_dop)
    }

    /// Whether `self` is exactly what the payload bytes `s` decode to.
    pub open spec fn decoded(self, s: Seq<u8>) -> bool {
        self == Satellite::decode(s)
    }

    /// The value a `spec_size()`-byte payload decodes to.
    pub open spec fn decode(s: Seq<u8>) -> Satellite {
        Satellite {
            i_tow: spec_u32_from_le_bytes(s.subrange(0, 4)),
            year: spec_u16_from_le_bytes(s.subrange(4, 6)),
            month: s[6],
            day: s[7],
            hour: s[8],
            min: s[9],
            sec: s[10],
            valid: s[11],
            flags: s[12],
            flags2: s[13],
            g_speed: spec_i32_from_le_bytes(s.subrange(14, 18)),
            p_dop: spec_u16_from_le_bytes(s.subrange(18, 20)),
        }
    }

    pub fn parse(slice_data: &[u8]) -> (r: Result<Satellite, &'static str>)
        ensures
            slice_data@.len() == Satellite::spec_size() ==> (r matches Ok(v) && v == Satellite::decode(
                slice_data@,
            )),
            slice_data@.len() != Satellite::spec_size() ==> (r matches Err(_)),
    {
        if slice_data.len() == Satellite::size() {
            let mut ext: Extractor = Extractor::from_slice(slice_data);
            let i_tow = ext.get_u32();
            let year = ext.get_u16();
            let month = ext.get_u8();
            let day = ext.get_u8();
            let hour = ext.get_u8();
            let min = ext.get_u8();
            let sec = ext.get_u8();
            let valid = ext.get_u8();
            let flags = ext.get_u8();
            let flags2 = ext.get_u8();
            let g_speed = ext.get_i32();
            let p_dop = ext.get_u16();
            Ok(Satellite { i_tow, year, month, day, hour, min, sec, valid, flags, flags2, g_speed, p_dop })
        } else {
            Err("Wrong length")
        }
    }

}

impl Satellite {
    pub fn to_vec(&self) -> (r: Vec<u8>)
        ensures
            r@ == self.wire(),
            r@.len() == Satellite::spec_size(),
    {
        let mut vec_data: Vec<u8> = Vec::new();
        add_u32(&mut vec_data, self.i_tow);
        add_u16(&mut vec_data, self.year);
        add_u8(&mut vec_data, self.month);
        add_u8(&mut vec_data, self.day);
        add_u8(&mut vec_data, self.hour);
        add_u8(&mut vec_data, self.min);
        add_u8(&mut vec_data, self.sec);
        add_u8(&mut vec_data, self.valid);
        add_u8(&mut vec_data, self.flags);
        add_u8(&mut vec_data, self.flags2);
        add_i32(&mut vec_data, self.g_speed);
        add_u16(&mut vec_data, self.p_dop);
        proof {
            self.lemma_wire_len();
            assert(vec_data@ =~= self.wire());
        }
        vec_data
    }

    pub proof fn lemma_wire_len(self)
        ensures
            self.wire().len() == Satellite::spec_size(),
    {
        lemma_u32_le_bytes_roundtrip(self.i_tow);
        lemma_u16_le_bytes_roundtrip(self.year);
        lemma_i32_le_bytes_roundtrip(self.g_speed);
        lemma_u16_le_bytes_roundtrip(self.p_dop);
    }

    /// Decoding the wire image of a value gives the value back.
    pub proof fn lemma_wire_roundtrip(self)
        ensures
            self.wire().len() == Satellite::spec_size(),
            Satellite::decode(self.wire()) == self,
    {
        lemma_u32_le_bytes_roundtrip(self.i_tow);
        lemma_u16_le_bytes_roundtrip(self.year);
        lemma_i32_le_bytes_roundtrip(self.g_speed);
        lemma_u16_le_bytes_roundtrip(self.p_dop);
        assert(self.wire().subrange(0, 4) =~= spec_u32_to_le_bytes(self.i_tow));
        assert(self.wire().subrange(4, 6) =~= spec_u16_to_le_bytes(self.year));
        assert(self.wire()[6] == seq![self.month][0]);
        assert(self.wire()[7] == seq![self.day][0]);
        assert(self.wire()[8] == seq![self.hour][0]);
        assert(self.wire()[9] == seq![self.min][0]);
        assert(self.wire()[10] == seq![self.sec][0]);
        assert(self.wire()[11] == seq![self.valid][0]);
        assert(self.wire()[12] == seq![self.flags][0]);
        assert(self.wire()[13] == seq![self.flags2][0]);
        assert(self.wire().subrange(14, 18) =~= spec_i32_to_le_bytes(self.g_speed));
        assert(self.wire().subrange(18, 20) =~= spec_u16_to_le_bytes(self.p_dop));
    }
}

/// A fix in a local frame; x and y carry IEEE-754 double-precision bit
/// patterns, z a single-precision pattern.
#[derive(Clone, Copy, Debug, PartialEq, Eq, Structural)]
pub struct LocationXYZ {
    pub x: u64,
    pub y: u64,
    pub z: u32,
}

impl LocationXYZ {
    pub fn new() -> (r: LocationXYZ)
        ensures
            r.x == 0,
            r.y == 0,
            r.z == 0,
    {
        LocationXYZ {
            x: 0,
            y: 0,
            z: 0,
        }
    }

    /// Exact on-wire size of the payload.
    pub open spec fn spec_size() -> usize {
        20
    }

    pub fn size() -> (r: usize)
        ensures
            r == LocationXYZ::spec_size(),
    {
        20
    }

    /// The bytes this value puts on the wire.
    pub open spec fn wire(self) -> Seq<u8> {
        spec_u64_to_le_bytes(self.x) + spec_u64_to_le_bytes(self.y) + spec_u32_to_le_bytes(self.z)
    }

    /// Whether `self` is exactly what the payload bytes `s` decode to.
    pub open spec fn decoded(self, s: Seq<u8>) -> bool {
        self == LocationXYZ::decode(s)
    }

    /// The value a `spec_size()`-byte payload decodes to.
    pub open spec fn decode(s: Seq<u8>) -> LocationXYZ {
        LocationXYZ {
            x: spec_u64_from_le_bytes(s.subrange(0, 8)),
            y: spec_u64_from_le_bytes(s.subrange(8, 16)),
            z: spec_u32_from_le_bytes(s.subrange(16, 20)),
        }
    }

    pub fn parse(slice_data: &[u8]) -> (r: Result<LocationXYZ, &'static str>)
        ensures
            slice_data@.len() == LocationXYZ::spec_size() ==> (r matches Ok(v) && v == LocationXYZ::decode(
                slice_data@,
            )),
            slice_data@.len() != LocationXYZ::spec_size() ==> (r matches Err(_)),
    {
        if slice_data.len() == LocationXYZ::size() {
            let mut ext: Extractor = Extractor::from_slice(slice_data);
            let x = ext.get_u64();
            let y = ext.get_u64();
            let z = ext.get_u32();
            Ok(LocationXYZ { x, y, z })
        } else {
            Err("Wrong length")
        }
    }

}

impl LocationXYZ {
    pub fn to_vec(&self) -> (r: Vec<u8>)
        ensures
            r@ == self.wire(),
            r@.len() == LocationXYZ::spec_size(),
    {
        let mut vec_data: Vec<u8> = Vec::new();
        add_u64(&mut vec_data, self.x);
        add_u64(&mut vec_data, self.y);
        add_u32(&mut vec_data, self.z);
        proof {
            self.lemma_wire_len();
            assert(vec_data@ =~= self.wire());
        }
        vec_data
    }

    pub proof fn lemma_wire_len(self)
        ensures
            self.wire().len() == LocationXYZ::spec_size(),
    {
        lemma_u64_le_bytes_roundtrip(self.x);
        lemma_u64_le_bytes_roundtrip(self.y);
        lemma_u32_le_bytes_roundtrip(self.z);
    }

    /// Decoding the wire image of a value gives the value back.
    pub proof fn lemma_wire_roundtrip(self)
        ensures
            self.wire().len() == LocationXYZ::spec_size(),
            LocationXYZ::decode(self.wire()) == self,
    {
        lemma_u64_le_bytes_roundtrip(self.x);
        lemma_u64_le_bytes_roundtrip(self.y);
        lemma_u32_le_bytes_roundtrip(self.z);
        assert(self.wire().subrange(0, 8) =~= spec_u64_to_le_bytes(self.x));
        assert(self.wire().subrange(8, 16) =~= spec_u64_to_le_bytes(self.y));
        assert(self.wire().subrange(16, 20) =~= spec_u32_to_le_bytes(self.z));
    }
}

} // verus!
