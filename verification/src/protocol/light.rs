//! Light payloads: manual levels, blink modes and events, with colors.

use crate::communication::extractor::Extractor;
use crate::communication::serializer::{add_u16, add_u8};
use crate::wire::{lemma_u16_le_bytes_roundtrip};
use vstd::bytes::*;
use vstd::prelude::*;


verus! {

#[derive(Clone, Copy, Debug, PartialEq, Eq, Structural)]
pub enum ModeLight {
    BodyNone,
    BodyManual,
    BodyHold,
    BodyFlicker,
    BodyFlickerDouble,
    BodyDimming,
    BodySunrise,
    BodySunset,
    BodyRainbow,
    BodyRainbow2,
    BodyWarning,
}

impl ModeLight {
    /// The wire code of the variant.
    pub open spec fn code(self) -> u8 {
        match self {
            ModeLight::BodyNone => 0x20,
            ModeLight::BodyManual => 0x21,
            ModeLight::BodyHold => 0x22,
            ModeLight::BodyFlicker => 0x23,
            ModeLight::BodyFlickerDouble => 0x24,
            ModeLight::BodyDimming => 0x25,
            ModeLight::BodySunrise => 0x26,
            ModeLight::BodySunset => 0x27,
            ModeLight::BodyRainbow => 0x28,
            ModeLight::BodyRainbow2 => 0x29,
            ModeLight::BodyWarning => 0x2F,
        }
    }

    /// Total decoding: an unknown code falls back to `ModeLight::BodyNone`.
    pub open spec fn spec_from_u8(code: u8) -> ModeLight {
        if code == 0x20 {
            ModeLight::BodyNone
        } else if code == 0x21 {
            ModeLight::BodyManual
        } else if code == 0x22 {
            ModeLight::BodyHold
        } else if code == 0x23 {
            ModeLight::BodyFlicker
        } else if code == 0x24 {
            ModeLight::BodyFlickerDouble
        } else if code == 0x25 {
            ModeLight::BodyDimming
        } else if code == 0x26 {
            ModeLight::BodySunrise
        } else if code == 0x27 {
            ModeLight::BodySunset
        } else if code == 0x28 {
            ModeLight::BodyRainbow
        } else if code == 0x29 {
            ModeLight::BodyRainbow2
        } else if code == 0x2F {
            ModeLight::BodyWarning
        } else {
            ModeLight::BodyNone
        }
    }

    /// Whether the code denotes a variant of its own.
    pub open spec fn spec_is_defined(code: u8) -> bool {
        ModeLight::spec_from_u8(code).code() == code
    }

    pub fn from_u8(data_u8: u8) -> (r: ModeLight)
        ensures
            r == ModeLight::spec_from_u8(data_u8),
    {
        if data_u8 == 0x20 {
            ModeLight::BodyNone
        } else if data_u8 == 0x21 {
            ModeLight::BodyManual
        } else if data_u8 == 0x22 {
            ModeLight::BodyHold
        } else if data_u8 == 0x23 {
            ModeLight::BodyFlicker
        } else if data_u8 == 0x24 {
            ModeLight::BodyFlickerDouble
        } else if data_u8 == 0x25 {
            ModeLight::BodyDimming
        } else if data_u8 == 0x26 {
            ModeLight::BodySunrise
        } else if data_u8 == 0x27 {
            ModeLight::BodySunset
        } else if data_u8 == 0x28 {
            ModeLight::BodyRainbow
        } else if data_u8 == 0x29 {
            ModeLight::BodyRainbow2
        } else if data_u8 == 0x2F {
            ModeLight::BodyWarning
        } else {
            ModeLight::BodyNone
        }
    }

    pub fn to_u8(self) -> (r: u8)
        ensures
            r == self.code(),
    {
        match self {
            ModeLight::BodyNone => 0x20,
            ModeLight::BodyManual => 0x21,
            ModeLight::BodyHold => 0x22,
            ModeLight::BodyFlicker => 0x23,
            ModeLight::BodyFlickerDouble => 0x24,
            ModeLight::BodyDimming => 0x25,
            ModeLight::BodySunrise => 0x26,
            ModeLight::BodySunset => 0x27,
            ModeLight::BodyRainbow => 0x28,
            ModeLight::BodyRainbow2 => 0x29,
            ModeLight::BodyWarning => 0x2F,
        }
    }

    /// Encoding a variant and decoding the code gives the variant back.
    pub proof fn lemma_code_roundtrip(self)
        ensures
            ModeLight::spec_from_u8(self.code()) == self,
    {
    }
}

#[derive(Clone, Copy, Debug, PartialEq, Eq, Structural)]
pub struct Color {
    pub r: u8,
    pub g: u8,
    pub b: u8,
}

impl Color {
    pub fn new() -> (r: Color)
        ensures
            r.r == 0,
            r.g == 0,
            r.b == 0,
    {
        Color {
            r: 0,
            g: 0,
            b: 0,
        }
    }

    /// Exact on-wire size of the payload.
    pub open spec fn spec_size() -> usize {
        3
    }

    pub fn size() -> (r: usize)
        ensures
            r == Color::spec_size(),
    {
        3
    }

    /// The bytes this value puts on the wire.
    pub open spec fn wire(self) -> Seq<u8> {
        seq![self.r] + seq![self.g] + seq![self.b]
    }

    /// Whether `self` is exactly what the payload bytes `s` decode to.
    pub open spec fn decoded(self, s: Seq<u8>) -> bool {
        self == Color::decode(s)
    }

    /// The value a `spec_size()`-byte payload decodes to.
    pub open spec fn decode(s: Seq<u8>) -> Color {
        Color {
            r: s[0],
            g: s[1],
            b: s[2],
        }
    }

    pub fn parse(slice_data: &[u8]) -> (r: Result<Color, &'static str>)
        ensures
            slice_data@.len() == Color::spec_size() ==> (r matches Ok(v) && v == Color::decode(
                slice_data@,
            )),
            slice_data@.len() != Color::spec_size() ==> (r matches Err(_)),
    {
        if slice_data.len() == Color::size() {
            let mut ext: Extractor = Extractor::from_slice(slice_data);
            let r = ext.get_u8();
            let g = ext.get_u8();
            let b = ext.get_u8();
            Ok(Color { r, g, b })
        } else {
            Err("Wrong length")
        }
    }

    /// Reads one value in place out of a longer payload.
    pub fn read(ext: &mut Extractor) -> (r: Color)
        requires
            old(ext).wf(),
            old(ext).pos() + Color::spec_size() <= old(ext).data().len(),
        ensures
            final(ext).wf(),
            final(ext).data() == old(ext).data(),
            final(ext).pos() == old(ext).pos() + Color::spec_size(),
            r == Color::decode(old(ext).data().subrange(
                old(ext).pos(),
                old(ext).pos() + Color::spec_size(),
            )),
    {
        let ghost base = ext.pos();
        let ghost whole = ext.data();
        let r = ext.get_u8();
        let g = ext.get_u8();
        let b = ext.get_u8();
        Color { r, g, b }
    }

}

impl Color {
    pub fn to_vec(&self) -> (r: Vec<u8>)
        ensures
            r@ == self.wire(),
            r@.len() == Color::spec_size(),
    {
        let mut vec_data: Vec<u8> = Vec::new();
        add_u8(&mut vec_data, self.r);
        add_u8(&mut vec_data, self.g);
        add_u8(&mut vec_data, self.b);
        proof {
            self.lemma_wire_len();
            assert(vec_data@ =~= self.wire());
        }
        vec_data
    }

    pub proof fn lemma_wire_len(self)
        ensures
            self.wire().len() == Color::spec_size(),
    {
    }

    /// Decoding the wire image of a value gives the value back.
    pub proof fn lemma_wire_roundtrip(self)
        ensures
            self.wire().len() == Color::spec_size(),
            Color::decode(self.wire()) == self,
    {
        assert(self.wire()[0] == seq![self.r][0]);
        assert(self.wire()[1] == seq![self.g][0]);
        assert(self.wire()[2] == seq![self.b][0]);
    }
}

#[derive(Clone, Copy, Debug, PartialEq, Eq, Structural)]
pub struct Manual {
    pub flags: u16,
    pub brightness: u8,
}

impl Manual {
    pub fn new() -> (r: Manual)
        ensures
            r.flags == 0,
            r.brightness == 0,
    {
        Manual {
            flags: 0,
            brightness: 0,
        }
    }

    /// Exact on-wire size of the payload.
    pub open spec fn spec_size() -> usize {
        3
    }

    pub fn size() -> (r: usize)
        ensures
            r == Manual::spec_size(),
    {
        3
    }

    /// The bytes this value puts on the wire.
    pub open spec fn wire(self) -> Seq<u8> {
        spec_u16_to_le_bytes(self.flags) + seq![self.brightness]
    }

    /// Whether `self` is exactly what the payload bytes `s` decode to.
    pub open spec fn decoded(self, s: Seq<u8>) -> bool {
        self == Manual::decode(s)
    }

    /// The value a `spec_size()`-byte payload decodes to.
    pub open spec fn decode(s: Seq<u8>) -> Manual {
        Manual {
            flags: spec_u16_from_le_bytes(s.subrange(0, 2)),
            brightness: s[2],
        }
    }

    pub fn parse(slice_data: &[u8]) -> (r: Result<Manual, &'static str>)
        ensures
            slice_data@.len() == Manual::spec_size() ==> (r matches Ok(v) && v == Manual::decode(
                slice_data@,
            )),
            slice_data@.len() != Manual::spec_size() ==> (r matches Err(_)),
    {
        if slice_data.len() == Manual::size() {
            let mut ext: Extractor = Extractor::from_slice(slice_data);
            let flags = ext.get_u16();
            let brightness = ext.get_u8();
            Ok(Manual { flags, brightness })
        } else {
            Err("Wrong length")
        }
    }

}

impl Manual {
    pub fn to_vec(&self) -> (r: Vec<u8>)
        ensures
            r@ == self.wire(),
            r@.len() == Manual::spec_size(),
    {
        let mut vec_data: Vec<u8> = Vec::new();
        add_u16(&mut vec_data, self.flags);
        add_u8(&mut vec_data, self.brightness);
        proof {
            self.lemma_wire_len();
            assert(vec_data@ =~= self.wire());
        }
        vec_data
    }

    pub proof fn lemma_wire_len(self)
        ensures
            self.wire().len() == Manual::spec_size(),
    {
        lemma_u16_le_bytes_roundtrip(self.flags);
    }

    /// Decoding the wire image of a value gives the value back.
    pub proof fn lemma_wire_roundtrip(self)
        ensures
            self.wire().len() == Manual::spec_size(),
            Manual::decode(self.wire()) == self,
    {
        lemma_u16_le_bytes_roundtrip(self.flags);
        assert(self.wire().subrange(0, 2) =~= spec_u16_to_le_bytes(self.flags));
        assert(self.wire()[2] == seq![self.brightness][0]);
    }
}

#[derive(Clone, Copy, Debug, PartialEq, Eq, Structural)]
pub struct Mode {
    pub mode: u8,
    pub interval: u16,
}

impl Mode {
    pub fn new() -> (r: Mode)
        ensures
            r.mode == 0,
            r.interval == 0,
    {
        Mode {
            mode: 0,
            interval: 0,
        }
    }

    /// Exact on-wire size of the payload.
    pub open spec fn spec_size() -> usize {
        3
    }

    pub fn size() -> (r: usize)
        ensures
            r == Mode::spec_size(),
    {
        3
    }

    /// The bytes this value puts on the wire.
    pub open spec fn wire(self) -> Seq<u8> {
        seq![self.mode] + spec_u16_to_le_bytes(self.interval)
    }

    /// Whether `self` is exactly what the payload bytes `s` decode to.
    pub open spec fn decoded(self, s: Seq<u8>) -> bool {
        self == Mode::decode(s)
    }

    /// The value a `spec_size()`-byte payload decodes to.
    pub open spec fn decode(s: Seq<u8>) -> Mode {
        Mode {
            mode: s[0],
            interval: spec_u16_from_le_bytes(s.subrange(1, 3)),
        }
    }

    pub fn parse(slice_data: &[u8]) -> (r: Result<Mode, &'static str>)
        ensures
            slice_data@.len() == Mode::spec_size() ==> (r matches Ok(v) && v == Mode::decode(
                slice_data@,
            )),
            slice_data@.len() != Mode::spec_size() ==> (r matches Err(_)),
    {
        if slice_data.len() == Mode::size() {
            let mut ext: Extractor = Extractor::from_slice(slice_data);
            let mode = ext.get_u8();
            let interval = ext.get_u16();
            Ok(Mode { mode, interval })
        } else {
            Err("Wrong length")
        }
    }

    /// Reads one value in place out of a longer payload.
    pub fn read(ext: &mut Extractor) -> (r: Mode)
        requires
            old(ext).wf(),
            old(ext).pos() + Mode::spec_size() <= old(ext).data().len(),
        ensures
            final(ext).wf(),
            final(ext).data() == old(ext).data(),
            final(ext).pos() == old(ext).pos() + Mode::spec_size(),
            r == Mode::decode(old(ext).data().subrange(
                old(ext).pos(),
                old(ext).pos() + Mode::spec_size(),
            )),
    {
        let ghost base = ext.pos();
        let ghost whole = ext.data();
        let mode = ext.get_u8();
        let interval = ext.get_u16();
        proof {
            assert(whole.subrange(base, base + 3).subrange(1, 3) =~= whole.subrange(
                base + 1,
                base + 3,
            ));
        }
        Mode { mode, interval }
    }

}

impl Mode {
    pub fn to_vec(&self) -> (r: Vec<u8>)
        ensures
            r@ == self.wire(),
            r@.len() == Mode::spec_size(),
    {
        let mut vec_data: Vec<u8> = Vec::new();
        add_u8(&mut vec_data, self.mode);
        add_u16(&mut vec_data, self.interval);
        proof {
            self.lemma_wire_len();
            assert(vec_data@ =~= self.wire());
        }
        vec_data
    }

    pub proof fn lemma_wire_len(self)
        ensures
            self.wire().len() == Mode::spec_size(),
    {
        lemma_u16_le_bytes_roundtrip(self.interval);
    }

    /// Decoding the wire image of a value gives the value back.
    pub proof fn lemma_wire_roundtrip(self)
        ensures
            self.wire().len() == Mode::spec_size(),
            Mode::decode(self.wire()) == self,
    {
        lemma_u16_le_bytes_roundtrip(self.interval);
        assert(self.wire()[0] == seq![self.mode][0]);
        assert(self.wire().subrange(1, 3) =~= spec_u16_to_le_bytes(self.interval));
    }
}

#[derive(Clone, Copy, Debug, PartialEq, Eq, Structural)]
pub struct Event {
    pub event: u8,
    pub interval: u16,
    pub repeat: u8,
}

impl Event {
    pub fn new() -> (r: Event)
        ensures
            r.event == 0,
            r.interval == 0,
            r.repeat == 0,
    {
        Event {
            event: 0,
            interval: 0,
            repeat: 0,
        }
    }

    /// Exact on-wire size of the payload.
    pub open spec fn spec_size() -> usize {
        4
    }

    pub fn size() -> (r: usize)
        ensures
            r == Event::spec_size(),
    {
        4
    }

    /// The bytes this value puts on the wire.
    pub open spec fn wire(self) -> Seq<u8> {
        seq![self.event] + spec_u16_to_le_bytes(self.interval) + seq![self.repeat]
    }

    /// Whether `self` is exactly what the payload bytes `s` decode to.
    pub open spec fn decoded(self, s: Seq<u8>) -> bool {
        self == Event::decode(s)
    }

    /// The value a `spec_size()`-byte payload decodes to.
    pub open spec fn decode(s: Seq<u8>) -> Event {
        Event {
            event: s[0],
            interval: spec_u16_from_le_bytes(s.subrange(1, 3)),
            repeat: s[3],
        }
    }

    pub fn parse(slice_data: &[u8]) -> (r: Result<Event, &'static str>)
        ensures
            slice_data@.len() == Event::spec_size() ==> (r matches Ok(v) && v == Event::decode(
                slice_data@,
            )),
            slice_data@.len() != Event::spec_size() ==> (r matches Err(_)),
    {
        if slice_data.len() == Event::size() {
            let mut ext: Extractor = Extractor::from_slice(slice_data);
            let event = ext.get_u8();
            let interval = ext.get_u16();
            let repeat = ext.get_u8();
            Ok(Event { event, interval, repeat })
        } else {
            Err("Wrong length")
        }
    }

    /// Reads one value in place out of a longer payload.
    pub fn read(ext: &mut Extractor) -> (r: Event)
        requires
            old(ext).wf(),
            old(ext).pos() + Event::spec_size() <= old(ext).data().len(),
        ensures
            final(ext).wf(),
            final(ext).data() == old(ext).data(),
            final(ext).pos() == old(ext).pos() + Event::spec_size(),
            r == Event::decode(old(ext).data().subrange(
                old(ext).pos(),
                old(ext).pos() + Event::spec_size(),
            )),
    {
        let ghost base = ext.pos();
        let ghost whole = ext.data();
        let event = ext.get_u8();
        let interval = ext.get_u16();
        let repeat = ext.get_u8();
        proof {
            assert(whole.subrange(base, base + 4).subrange(1, 3) =~= whole.subrange(
                base + 1,
                base + 3,
            ));
        }
        Event { event, interval, repeat }
    }

}

impl Event {
    pub fn to_vec(&self) -> (r: Vec<u8>)
        ensures
            r@ == self.wire(),
            r@.len() == Event::spec_size(),
    {
        let mut vec_data: Vec<u8> = Vec::new();
        add_u8(&mut vec_data, self.event);
        add_u16(&mut vec_data, self.interval);
        add_u8(&mut vec_data, self.repeat);
        proof {
            self.lemma_wire_len();
            assert(vec_data@ =~= self.wire());
        }
        vec_data
    }

    pub proof fn lemma_wire_len(self)
        ensures
            self.wire().len() == Event::spec_size(),
    {
        lemma_u16_le_bytes_roundtrip(self.interval);
    }

    /// Decoding the wire image of a value gives the value back.
    pub proof fn lemma_wire_roundtrip(self)
        ensures
            self.wire().len() == Event::spec_size(),
            Event::decode(self.wire()) == self,
    {
        lemma_u16_le_bytes_roundtrip(self.interval);
        assert(self.wire()[0] == seq![self.event][0]);
        assert(self.wire().subrange(1, 3) =~= spec_u16_to_le_bytes(self.interval));
        assert(self.wire()[3] == seq![self.repeat][0]);
    }
}

#[derive(Clone, Copy, Debug, PartialEq, Eq, Structural)]
pub struct ModeColor {
    pub mode: Mode,
    pub color: Color,
}

impl ModeColor {
    pub fn new() -> (r: ModeColor)
        ensures
    {
        ModeColor {
            mode: Mode::new(),
            color: Color::new(),
        }
    }

    /// Exact on-wire size of the payload.
    pub open spec fn spec_size() -> usize {
        6
    }

    pub fn size() -> (r: usize)
        ensures
            r == ModeColor::spec_size(),
    {
        6
    }

    /// The bytes this value puts on the wire.
    pub open spec fn wire(self) -> Seq<u8> {
        self.mode.wire() + self.color.wire()
    }

    /// Whether `self` is exactly what the payload bytes `s` decode to.
    pub open spec fn decoded(self, s: Seq<u8>) -> bool {
        self == ModeColor::decode(s)
    }

    /// The value a `spec_size()`-byte payload decodes to.
    pub open spec fn decode(s: Seq<u8>) -> ModeColor {
        ModeColor {
            mode: Mode::decode(s.subrange(0, 3)),
            color: Color::decode(s.subrange(3, 6)),
        }
    }

    pub fn parse(slice_data: &[u8]) -> (r: Result<ModeColor, &'static str>)
        ensures
            slice_data@.len() == ModeColor::spec_size() ==> (r matches Ok(v) && v == ModeColor::decode(
                slice_data@,
            )),
            slice_data@.len() != ModeColor::spec_size() ==> (r matches Err(_)),
    {
        if slice_data.len() == ModeColor::size() {
            let mut ext: Extractor = Extractor::from_slice(slice_data);
            let mode = Mode::read(&mut ext);
            let color = Color::read(&mut ext);
            Ok(ModeColor { mode, color })
        } else {
            Err("Wrong length")
        }
    }

}

impl ModeColor {
    pub fn to_vec(&self) -> (r: Vec<u8>)
        ensures
            r@ == self.wire(),
            r@.len() == ModeColor::spec_size(),
    {
        let mut vec_data: Vec<u8> = Vec::new();
        let mut mode_part = self.mode.to_vec();
        vec_data.append(&mut mode_part);
        let mut color_part = self.color.to_vec();
        vec_data.append(&mut color_part);
        proof {
            self.lemma_wire_len();
            assert(vec_data@ =~= self.wire());
        }
        vec_data
    }

    pub proof fn lemma_wire_len(self)
        ensures
            self.wire().len() == ModeColor::spec_size(),
    {
        self.mode.lemma_wire_len();
        self.color.lemma_wire_len();
    }

    /// Decoding the wire image of a value gives the value back.
    pub proof fn lemma_wire_roundtrip(self)
        ensures
            self.wire().len() == ModeColor::spec_size(),
            ModeColor::decode(self.wire()) == self,
    {
        self.mode.lemma_wire_roundtrip();
        self.color.lemma_wire_roundtrip();
        assert(self.wire().subrange(0, 3) =~= self.mode.wire());
        assert(self.wire().subrange(3, 6) =~= self.color.wire());
    }
}

#[derive(Clone, Copy, Debug, PartialEq, Eq, Structural)]
pub struct EventColor {
    pub event: Event,
    pub color: Color,
}

impl EventColor {
    pub fn new() -> (r: EventColor)
        ensures
    {
        EventColor {
            event: Event::new(),
            color: Color::new(),
        }
    }

    /// Exact on-wire size of the payload.
    pub open spec fn spec_size() -> usize {
        7
    }

    pub fn size() -> (r: usize)
        ensures
            r == EventColor::spec_size(),
    {
        7
    }

    /// The bytes this value puts on the wire.
    pub open spec fn wire(self) -> Seq<u8> {
        self.event.wire() + self.color.wire()
    }

    /// Whether `self` is exactly what the payload bytes `s` decode to.
    pub open spec fn decoded(self, s: Seq<u8>) -> bool {
        self == EventColor::decode(s)
    }

    /// The value a `spec_size()`-byte payload decodes to.
    pub open spec fn decode(s: Seq<u8>) -> EventColor {
        EventColor {
            event: Event::decode(s.subrange(0, 4)),
            color: Color::decode(s.subrange(4, 7)),
        }
    }

    pub fn parse(slice_data: &[u8]) -> (r: Result<EventColor, &'static str>)
        ensures
            slice_data@.len() == EventColor::spec_size() ==> (r matches Ok(v) && v == EventColor::decode(
                slice_data@,
            )),
            slice_data@.len() != EventColor::spec_size() ==> (r matches Err(_)),
    {
        if slice_data.len() == EventColor::size() {
            let mut ext: Extractor = Extractor::from_slice(slice_data);
            let event = Event::read(&mut ext);
            let color = Color::read(&mut ext);
            Ok(EventColor { event, color })
        } else {
            Err("Wrong length")
        }
    }

}

impl EventColor {
    pub fn to_vec(&self) -> (r: Vec<u8>)
        ensures
            r@ == self.wire(),
            r@.len() == EventColor::spec_size(),
    {
        let mut vec_data: Vec<u8> = Vec::new();
        let mut event_part = self.event.to_vec();
        vec_data.append(&mut event_part);
        let mut color_part = self.color.to_vec();
        vec_data.append(&mut color_part);
        proof {
            self.lemma_wire_len();
            assert(vec_data@ =~= self.wire());
        }
        vec_data
    }

    pub proof fn lemma_wire_len(self)
        ensures
            self.wire().len() == EventColor::spec_size(),
    {
        self.event.lemma_wire_len();
        self.color.lemma_wire_len();
    }

    /// Decoding the wire image of a value gives the value back.
    pub proof fn lemma_wire_roundtrip(self)
        ensures
            self.wire().len() == EventColor::spec_size(),
            EventColor::decode(self.wire()) == self,
    {
        self.event.lemma_wire_roundtrip();
        self.color.lemma_wire_roundtrip();
        assert(self.wire().subrange(0, 4) =~= self.event.wire());
        assert(self.wire().subrange(4, 7) =~= self.color.wire());
    }
}

} // verus!
