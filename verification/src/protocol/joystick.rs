//! Joystick payloads: both sticks with position, region and event.

use crate::communication::extractor::Extractor;
use crate::communication::serializer::{add_i8, add_u8};
use crate::wire::{lemma_i8_byte_roundtrip, spec_i8_from_byte, spec_i8_to_byte};
use vstd::bytes::*;
use vstd::prelude::*;


verus! {

#[derive(Clone, Copy, Debug, PartialEq, Eq, Structural)]
pub enum Direction {
    Nil,
    VT,
    VM,
    VB,
    HL,
    HM,
    HR,
    TL,
    TM,
    TR,
    ML,
    CN,
    MR,
    BL,
    BM,
    BR,
}

impl Direction {
    /// The wire code of the variant.
    pub open spec fn code(self) -> u8 {
        match self {
            Direction::Nil => 0x00,
            Direction::VT => 0x10,
            Direction::VM => 0x20,
            Direction::VB => 0x40,
            Direction::HL => 0x01,
            Direction::HM => 0x02,
            Direction::HR => 0x04,
            Direction::TL => 0x11,
            Direction::TM => 0x12,
            Direction::TR => 0x14,
            Direction::ML => 0x21,
            Direction::CN => 0x22,
            Direction::MR => 0x24,
            Direction::BL => 0x41,
            Direction::BM => 0x42,
            Direction::BR => 0x44,
        }
    }

    /// Total decoding: an unknown code falls back to `Direction::Nil`.
    pub open spec fn spec_from_u8(code: u8) -> Direction {
        if code == 0x00 {
            Direction::Nil
        } else if code == 0x10 {
            Direction::VT
        } else if code == 0x20 {
            Direction::VM
        } else if code == 0x40 {
            Direction::VB
        } else if code == 0x01 {
            Direction::HL
        } else if code == 0x02 {
            Direction::HM
        } else if code == 0x04 {
            Direction::HR
        } else if code == 0x11 {
            Direction::TL
        } else if code == 0x12 {
            Direction::TM
        } else if code == 0x14 {
            Direction::TR
        } else if code == 0x21 {
            Direction::ML
        } else if code == 0x22 {
            Direction::CN
        } else if code == 0x24 {
            Direction::MR
        } else if code == 0x41 {
            Direction::BL
        } else if code == 0x42 {
            Direction::BM
        } else if code == 0x44 {
            Direction::BR
        } else {
            Direction::Nil
        }
    }

    /// Whether the code denotes a variant of its own.
    pub open spec fn spec_is_defined(code: u8) -> bool {
        Direction::spec_from_u8(code).code() == code
    }

    pub fn from_u8(data_u8: u8) -> (r: Direction)
        ensures
            r == Direction::spec_from_u8(data_u8),
    {
        if data_u8 == 0x00 {
            Direction::Nil
        } else if data_u8 == 0x10 {
            Direction::VT
        } else if data_u8 == 0x20 {
            Direction::VM
        } else if data_u8 == 0x40 {
            Direction::VB
        } else if data_u8 == 0x01 {
            Direction::HL
        } else if data_u8 == 0x02 {
            Direction::HM
        } else if data_u8 == 0x04 {
            Direction::HR
        } else if data_u8 == 0x11 {
            Direction::TL
        } else if data_u8 == 0x12 {
            Direction::TM
        } else if data_u8 == 0x14 {
            Direction::TR
        } else if data_u8 == 0x21 {
            Direction::ML
        } else if data_u8 == 0x22 {
            Direction::CN
        } else if data_u8 == 0x24 {
            Direction::MR
        } else if data_u8 == 0x41 {
            Direction::BL
        } else if data_u8 == 0x42 {
            Direction::BM
        } else if data_u8 == 0x44 {
            Direction::BR
        } else {
            Direction::Nil
        }
    }

    pub fn to_u8(self) -> (r: u8)
        ensures
            r == self.code(),
    {
        match self {
            Direction::Nil => 0x00,
            Direction::VT => 0x10,
            Direction::VM => 0x20,
            Direction::VB => 0x40,
            Direction::HL => 0x01,
            Direction::HM => 0x02,
            Direction::HR => 0x04,
            Direction::TL => 0x11,
            Direction::TM => 0x12,
            Direction::TR => 0x14,
            Direction::ML => 0x21,
            Direction::CN => 0x22,
            Direction::MR => 0x24,
            Direction::BL => 0x41,
            Direction::BM => 0x42,
            Direction::BR => 0x44,
        }
    }

    /// Encoding a variant and decoding the code gives the variant back.
    pub proof fn lemma_code_roundtrip(self)
        ensures
            Direction::spec_from_u8(self.code()) == self,
    {
    }
}

#[derive(Clone, Copy, Debug, PartialEq, Eq, Structural)]
pub enum Event {
    Nil,
    In,
    Stay,
    Out,
    Calibration,
}

impl Event {
    /// The wire code of the variant.
    pub open spec fn code(self) -> u8 {
        match self {
            Event::Nil => 0x00,
            Event::In => 0x01,
            Event::Stay => 0x02,
            Event::Out => 0x03,
            Event::Calibration => 0x04,
        }
    }

    /// Total decoding: an unknown code falls back to `Event::Nil`.
    pub open spec fn spec_from_u8(code: u8) -> Event {
        if code == 0x00 {
            Event::Nil
        } else if code == 0x01 {
            Event::In
        } else if code == 0x02 {
            Event::Stay
        } else if code == 0x03 {
            Event::Out
        } else if code == 0x04 {
            Event::Calibration
        } else {
            Event::Nil
        }
    }

    /// Whether the code denotes a variant of its own.
    pub open spec fn spec_is_defined(code: u8) -> bool {
        Event::spec_from_u8(code).code() == code
    }

    pub fn from_u8(data_u8: u8) -> (r: Event)
        ensures
            r == Event::spec_from_u8(data_u8),
    {
        if data_u8 == 0x00 {
            Event::Nil
        } else if data_u8 == 0x01 {
            Event::In
        } else if data_u8 == 0x02 {
            Event::Stay
        } else if data_u8 == 0x03 {
            Event::Out
        } else if data_u8 == 0x04 {
            Event::Calibration
        } else {
            Event::Nil
        }
    }

    pub fn to_u8(self) -> (r: u8)
        ensures
            r == self.code(),
    {
        match self {
            Event::Nil => 0x00,
            Event::In => 0x01,
            Event::Stay => 0x02,
            Event::Out => 0x03,
            Event::Calibration => 0x04,
        }
    }

    /// Encoding a variant and decoding the code gives the variant back.
    pub proof fn lemma_code_roundtrip(self)
        ensures
            Event::spec_from_u8(self.code()) == self,
    {
    }
}

#[derive(Clone, Copy, Debug, PartialEq, Eq, Structural)]
pub enum Command {
    Nil,
    UpDownUpDown,
    LeftRightLeftRight,
    RightLeftRightLeft,
    TurnLeft,
    TurnRight,
}

impl Command {
    /// The wire code of the variant.
    pub open spec fn code(self) -> u8 {
        match self {
            Command::Nil => 0x00,
            Command::UpDownUpDown => 0x01,
            Command::LeftRightLeftRight => 0x02,
            Command::RightLeftRightLeft => 0x03,
            Command::TurnLeft => 0x04,
            Command::TurnRight => 0x05,
        }
    }

    /// Total decoding: an unknown code falls back to `Command::Nil`.
    pub open spec fn spec_from_u8(code: u8) -> Command {
        if code == 0x00 {
            Command::Nil
        } else if code == 0x01 {
            Command::UpDownUpDown
        } else if code == 0x02 {
            Command::LeftRightLeftRight
        } else if code == 0x03 {
            Command::RightLeftRightLeft
        } else if code == 0x04 {
            Command::TurnLeft
        } else if code == 0x05 {
            Command::TurnRight
        } else {
            Command::Nil
        }
    }

    /// Whether the code denotes a variant of its own.
    pub open spec fn spec_is_defined(code: u8) -> bool {
        Command::spec_from_u8(code).code() == code
    }

    pub fn from_u8(data_u8: u8) -> (r: Command)
        ensures
            r == Command::spec_from_u8(data_u8),
    {
        if data_u8 == 0x00 {
            Command::Nil
        } else if data_u8 == 0x01 {
            Command::UpDownUpDown
        } else if data_u8 == 0x02 {
            Command::LeftRightLeftRight
        } else if data_u8 == 0x03 {
            Command::RightLeftRightLeft
        } else if data_u8 == 0x04 {
            Command::TurnLeft
        } else if data_u8 == 0x05 {
            Command::TurnRight
        } else {
            Command::Nil
        }
    }

    pub fn to_u8(self) -> (r: u8)
        ensures
            r == self.code(),
    {
        match self {
            Command::Nil => 0x00,
            Command::UpDownUpDown => 0x01,
            Command::LeftRightLeftRight => 0x02,
            Command::RightLeftRightLeft => 0x03,
            Command::TurnLeft => 0x04,
            Command::TurnRight => 0x05,
        }
    }

    /// Encoding a variant and decoding the code gives the variant back.
    pub proof fn lemma_code_roundtrip(self)
        ensures
            Command::spec_from_u8(self.code()) == self,
    {
    }
}

#[derive(Clone, Copy, Debug, PartialEq, Eq, Structural)]
pub struct JoystickBlock {
    pub x: i8,
    pub y: i8,
    pub direction: Direction,
    pub event: Event,
}

impl JoystickBlock {
    pub fn new() -> (r: JoystickBlock)
        ensures
            r.x == 0,
            r.y == 0,
            r.direction == Direction::Nil,
            r.event == Event::Nil,
    {
        JoystickBlock {
            x: 0,
            y: 0,
            direction: Direction::Nil,
            event: Event::Nil,
        }
    }

    /// Exact on-wire size of the payload.
    pub open spec fn spec_size() -> usize {
        4
    }

    pub fn size() -> (r: usize)
        ensures
            r == JoystickBlock::spec_size(),
    {
        4
    }

    /// The bytes this value puts on the wire.
    pub open spec fn wire(self) -> Seq<u8> {
        seq![spec_i8_to_byte(self.x)] + seq![spec_i8_to_byte(self.y)] + seq![self.direction.code()] + seq![self.event.code()]
    }

    /// Whether `self` is exactly what the payload bytes `s` decode to.
    pub open spec fn decoded(self, s: Seq<u8>) -> bool {
        self == JoystickBlock::decode(s)
    }

    /// The value a `spec_size()`-byte payload decodes to.
    pub open spec fn decode(s: Seq<u8>) -> JoystickBlock {
        JoystickBlock {
            x: spec_i8_from_byte(s[0]),
            y: spec_i8_from_byte(s[1]),
            direction: Direction::spec_from_u8(s[2]),
            event: Event::spec_from_u8(s[3]),
        }
    }

    pub fn parse(slice_data: &[u8]) -> (r: Result<JoystickBlock, &'static str>)
        ensures
            slice_data@.len() == JoystickBlock::spec_size() ==> (r matches Ok(v) && v == JoystickBlock::decode(
                slice_data@,
            )),
            slice_data@.len() != JoystickBlock::spec_size() ==> (r matches Err(_)),
    {
        if slice_data.len() == JoystickBlock::size() {
            let mut ext: Extractor = Extractor::from_slice(slice_data);
            let x = ext.get_i8();
            let y = ext.get_i8();
            let direction = Direction::from_u8(ext.get_u8());
            let event = Event::from_u8(ext.get_u8());
            Ok(JoystickBlock { x, y, direction, event })
        } else {
            Err("Wrong length")
        }
    }

    /// Reads one value in place out of a longer payload.
    pub fn read(ext: &mut Extractor) -> (r: JoystickBlock)
        requires
            old(ext).wf(),
            old(ext).pos() + JoystickBlock::spec_size() <= old(ext).data().len(),
        ensures
            final(ext).wf(),
            final(ext).data() == old(ext).data(),
            final(ext).pos() == old(ext).pos() + JoystickBlock::spec_size(),
            r == JoystickBlock::decode(old(ext).data().subrange(
                old(ext).pos(),
                old(ext).pos() + JoystickBlock::spec_size(),
            )),
    {
        let ghost base = ext.pos();
        let ghost whole = ext.data();
        let x = ext.get_i8();
        let y = ext.get_i8();
        let direction = Direction::from_u8(ext.get_u8());
        let event = Event::from_u8(ext.get_u8());
        JoystickBlock { x, y, direction, event }
    }

}

impl JoystickBlock {
    pub fn to_vec(&self) -> (r: Vec<u8>)
        ensures
            r@ == self.wire(),
            r@.len() == JoystickBlock::spec_size(),
    {
        let mut vec_data: Vec<u8> = Vec::new();
        add_i8(&mut vec_data, self.x);
        add_i8(&mut vec_data, self.y);
        add_u8(&mut vec_data, self.direction.to_u8());
        add_u8(&mut vec_data, self.event.to_u8());
        proof {
            self.lemma_wire_len();
            assert(vec_data@ =~= self.wire());
        }
        vec_data
    }

    pub proof fn lemma_wire_len(self)
        ensures
            self.wire().len() == JoystickBlock::spec_size(),
    {
    }

    /// Decoding the wire image of a value gives the value back.
    pub proof fn lemma_wire_roundtrip(self)
        ensures
            self.wire().len() == JoystickBlock::spec_size(),
            JoystickBlock::decode(self.wire()) == self,
    {
        lemma_i8_byte_roundtrip(self.x);
        lemma_i8_byte_roundtrip(self.y);
        self.direction.lemma_code_roundtrip();
        self.event.lemma_code_roundtrip();
        assert(self.wire()[0] == seq![spec_i8_to_byte(self.x)][0]);
        assert(self.wire()[1] == seq![spec_i8_to_byte(self.y)][0]);
        assert(self.wire()[2] == seq![self.direction.code()][0]);
        assert(self.wire()[3] == seq![self.event.code()][0]);
    }
}

#[derive(Clone, Copy, Debug, PartialEq, Eq, Structural)]
pub struct Joystick {
    pub left: JoystickBlock,
    pub right: JoystickBlock,
}

impl Joystick {
    pub fn new() -> (r: Joystick)
        ensures
    {
        Joystick {
            left: JoystickBlock::new(),
            right: JoystickBlock::new(),
        }
    }

    /// Exact on-wire size of the payload.
    pub open spec fn spec_size() -> usize {
        8
    }

    pub fn size() -> (r: usize)
        ensures
            r == Joystick::spec_size(),
    {
        8
    }

    /// The bytes this value puts on the wire.
    pub open spec fn wire(self) -> Seq<u8> {
        self.left.wire() + self.right.wire()
    }

    /// Whether `self` is exactly what the payload bytes `s` decode to.
    pub open spec fn decoded(self, s: Seq<u8>) -> bool {
        self == Joystick::decode(s)
    }

    /// The value a `spec_size()`-byte payload decodes to.
    pub open spec fn decode(s: Seq<u8>) -> Joystick {
        Joystick {
            left: JoystickBlock::decode(s.subrange(0, 4)),
            right: JoystickBlock::decode(s.subrange(4, 8)),
        }
    }

    pub fn parse(slice_data: &[u8]) -> (r: Result<Joystick, &'static str>)
        ensures
            slice_data@.len() == Joystick::spec_size() ==> (r matches Ok(v) && v == Joystick::decode(
                slice_data@,
            )),
            slice_data@.len() != Joystick::spec_size() ==> (r matches Err(_)),
    {
        if slice_data.len() == Joystick::size() {
            let mut ext: Extractor = Extractor::from_slice(slice_data);
            let left = JoystickBlock::read(&mut ext);
            let right = JoystickBlock::read(&mut ext);
            Ok(Joystick { left, right })
        } else {
            Err("Wrong length")
        }
    }

}

impl Joystick {
    pub fn to_vec(&self) -> (r: Vec<u8>)
        ensures
            r@ == self.wire(),
            r@.len() == Joystick::spec_size(),
    {
        let mut vec_data: Vec<u8> = Vec::new();
        let mut left_part = self.left.to_vec();
        vec_data.append(&mut left_part);
        let mut right_part = self.right.to_vec();
        vec_data.append(&mut right_part);
        proof {
            self.lemma_wire_len();
            assert(vec_data@ =~= self.wire());
        }
        vec_data
    }

    pub proof fn lemma_wire_len(self)
        ensures
            self.wire().len() == Joystick::spec_size(),
    {
        self.left.lemma_wire_len();
        self.right.lemma_wire_len();
    }

    /// Decoding the wire image of a value gives the value back.
    pub proof fn lemma_wire_roundtrip(self)
        ensures
            self.wire().len() == Joystick::spec_size(),
            Joystick::decode(self.wire()) == self,
    {
        self.left.lemma_wire_roundtrip();
        self.right.lemma_wire_roundtrip();
        assert(self.wire().subrange(0, 4) =~= self.left.wire());
        assert(self.wire().subrange(4, 8) =~= self.right.wire());
    }
}

} // verus!
