//! Command payloads: one-shot orders with an option byte.

use crate::communication::extractor::Extractor;
use crate::communication::serializer::{add_u8};
use vstd::bytes::*;
use vstd::prelude::*;

use crate::protocol::light::{Color, Event};


verus! {

#[derive(Clone, Copy, Debug, PartialEq, Eq, Structural)]
pub enum CommandType {
    Nil,
    Stop,
    ModeControlFlight,
    Headless,
    ControlSpeed,
    ClearBias,
    ClearTrim,
    FlightEvent,
    SetDefault,
    Backlight,
    ModeController,
    Link,
    ClearMagnetometer,
    ClearCounter,
    JumpToBootloader,
    JumpToApplication,
    NavigationTargetClear,
    NavigationStart,
    NavigationPause,
    NavigationRestart,
    NavigationStop,
    NavigationNext,
    NavigationReturnToHome,
    GpsRtkBase,
    GpsRtkRover,
    TestLock,
}

impl CommandType {
    /// The wire code of the variant.
    pub open spec fn code(self) -> u8 {
        match self {
            CommandType::Nil => 0x00,
            CommandType::Stop => 0x01,
            CommandType::ModeControlFlight => 0x02,
            CommandType::Headless => 0x03,
            CommandType::ControlSpeed => 0x04,
            CommandType::ClearBias => 0x05,
            CommandType::ClearTrim => 0x06,
            CommandType::FlightEvent => 0x07,
            CommandType::SetDefault => 0x08,
            CommandType::Backlight => 0x09,
            CommandType::ModeController => 0x0A,
            CommandType::Link => 0x0B,
            CommandType::ClearMagnetometer => 0x0C,
            CommandType::ClearCounter => 0xA0,
            CommandType::JumpToBootloader => 0xA1,
            CommandType::JumpToApplication => 0xA2,
            CommandType::NavigationTargetClear => 0xE0,
            CommandType::NavigationStart => 0xE1,
            CommandType::NavigationPause => 0xE2,
            CommandType::NavigationRestart => 0xE3,
            CommandType::NavigationStop => 0xE4,
            CommandType::NavigationNext => 0xE5,
            CommandType::NavigationReturnToHome => 0xE6,
            CommandType::GpsRtkBase => 0xEA,
            CommandType::GpsRtkRover => 0xEB,
            CommandType::TestLock => 0xF0,
        }
    }

    /// Total decoding: an unknown code falls back to `CommandType::Nil`.
    pub open spec fn spec_from_u8(code: u8) -> CommandType {
        if code == 0x00 {
            CommandType::Nil
        } else if code == 0x01 {
            CommandType::Stop
        } else if code == 0x02 {
            CommandType::ModeControlFlight
        } else if code == 0x03 {
            CommandType::Headless
        } else if code == 0x04 {
            CommandType::ControlSpeed
        } else if code == 0x05 {
            CommandType::ClearBias
        } else if code == 0x06 {
            CommandType::ClearTrim
        } else if code == 0x07 {
            CommandType::FlightEvent
        } else if code == 0x08 {
            CommandType::SetDefault
        } else if code == 0x09 {
            CommandType::Backlight
        } else if code == 0x0A {
            CommandType::ModeController
        } else if code == 0x0B {
            CommandType::Link
        } else if code == 0x0C {
            CommandType::ClearMagnetometer
        } else if code == 0xA0 {
            CommandType::ClearCounter
        } else if code == 0xA1 {
            CommandType::JumpToBootloader
        } else if code == 0xA2 {
            CommandType::JumpToApplication
        } else if code == 0xE0 {
            CommandType::NavigationTargetClear
        } else if code == 0xE1 {
            CommandType::NavigationStart
        } else if code == 0xE2 {
            CommandType::NavigationPause
        } else if code == 0xE3 {
            CommandType::NavigationRestart
        } else if code == 0xE4 {
            CommandType::NavigationStop
        } else if code == 0xE5 {
            CommandType::NavigationNext
        } else if code == 0xE6 {
            CommandType::NavigationReturnToHome
        } else if code == 0xEA {
            CommandType::GpsRtkBase
        } else if code == 0xEB {
            CommandType::GpsRtkRover
        } else if code == 0xF0 {
            CommandType::TestLock
        } else {
            CommandType::Nil
        }
    }

    /// Whether the code denotes a variant of its own.
    pub open spec fn spec_is_defined(code: u8) -> bool {
        CommandType::spec_from_u8(code).code() == code
    }

    pub fn from_u8(data_u8: u8) -> (r: CommandType)
        ensures
            r == CommandType::spec_from_u8(data_u8),
    {
        if data_u8 == 0x00 {
            CommandType::Nil
        } else if data_u8 == 0x01 {
            CommandType::Stop
        } else if data_u8 == 0x02 {
            CommandType::ModeControlFlight
        } else if data_u8 == 0x03 {
            CommandType::Headless
        } else if data_u8 == 0x04 {
            CommandType::ControlSpeed
        } else if data_u8 == 0x05 {
            CommandType::ClearBias
        } else if data_u8 == 0x06 {
            CommandType::ClearTrim
        } else if data_u8 == 0x07 {
            CommandType::FlightEvent
        } else if data_u8 == 0x08 {
            CommandType::SetDefault
        } else if data_u8 == 0x09 {
            CommandType::Backlight
        } else if data_u8 == 0x0A {
            CommandType::ModeController
        } else if data_u8 == 0x0B {
            CommandType::Link
        } else if data_u8 == 0x0C {
            CommandType::ClearMagnetometer
        } else if data_u8 == 0xA0 {
            CommandType::ClearCounter
        } else if data_u8 == 0xA1 {
            CommandType::JumpToBootloader
        } else if data_u8 == 0xA2 {
            CommandType::JumpToApplication
        } else if data_u8 == 0xE0 {
            CommandType::NavigationTargetClear
        } else if data_u8 == 0xE1 {
            CommandType::NavigationStart
        } else if data_u8 == 0xE2 {
            CommandType::NavigationPause
        } else if data_u8 == 0xE3 {
            CommandType::NavigationRestart
        } else if data_u8 == 0xE4 {
            CommandType::NavigationStop
        } else if data_u8 == 0xE5 {
            CommandType::NavigationNext
        } else if data_u8 == 0xE6 {
            CommandType::NavigationReturnToHome
        } else if data_u8 == 0xEA {
            CommandType::GpsRtkBase
        } else if data_u8 == 0xEB {
            CommandType::GpsRtkRover
        } else if data_u8 == 0xF0 {
            CommandType::TestLock
        } else {
            CommandType::Nil
        }
    }

    pub fn to_u8(self) -> (r: u8)
        ensures
            r == self.code(),
    {
        match self {
            CommandType::Nil => 0x00,
            CommandType::Stop => 0x01,
            CommandType::ModeControlFlight => 0x02,
            CommandType::Headless => 0x03,
            CommandType::ControlSpeed => 0x04,
            CommandType::ClearBias => 0x05,
            CommandType::ClearTrim => 0x06,
            CommandType::FlightEvent => 0x07,
            CommandType::SetDefault => 0x08,
            CommandType::Backlight => 0x09,
            CommandType::ModeController => 0x0A,
            CommandType::Link => 0x0B,
            CommandType::ClearMagnetometer => 0x0C,
            CommandType::ClearCounter => 0xA0,
            CommandType::JumpToBootloader => 0xA1,
            CommandType::JumpToApplication => 0xA2,
            CommandType::NavigationTargetClear => 0xE0,
            CommandType::NavigationStart => 0xE1,
            CommandType::NavigationPause => 0xE2,
            CommandType::NavigationRestart => 0xE3,
            CommandType::NavigationStop => 0xE4,
            CommandType::NavigationNext => 0xE5,
            CommandType::NavigationReturnToHome => 0xE6,
            CommandType::GpsRtkBase => 0xEA,
            CommandType::GpsRtkRover => 0xEB,
            CommandType::TestLock => 0xF0,
        }
    }

    /// Encoding a variant and decoding the code gives the variant back.
    pub proof fn lemma_code_roundtrip(self)
        ensures
            CommandType::spec_from_u8(self.code()) == self,
    {
    }
}

#[derive(Clone, Copy, Debug, PartialEq, Eq, Structural)]
pub struct Command {
    pub command_type: CommandType,
    pub option: u8,
}

impl Command {
    pub fn new() -> (r: Command)
        ensures
            r.command_type == CommandType::Nil,
            r.option == 0,
    {
        Command {
            command_type: CommandType::Nil,
            option: 0,
        }
    }

    /// Exact on-wire size of the payload.
    pub open spec fn spec_size() -> usize {
        2
    }

    pub fn size() -> (r: usize)
        ensures
            r == Command::spec_size(),
    {
        2
    }

    /// The bytes this value puts on the wire.
    pub open spec fn wire(self) -> Seq<u8> {
        seq![self.command_type.code()] + seq![self.option]
    }

    /// Whether `self` is exactly what the payload bytes `s` decode to.
    pub open spec fn decoded(self, s: Seq<u8>) -> bool {
        self == Command::decode(s)
    }

    /// The value a `spec_size()`-byte payload decodes to.
    pub open spec fn decode(s: Seq<u8>) -> Command {
        Command {
            command_type: CommandType::spec_from_u8(s[0]),
            option: s[1],
        }
    }

    pub fn parse(slice_data: &[u8]) -> (r: Result<Command, &'static str>)
        ensures
            slice_data@.len() == Command::spec_size() ==> (r matches Ok(v) && v == Command::decode(
                slice_data@,
            )),
            slice_data@.len() != Command::spec_size() ==> (r matches Err(_)),
    {
        if slice_data.len() == Command::size() {
            let mut ext: Extractor = Extractor::from_slice(slice_data);
            let command_type = CommandType::from_u8(ext.get_u8());
            let option = ext.get_u8();
            Ok(Command { command_type, option })
        } else {
            Err("Wrong length")
        }
    }

    /// Reads one value in place out of a longer payload.
    pub fn read(ext: &mut Extractor) -> (r: Command)
        requires
            old(ext).wf(),
            old(ext).pos() + Command::spec_size() <= old(ext).data().len(),
        ensures
            final(ext).wf(),
            final(ext).data() == old(ext).data(),
            final(ext).pos() == old(ext).pos() + Command::spec_size(),
            r == Command::decode(old(ext).data().subrange(
                old(ext).pos(),
                old(ext).pos() + Command::spec_size(),
            )),
    {
        let ghost base = ext.pos();
        let ghost whole = ext.data();
        let command_type = CommandType::from_u8(ext.get_u8());
        let option = ext.get_u8();
        Command { command_type, option }
    }

}

impl Command {
    pub fn to_vec(&self) -> (r: Vec<u8>)
        ensures
            r@ == self.wire(),
            r@.len() == Command::spec_size(),
    {
        let mut vec_data: Vec<u8> = Vec::new();
        add_u8(&mut vec_data, self.command_type.to_u8());
        add_u8(&mut vec_data, self.option);
        proof {
            self.lemma_wire_len();
            assert(vec_data@ =~= self.wire());
        }
        vec_data
    }

    pub proof fn lemma_wire_len(self)
        ensures
            self.wire().len() == Command::spec_size(),
    {
    }

    /// Decoding the wire image of a value gives the value back.
    pub proof fn lemma_wire_roundtrip(self)
        ensures
            self.wire().len() == Command::spec_size(),
            Command::decode(self.wire()) == self,
    {
        self.command_type.lemma_code_roundtrip();
        assert(self.wire()[0] == seq![self.command_type.code()][0]);
        assert(self.wire()[1] == seq![self.option][0]);
    }
}

/// A command bundled with a light event.
#[derive(Clone, Copy, Debug, PartialEq, Eq, Structural)]
pub struct CommandLightEvent {
    pub command: Command,
    pub light_event: Event,
}

impl CommandLightEvent {
    pub fn new() -> (r: CommandLightEvent)
        ensures
    {
        CommandLightEvent {
            command: Command::new(),
            light_event: Event::new(),
        }
    }

    /// Exact on-wire size of the payload.
    pub open spec fn spec_size() -> usize {
        6
    }

    pub fn size() -> (r: usize)
        ensures
            r == CommandLightEvent::spec_size(),
    {
        6
    }

    /// The bytes this value puts on the wire.
    pub open spec fn wire(self) -> Seq<u8> {
        self.command.wire() + self.light_event.wire()
    }

    /// Whether `self` is exactly what the payload bytes `s` decode to.
    pub open spec fn decoded(self, s: Seq<u8>) -> bool {
        self == CommandLightEvent::decode(s)
    }

    /// The value a `spec_size()`-byte payload decodes to.
    pub open spec fn decode(s: Seq<u8>) -> CommandLightEvent {
        CommandLightEvent {
            command: Command::decode(s.subrange(0, 2)),
            light_event: Event::decode(s.subrange(2, 6)),
        }
    }

    pub fn parse(slice_data: &[u8]) -> (r: Result<CommandLightEvent, &'static str>)
        ensures
            slice_data@.len() == CommandLightEvent::spec_size() ==> (r matches Ok(v) && v == CommandLightEvent::decode(
                slice_data@,
            )),
            slice_data@.len() != CommandLightEvent::spec_size() ==> (r matches Err(_)),
    {
        if slice_data.len() == CommandLightEvent::size() {
            let mut ext: Extractor = Extractor::from_slice(slice_data);
            let command = Command::read(&mut ext);
            let light_event = Event::read(&mut ext);
            Ok(CommandLightEvent { command, light_event })
        } else {
            Err("Wrong length")
        }
    }

}

impl CommandLightEvent {
    pub fn to_vec(&self) -> (r: Vec<u8>)
        ensures
            r@ == self.wire(),
            r@.len() == CommandLightEvent::spec_size(),
    {
        let mut vec_data: Vec<u8> = Vec::new();
        let mut command_part = self.command.to_vec();
        vec_data.append(&mut command_part);
        let mut light_event_part = self.light_event.to_vec();
        vec_data.append(&mut light_event_part);
        proof {
            self.lemma_wire_len();
            assert(vec_data@ =~= self.wire());
        }
        vec_data
    }

    pub proof fn lemma_wire_len(self)
        ensures
            self.wire().len() == CommandLightEvent::spec_size(),
    {
        self.command.lemma_wire_len();
        self.light_event.lemma_wire_len();
    }

    /// Decoding the wire image of a value gives the value back.
    pub proof fn lemma_wire_roundtrip(self)
        ensures
            self.wire().len() == CommandLightEvent::spec_size(),
            CommandLightEvent::decode(self.wire()) == self,
    {
        self.command.lemma_wire_roundtrip();
        self.light_event.lemma_wire_roundtrip();
        assert(self.wire().subrange(0, 2) =~= self.command.wire());
        assert(self.wire().subrange(2, 6) =~= self.light_event.wire());
    }
}

/// A command bundled with a light event and its color.
#[derive(Clone, Copy, Debug, PartialEq, Eq, Structural)]
pub struct CommandLightEventColor {
    pub command: Command,
    pub event: Event,
    pub color: Color,
}

impl CommandLightEventColor {
    pub fn new() -> (r: CommandLightEventColor)
        ensures
    {
        CommandLightEventColor {
            command: Command::new(),
            event: Event::new(),
            color: Color::new(),
        }
    }

    /// Exact on-wire size of the payload.
    pub open spec fn spec_size() -> usize {
        9
    }

    pub fn size() -> (r: usize)
        ensures
            r == CommandLightEventColor::spec_size(),
    {
        9
    }

    /// The bytes this value puts on the wire.
    pub open spec fn wire(self) -> Seq<u8> {
        self.command.wire() + self.event.wire() + self.color.wire()
    }

    /// Whether `self` is exactly what the payload bytes `s` decode to.
    pub open spec fn decoded(self, s: Seq<u8>) -> bool {
        self == CommandLightEventColor::decode(s)
    }

    /// The value a `spec_size()`-byte payload decodes to.
    pub open spec fn decode(s: Seq<u8>) -> CommandLightEventColor {
        CommandLightEventColor {
            command: Command::decode(s.subrange(0, 2)),
            event: Event::decode(s.subrange(2, 6)),
            color: Color::decode(s.subrange(6, 9)),
        }
    }

    pub fn parse(slice_data: &[u8]) -> (r: Result<CommandLightEventColor, &'static str>)
        ensures
            slice_data@.len() == CommandLightEventColor::spec_size() ==> (r matches Ok(v) && v == CommandLightEventColor::decode(
                slice_data@,
            )),
            slice_data@.len() != CommandLightEventColor::spec_size() ==> (r matches Err(_)),
    {
        if slice_data.len() == CommandLightEventColor::size() {
            let mut ext: Extractor = Extractor::from_slice(slice_data);
            let command = Command::read(&mut ext);
            let event = Event::read(&mut ext);
            let color = Color::read(&mut ext);
            Ok(CommandLightEventColor { command, event, color })
        } else {
            Err("Wrong length")
        }
    }

}

impl CommandLightEventColor {
    pub fn to_vec(&self) -> (r: Vec<u8>)
        ensures
            r@ == self.wire(),
            r@.len() == CommandLightEventColor::spec_size(),
    {
        let mut vec_data: Vec<u8> = Vec::new();
        let mut command_part = self.command.to_vec();
        vec_data.append(&mut command_part);
        let mut event_part = self.event.to_vec();
        vec_data.append(&mut event_part);
        let mut color_part = self.color.to_vec();
        vec_data.append(&mut color_part);
        proof {
            self.lemma_wire_len();
            assert(vec_data@ =~= self.wire());
        }
        vec_data
    }

    pub proof fn lemma_wire_len(self)
        ensures
            self.wire().len() == CommandLightEventColor::spec_size(),
    {
        self.command.lemma_wire_len();
        self.event.lemma_wire_len();
        self.color.lemma_wire_len();
    }

    /// Decoding the wire image of a value gives the value back.
    pub proof fn lemma_wire_roundtrip(self)
        ensures
            self.wire().len() == CommandLightEventColor::spec_size(),
            CommandLightEventColor::decode(self.wire()) == self,
    {
        self.command.lemma_wire_roundtrip();
        self.event.lemma_wire_roundtrip();
        self.color.lemma_wire_roundtrip();
        assert(self.wire().subrange(0, 2) =~= self.command.wire());
        assert(self.wire().subrange(2, 6) =~= self.event.wire());
        assert(self.wire().subrange(6, 9) =~= self.color.wire());
    }
}

} // verus!
