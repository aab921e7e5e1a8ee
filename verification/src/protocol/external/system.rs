//! External companion computer: its mode report and control command.

use crate::communication::extractor::Extractor;
use crate::communication::serializer::{add_u16, add_u8};
use crate::wire::{lemma_u16_le_bytes_roundtrip};
use vstd::bytes::*;
use vstd::prelude::*;


verus! {

#[derive(Clone, Copy, Debug, PartialEq, Eq, Structural)]
pub enum ModeSystem {
    Nil,
    Stop,
    Error,
    Run,
}

impl ModeSystem {
    /// The wire code of the variant.
    pub open spec fn code(self) -> u8 {
        match self {
            ModeSystem::Nil => 0x00,
            ModeSystem::Stop => 0x01,
            ModeSystem::Error => 0x02,
            ModeSystem::Run => 0x10,
        }
    }

    /// Total decoding: an unknown code falls back to `ModeSystem::Nil`.
    pub open spec fn spec_from_u8(code: u8) -> ModeSystem {
        if code == 0x00 {
            ModeSystem::Nil
        } else if code == 0x01 {
            ModeSystem::Stop
        } else if code == 0x02 {
            ModeSystem::Error
        } else if code == 0x10 {
            ModeSystem::Run
        } else {
            ModeSystem::Nil
        }
    }

    /// Whether the code denotes a variant of its own.
    pub open spec fn spec_is_defined(code: u8) -> bool {
        ModeSystem::spec_from_u8(code).code() == code
    }

    pub fn from_u8(data_u8: u8) -> (r: ModeSystem)
        ensures
            r == ModeSystem::spec_from_u8(data_u8),
    {
        if data_u8 == 0x00 {
            ModeSystem::Nil
        } else if data_u8 == 0x01 {
            ModeSystem::Stop
        } else if data_u8 == 0x02 {
            ModeSystem::Error
        } else if data_u8 == 0x10 {
            ModeSystem::Run
        } else {
            ModeSystem::Nil
        }
    }

    pub fn to_u8(self) -> (r: u8)
        ensures
            r == self.code(),
    {
        match self {
            ModeSystem::Nil => 0x00,
            ModeSystem::Stop => 0x01,
            ModeSystem::Error => 0x02,
            ModeSystem::Run => 0x10,
        }
    }

    /// Encoding a variant and decoding the code gives the variant back.
    pub proof fn lemma_code_roundtrip(self)
        ensures
            ModeSystem::spec_from_u8(self.code()) == self,
    {
    }
}

#[derive(Clone, Copy, Debug, PartialEq, Eq, Structural)]
pub enum CommandType {
    Nil,
    Shutdown,
    Reboot,
}

impl CommandType {
    /// The wire code of the variant.
    pub open spec fn code(self) -> u8 {
        match self {
            CommandType::Nil => 0x00,
            CommandType::Shutdown => 0x01,
            CommandType::Reboot => 0x02,
        }
    }

    /// Total decoding: an unknown code falls back to `CommandType::Nil`.
    pub open spec fn spec_from_u8(code: u8) -> CommandType {
        if code == 0x00 {
            CommandType::Nil
        } else if code == 0x01 {
            CommandType::Shutdown
        } else if code == 0x02 {
            CommandType::Reboot
        } else {
            CommandType::Nil
        }
    }

    /// Whether the code denotes a variant of its own.
    pub open spec fn spec_is_defined(code: u8) -> bool {
        CommandType::spec_from_u8(code).code() == code
    }

    pub fn from_u8(data_u8: u8) -> (r: CommandType)
        ensures
            r == CommandType::spec_from_u8(data_u8),
    {
        if data_u8 == 0x00 {
            CommandType::Nil
        } else if data_u8 == 0x01 {
            CommandType::Shutdown
        } else if data_u8 == 0x02 {
            CommandType::Reboot
        } else {
            CommandType::Nil
        }
    }

    pub fn to_u8(self) -> (r: u8)
        ensures
            r == self.code(),
    {
        match self {
            CommandType::Nil => 0x00,
            CommandType::Shutdown => 0x01,
            CommandType::Reboot => 0x02,
        }
    }

    /// Encoding a variant and decoding the code gives the variant back.
    pub proof fn lemma_code_roundtrip(self)
        ensures
            CommandType::spec_from_u8(self.code()) == self,
    {
    }
}

#[derive(Clone, Copy, Debug, PartialEq, Eq, Structural)]
pub struct State {
    pub mode_system: ModeSystem,
    pub fps: u16,
}

impl State {
    pub fn new() -> (r: State)
        ensures
            r.mode_system == ModeSystem::Nil,
            r.fps == 0,
    {
        State {
            mode_system: ModeSystem::Nil,
            fps: 0,
        }
    }

    /// Exact on-wire size of the payload.
    pub open spec fn spec_size() -> usize {
        3
    }

    pub fn size() -> (r: usize)
        ensures
            r == State::spec_size(),
    {
        3
    }

    /// The bytes this value puts on the wire.
    pub open spec fn wire(self) -> Seq<u8> {
        seq![self.mode_system.code()] + spec_u16_to_le_bytes(self.fps)
    }

    /// Whether `self` is exactly what the payload bytes `s` decode to.
    pub open spec fn decoded(self, s: Seq<u8>) -> bool {
        self == State::decode(s)
    }

    /// The value a `spec_size()`-byte payload decodes to.
    pub open spec fn decode(s: Seq<u8>) -> State {
        State {
            mode_system: ModeSystem::spec_from_u8(s[0]),
            fps: spec_u16_from_le_bytes(s.subrange(1, 3)),
        }
    }

    pub fn parse(slice_data: &[u8]) -> (r: Result<State, &'static str>)
        ensures
            slice_data@.len() == State::spec_size() ==> (r matches Ok(v) && v == State::decode(
                slice_data@,
            )),
            slice_data@.len() != State::spec_size() ==> (r matches Err(_)),
    {
        if slice_data.len() == State::size() {
            let mut ext: Extractor = Extractor::from_slice(slice_data);
            let mode_system = ModeSystem::from_u8(ext.get_u8());
            let fps = ext.get_u16();
            Ok(State { mode_system, fps })
        } else {
            Err("Wrong length")
        }
    }

}

impl State {
    pub fn to_vec(&self) -> (r: Vec<u8>)
        ensures
            r@ == self.wire(),
            r@.len() == State::spec_size(),
    {
        let mut vec_data: Vec<u8> = Vec::new();
        add_u8(&mut vec_data, self.mode_system.to_u8());
        add_u16(&mut vec_data, self.fps);
        proof {
            self.lemma_wire_len();
            assert(vec_data@ =~= self.wire());
        }
        vec_data
    }

    pub proof fn lemma_wire_len(self)
        ensures
            self.wire().len() == State::spec_size(),
    {
        lemma_u16_le_bytes_roundtrip(self.fps);
    }

    /// Decoding the wire image of a value gives the value back.
    pub proof fn lemma_wire_roundtrip(self)
        ensures
            self.wire().len() == State::spec_size(),
            State::decode(self.wire()) == self,
    {
        self.mode_system.lemma_code_roundtrip();
        lemma_u16_le_bytes_roundtrip(self.fps);
        assert(self.wire()[0] == seq![self.mode_system.code()][0]);
        assert(self.wire().subrange(1, 3) =~= spec_u16_to_le_bytes(self.fps));
    }
}

#[derive(Clone, Copy, Debug, PartialEq, Eq, Structural)]
pub struct Command {
    pub command_type: CommandType,
}

impl Command {
    pub fn new() -> (r: Command)
        ensures
            r.command_type == CommandType::Nil,
    {
        Command {
            command_type: CommandType::Nil,
        }
    }

    /// Exact on-wire size of the payload.
    pub open spec fn spec_size() -> usize {
        1
    }

    pub fn size() -> (r: usize)
        ensures
            r == Command::spec_size(),
    {
        1
    }

    /// The bytes this value puts on the wire.
    pub open spec fn wire(self) -> Seq<u8> {
        seq![self.command_type.code()]
    }

    /// Whether `self` is exactly what the payload bytes `s` decode to.
    pub open spec fn decoded(self, s: Seq<u8>) -> bool {
        self == Command::decode(s)
    }

    /// The value a `spec_size()`-byte payload decodes to.
    pub open spec fn decode(s: Seq<u8>) -> Command {
        Command {
            command_type: CommandType::spec_from_u8(s[0]),
        }
    }

    pub fn parse(slice_data: &[u8]) -> (r: Result<Command, &'static str>)
        ensures
            slice_data@.len() == Command::spec_size() ==> (r matches Ok(v) && v == Command::decode(
                slice_data@,
            )),
            slice_data@.len() != Command::spec_size() ==> (r matches Err(_)),
    {
        if slice_data.len() == Command::size() {
            let mut ext: Extractor = Extractor::from_slice(slice_data);
            let command_type = CommandType::from_u8(ext.get_u8());
            Ok(Command { command_type })
        } else {
            Err("Wrong length")
        }
    }

}

impl Command {
    pub fn to_vec(&self) -> (r: Vec<u8>)
        ensures
            r@ == self.wire(),
            r@.len() == Command::spec_size(),
    {
        let mut vec_data: Vec<u8> = Vec::new();
        add_u8(&mut vec_data, self.command_type.to_u8());
        proof {
            self.lemma_wire_len();
            assert(vec_data@ =~= self.wire());
        }
        vec_data
    }

    pub proof fn lemma_wire_len(self)
        ensures
            self.wire().len() == Command::spec_size(),
    {
    }

    /// Decoding the wire image of a value gives the value back.
    pub proof fn lemma_wire_roundtrip(self)
        ensures
            self.wire().len() == Command::spec_size(),
            Command::decode(self.wire()) == self,
    {
        self.command_type.lemma_code_roundtrip();
        assert(self.wire()[0] == seq![self.command_type.code()][0]);
    }
}

} // verus!
