//! External camera peripheral: its mode report and control command.

use crate::communication::extractor::Extractor;
use crate::communication::serializer::{add_u16, add_u8};
use crate::wire::{lemma_u16_le_bytes_roundtrip};
use vstd::bytes::*;
use vstd::prelude::*;


verus! {

#[derive(Clone, Copy, Debug, PartialEq, Eq, Structural)]
pub enum ModeCamera {
    Nil,
    Stop,
    Error,
    Camera,
    Recording,
}

impl ModeCamera {
    /// The wire code of the variant.
    pub open spec fn code(self) -> u8 {
        match self {
            ModeCamera::Nil => 0x00,
            ModeCamera::Stop => 0x01,
            ModeCamera::Error => 0x02,
            ModeCamera::Camera => 0x10,
            ModeCamera::Recording => 0x11,
        }
    }

    /// Total decoding: an unknown code falls back to `ModeCamera::Nil`.
    pub open spec fn spec_from_u8(code: u8) -> ModeCamera {
        if code == 0x00 {
            ModeCamera::Nil
        } else if code == 0x01 {
            ModeCamera::Stop
        } else if code == 0x02 {
            ModeCamera::Error
        } else if code == 0x10 {
            ModeCamera::Camera
        } else if code == 0x11 {
            ModeCamera::Recording
        } else {
            ModeCamera::Nil
        }
    }

    /// Whether the code denotes a variant of its own.
    pub open spec fn spec_is_defined(code: u8) -> bool {
        ModeCamera::spec_from_u8(code).code() == code
    }

    pub fn from_u8(data_u8: u8) -> (r: ModeCamera)
        ensures
            r == ModeCamera::spec_from_u8(data_u8),
    {
        if data_u8 == 0x00 {
            ModeCamera::Nil
        } else if data_u8 == 0x01 {
            ModeCamera::Stop
        } else if data_u8 == 0x02 {
            ModeCamera::Error
        } else if data_u8 == 0x10 {
            ModeCamera::Camera
        } else if data_u8 == 0x11 {
            ModeCamera::Recording
        } else {
            ModeCamera::Nil
        }
    }

    pub fn to_u8(self) -> (r: u8)
        ensures
            r == self.code(),
    {
        match self {
            ModeCamera::Nil => 0x00,
            ModeCamera::Stop => 0x01,
            ModeCamera::Error => 0x02,
            ModeCamera::Camera => 0x10,
            ModeCamera::Recording => 0x11,
        }
    }

    /// Encoding a variant and decoding the code gives the variant back.
    pub proof fn lemma_code_roundtrip(self)
        ensures
            ModeCamera::spec_from_u8(self.code()) == self,
    {
    }
}

#[derive(Clone, Copy, Debug, PartialEq, Eq, Structural)]
pub enum CommandType {
    Nil,
    Stop,
    VideoCapture,
    VideoRecordingStart,
    VideoRecordingStop,
    TakePhoto,
}

impl CommandType {
    /// The wire code of the variant.
    pub open spec fn code(self) -> u8 {
        match self {
            CommandType::Nil => 0x00,
            CommandType::Stop => 0x01,
            CommandType::VideoCapture => 0x10,
            CommandType::VideoRecordingStart => 0x11,
            CommandType::VideoRecordingStop => 0x12,
            CommandType::TakePhoto => 0x20,
        }
    }

    /// Total decoding: an unknown code falls back to `CommandType::Nil`.
    pub open spec fn spec_from_u8(code: u8) -> CommandType {
        if code == 0x00 {
            CommandType::Nil
        } else if code == 0x01 {
            CommandType::Stop
        } else if code == 0x10 {
            CommandType::VideoCapture
        } else if code == 0x11 {
            CommandType::VideoRecordingStart
        } else if code == 0x12 {
            CommandType::VideoRecordingStop
        } else if code == 0x20 {
            CommandType::TakePhoto
        } else {
            CommandType::Nil
        }
    }

    /// Whether the code denotes a variant of its own.
    pub open spec fn spec_is_defined(code: u8) -> bool {
        CommandType::spec_from_u8(code).code() == code
    }

    pub fn from_u8(data_u8: u8) -> (r: CommandType)
        ensures
            r == CommandType::spec_from_u8(data_u8),
    {
        if data_u8 == 0x00 {
            CommandType::Nil
        } else if data_u8 == 0x01 {
            CommandType::Stop
        } else if data_u8 == 0x10 {
            CommandType::VideoCapture
        } else if data_u8 == 0x11 {
            CommandType::VideoRecordingStart
        } else if data_u8 == 0x12 {
            CommandType::VideoRecordingStop
        } else if data_u8 == 0x20 {
            CommandType::TakePhoto
        } else {
            CommandType::Nil
        }
    }

    pub fn to_u8(self) -> (r: u8)
        ensures
            r == self.code(),
    {
        match self {
            CommandType::Nil => 0x00,
            CommandType::Stop => 0x01,
            CommandType::VideoCapture => 0x10,
            CommandType::VideoRecordingStart => 0x11,
            CommandType::VideoRecordingStop => 0x12,
            CommandType::TakePhoto => 0x20,
        }
    }

    /// Encoding a variant and decoding the code gives the variant back.
    pub proof fn lemma_code_roundtrip(self)
        ensures
            CommandType::spec_from_u8(self.code()) == self,
    {
    }
}

#[derive(Clone, Copy, Debug, PartialEq, Eq, Structural)]
pub struct State {
    pub mode_camera: ModeCamera,
    pub fps: u16,
}

impl State {
    pub fn new() -> (r: State)
        ensures
            r.mode_camera == ModeCamera::Nil,
            r.fps == 0,
    {
        State {
            mode_camera: ModeCamera::Nil,
            fps: 0,
        }
    }

    /// Exact on-wire size of the payload.
    pub open spec fn spec_size() -> usize {
        3
    }

    pub fn size() -> (r: usize)
        ensures
            r == State::spec_size(),
    {
        3
    }

    /// The bytes this value puts on the wire.
    pub open spec fn wire(self) -> Seq<u8> {
        seq![self.mode_camera.code()] + spec_u16_to_le_bytes(self.fps)
    }

    /// Whether `self` is exactly what the payload bytes `s` decode to.
    pub open spec fn decoded(self, s: Seq<u8>) -> bool {
        self == State::decode(s)
    }

    /// The value a `spec_size()`-byte payload decodes to.
    pub open spec fn decode(s: Seq<u8>) -> State {
        State {
            mode_camera: ModeCamera::spec_from_u8(s[0]),
            fps: spec_u16_from_le_bytes(s.subrange(1, 3)),
        }
    }

    pub fn parse(slice_data: &[u8]) -> (r: Result<State, &'static str>)
        ensures
            slice_data@.len() == State::spec_size() ==> (r matches Ok(v) && v == State::decode(
                slice_data@,
            )),
            slice_data@.len() != State::spec_size() ==> (r matches Err(_)),
    {
        if slice_data.len() == State::size() {
            let mut ext: Extractor = Extractor::from_slice(slice_data);
            let mode_camera = ModeCamera::from_u8(ext.get_u8());
            let fps = ext.get_u16();
            Ok(State { mode_camera, fps })
        } else {
            Err("Wrong length")
        }
    }

}

impl State {
    pub fn to_vec(&self) -> (r: Vec<u8>)
        ensures
            r@ == self.wire(),
            r@.len() == State::spec_size(),
    {
        let mut vec_data: Vec<u8> = Vec::new();
        add_u8(&mut vec_data, self.mode_camera.to_u8());
        add_u16(&mut vec_data, self.fps);
        proof {
            self.lemma_wire_len();
            assert(vec_data@ =~= self.wire());
        }
        vec_data
    }

    pub proof fn lemma_wire_len(self)
        ensures
            self.wire().len() == State::spec_size(),
    {
        lemma_u16_le_bytes_roundtrip(self.fps);
    }

    /// Decoding the wire image of a value gives the value back.
    pub proof fn lemma_wire_roundtrip(self)
        ensures
            self.wire().len() == State::spec_size(),
            State::decode(self.wire()) == self,
    {
        self.mode_camera.lemma_code_roundtrip();
        lemma_u16_le_bytes_roundtrip(self.fps);
        assert(self.wire()[0] == seq![self.mode_camera.code()][0]);
        assert(self.wire().subrange(1, 3) =~= spec_u16_to_le_bytes(self.fps));
    }
}

#[derive(Clone, Copy, Debug, PartialEq, Eq, Structural)]
pub struct Command {
    pub command_type: CommandType,
}

impl Command {
    pub fn new() -> (r: Command)
        ensures
            r.command_type == CommandType::Nil,
    {
        Command {
            command_type: CommandType::Nil,
        }
    }

    /// Exact on-wire size of the payload.
    pub open spec fn spec_size() -> usize {
        1
    }

    pub fn size() -> (r: usize)
        ensures
            r == Command::spec_size(),
    {
        1
    }

    /// The bytes this value puts on the wire.
    pub open spec fn wire(self) -> Seq<u8> {
        seq![self.command_type.code()]
    }

    /// Whether `self` is exactly what the payload bytes `s` decode to.
    pub open spec fn decoded(self, s: Seq<u8>) -> bool {
        self == Command::decode(s)
    }

    /// The value a `spec_size()`-byte payload decodes to.
    pub open spec fn decode(s: Seq<u8>) -> Command {
        Command {
            command_type: CommandType::spec_from_u8(s[0]),
        }
    }

    pub fn parse(slice_data: &[u8]) -> (r: Result<Command, &'static str>)
        ensures
            slice_data@.len() == Command::spec_size() ==> (r matches Ok(v) && v == Command::decode(
                slice_data@,
            )),
            slice_data@.len() != Command::spec_size() ==> (r matches Err(_)),
    {
        if slice_data.len() == Command::size() {
            let mut ext: Extractor = Extractor::from_slice(slice_data);
            let command_type = CommandType::from_u8(ext.get_u8());
            Ok(Command { command_type })
        } else {
            Err("Wrong length")
        }
    }

}

impl Command {
    pub fn to_vec(&self) -> (r: Vec<u8>)
        ensures
            r@ == self.wire(),
            r@.len() == Command::spec_size(),
    {
        let mut vec_data: Vec<u8> = Vec::new();
        add_u8(&mut vec_data, self.command_type.to_u8());
        proof {
            self.lemma_wire_len();
            assert(vec_data@ =~= self.wire());
        }
        vec_data
    }

    pub proof fn lemma_wire_len(self)
        ensures
            self.wire().len() == Command::spec_size(),
    {
    }

    /// Decoding the wire image of a value gives the value back.
    pub proof fn lemma_wire_roundtrip(self)
        ensures
            self.wire().len() == Command::spec_size(),
            Command::decode(self.wire()) == self,
    {
        self.command_type.lemma_code_roundtrip();
        assert(self.wire()[0] == seq![self.command_type.code()][0]);
    }
}

} // verus!
