//! The device and mode taxonomy shared by every payload: who speaks on the
//! bus, which hardware revision it is, and the small state enums that ride in
//! status payloads.  Every conversion from a wire code is total; an unknown
//! code maps to the enum's fallback variant and never fails.

use vstd::bytes::*;
use vstd::prelude::*;

verus! {


// -- ModelNumber --------------------------------------------------------------------------------

#[derive(Clone, Copy, Debug, PartialEq, Eq, Structural)]
pub enum ModelNumber {
    Nil,
    Drone3DroneP1,
    Drone3DroneP2,
    Drone3DroneP3,
    Drone3DroneP4,
    Drone3DroneP5,
    Drone3DroneP6,
    Drone3DroneP7,
    Drone3DroneP8,
    Drone3DroneP9,
    Drone3DroneP10,
    Drone3ControllerP1,
    Drone3ControllerP2,
    Drone3ControllerP3,
    Drone3ControllerP4,
    Drone3ControllerP5,
    Drone3LinkP0,
    Drone3AnalyzerP0,
    Drone3TesterP4,
    Drone3TesterP6,
    Drone3TesterP7,
    Drone4DroneP5,
    Drone4DroneP6,
    Drone4DroneP7,
    Drone4ControllerP2,
    Drone4ControllerP3,
    Drone4ControllerP4,
    Drone4ControllerP5,
    Drone4LinkP0,
    Drone4TesterP6,
    Drone4TesterP7,
    Drone7DroneP2,
    Drone7BleClientP0,
    Drone7BleClientP5,
    Drone7BleServerP2,
    Drone7TesterP5,
    Drone7TesterP6,
    Drone7MonitorP4,
    Drone7MonitorP5,
    Drone8DroneP0,
    Drone8DroneP1,
    Drone8TesterP6,
    Drone8MonitorP6,
    Drone9DroneP0,
    Drone9DroneP1,
    Drone9DroneP2,
    Drone9DroneP3,
    Drone9DroneP4,
    Drone9DroneP5,
    Drone9TesterP6,
    Drone9TesterP7,
}

impl ModelNumber {
    /// The wire code of the variant.
    pub open spec fn code(self) -> u32 {
        match self {
            ModelNumber::Nil => 0x00000000,
            ModelNumber::Drone3DroneP1 => 0x00031001,
            ModelNumber::Drone3DroneP2 => 0x00031002,
            ModelNumber::Drone3DroneP3 => 0x00031003,
            ModelNumber::Drone3DroneP4 => 0x00031004,
            ModelNumber::Drone3DroneP5 => 0x00031005,
            ModelNumber::Drone3DroneP6 => 0x00031006,
            ModelNumber::Drone3DroneP7 => 0x00031007,
            ModelNumber::Drone3DroneP8 => 0x00031008,
            ModelNumber::Drone3DroneP9 => 0x00031009,
            ModelNumber::Drone3DroneP10 => 0x0003100A,
            ModelNumber::Drone3ControllerP1 => 0x00032001,
            ModelNumber::Drone3ControllerP2 => 0x00032002,
            ModelNumber::Drone3ControllerP3 => 0x00032003,
            ModelNumber::Drone3ControllerP4 => 0x00032004,
            ModelNumber::Drone3ControllerP5 => 0x00032005,
            ModelNumber::Drone3LinkP0 => 0x00033000,
            ModelNumber::Drone3AnalyzerP0 => 0x00034100,
            ModelNumber::Drone3TesterP4 => 0x0003A004,
            ModelNumber::Drone3TesterP6 => 0x0003A006,
            ModelNumber::Drone3TesterP7 => 0x0003A007,
            ModelNumber::Drone4DroneP5 => 0x00041005,
            ModelNumber::Drone4DroneP6 => 0x00041006,
            ModelNumber::Drone4DroneP7 => 0x00041007,
            ModelNumber::Drone4ControllerP2 => 0x00042002,
            ModelNumber::Drone4ControllerP3 => 0x00042003,
            ModelNumber::Drone4ControllerP4 => 0x00042004,
            ModelNumber::Drone4ControllerP5 => 0x00042005,
            ModelNumber::Drone4LinkP0 => 0x00043000,
            ModelNumber::Drone4TesterP6 => 0x0004A006,
            ModelNumber::Drone4TesterP7 => 0x0004A007,
            ModelNumber::Drone7DroneP2 => 0x00071002,
            ModelNumber::Drone7BleClientP0 => 0x00073200,
            ModelNumber::Drone7BleClientP5 => 0x00073205,
            ModelNumber::Drone7BleServerP2 => 0x00073302,
            ModelNumber::Drone7TesterP5 => 0x0007A005,
            ModelNumber::Drone7TesterP6 => 0x0007A006,
            ModelNumber::Drone7MonitorP4 => 0x0007A104,
            ModelNumber::Drone7MonitorP5 => 0x0007A105,
            ModelNumber::Drone8DroneP0 => 0x00081000,
            ModelNumber::Drone8DroneP1 => 0x00081001,
            ModelNumber::Drone8TesterP6 => 0x0008A006,
            ModelNumber::Drone8MonitorP6 => 0x0008A106,
            ModelNumber::Drone9DroneP0 => 0x00091000,
            ModelNumber::Drone9DroneP1 => 0x00091001,
            ModelNumber::Drone9DroneP2 => 0x00091002,
            ModelNumber::Drone9DroneP3 => 0x00091003,
            ModelNumber::Drone9DroneP4 => 0x00091004,
            ModelNumber::Drone9DroneP5 => 0x00091005,
            ModelNumber::Drone9TesterP6 => 0x0009A006,
            ModelNumber::Drone9TesterP7 => 0x0009A007,
        }
    }

    /// Total decoding: an unknown code falls back to `ModelNumber::Nil`.
    pub open spec fn spec_from_u32(code: u32) -> ModelNumber {
        if code == 0x00000000 {
            ModelNumber::Nil
        } else if code == 0x00031001 {
            ModelNumber::Drone3DroneP1
        } else if code == 0x00031002 {
            ModelNumber::Drone3DroneP2
        } else if code == 0x00031003 {
            ModelNumber::Drone3DroneP3
        } else if code == 0x00031004 {
            ModelNumber::Drone3DroneP4
        } else if code == 0x00031005 {
            ModelNumber::Drone3DroneP5
        } else if code == 0x00031006 {
            ModelNumber::Drone3DroneP6
        } else if code == 0x00031007 {
            ModelNumber::Drone3DroneP7
        } else if code == 0x00031008 {
            ModelNumber::Drone3DroneP8
        } else if code == 0x00031009 {
            ModelNumber::Drone3DroneP9
        } else if code == 0x0003100A {
            ModelNumber::Drone3DroneP10
        } else if code == 0x00032001 {
            ModelNumber::Drone3ControllerP1
        } else if code == 0x00032002 {
            ModelNumber::Drone3ControllerP2
        } else if code == 0x00032003 {
            ModelNumber::Drone3ControllerP3
        } else if code == 0x00032004 {
            ModelNumber::Drone3ControllerP4
        } else if code == 0x00032005 {
            ModelNumber::Drone3ControllerP5
        } else if code == 0x00033000 {
            ModelNumber::Drone3LinkP0
        } else if code == 0x00034100 {
            ModelNumber::Drone3AnalyzerP0
        } else if code == 0x0003A004 {
            ModelNumber::Drone3TesterP4
        } else if code == 0x0003A006 {
            ModelNumber::Drone3TesterP6
        } else if code == 0x0003A007 {
            ModelNumber::Drone3TesterP7
        } else if code == 0x00041005 {
            ModelNumber::Drone4DroneP5
        } else if code == 0x00041006 {
            ModelNumber::Drone4DroneP6
        } else if code == 0x00041007 {
            ModelNumber::Drone4DroneP7
        } else if code == 0x00042002 {
            ModelNumber::Drone4ControllerP2
        } else if code == 0x00042003 {
            ModelNumber::Drone4ControllerP3
        } else if code == 0x00042004 {
            ModelNumber::Drone4ControllerP4
        } else if code == 0x00042005 {
            ModelNumber::Drone4ControllerP5
        } else if code == 0x00043000 {
            ModelNumber::Drone4LinkP0
        } else if code == 0x0004A006 {
            ModelNumber::Drone4TesterP6
        } else if code == 0x0004A007 {
            ModelNumber::Drone4TesterP7
        } else if code == 0x00071002 {
            ModelNumber::Drone7DroneP2
        } else if code == 0x00073200 {
            ModelNumber::Drone7BleClientP0
        } else if code == 0x00073205 {
            ModelNumber::Drone7BleClientP5
        } else if code == 0x00073302 {
            ModelNumber::Drone7BleServerP2
        } else if code == 0x0007A005 {
            ModelNumber::Drone7TesterP5
        } else if code == 0x0007A006 {
            ModelNumber::Drone7TesterP6
        } else if code == 0x0007A104 {
            ModelNumber::Drone7MonitorP4
        } else if code == 0x0007A105 {
            ModelNumber::Drone7MonitorP5
        } else if code == 0x00081000 {
            ModelNumber::Drone8DroneP0
        } else if code == 0x00081001 {
            ModelNumber::Drone8DroneP1
        } else if code == 0x0008A006 {
            ModelNumber::Drone8TesterP6
        } else if code == 0x0008A106 {
            ModelNumber::Drone8MonitorP6
        } else if code == 0x00091000 {
            ModelNumber::Drone9DroneP0
        } else if code == 0x00091001 {
            ModelNumber::Drone9DroneP1
        } else if code == 0x00091002 {
            ModelNumber::Drone9DroneP2
        } else if code == 0x00091003 {
            ModelNumber::Drone9DroneP3
        } else if code == 0x00091004 {
            ModelNumber::Drone9DroneP4
        } else if code == 0x00091005 {
            ModelNumber::Drone9DroneP5
        } else if code == 0x0009A006 {
            ModelNumber::Drone9TesterP6
        } else if code == 0x0009A007 {
            ModelNumber::Drone9TesterP7
        } else {
            ModelNumber::Nil
        }
    }

    /// Whether the code denotes a variant of its own.
    pub open spec fn spec_is_defined(code: u32) -> bool {
        ModelNumber::spec_from_u32(code).code() == code
    }

    pub fn from_u32(data_u32: u32) -> (r: ModelNumber)
        ensures
            r == ModelNumber::spec_from_u32(data_u32),
    {
        if data_u32 == 0x00000000 {
            ModelNumber::Nil
        } else if data_u32 == 0x00031001 {
            ModelNumber::Drone3DroneP1
        } else if data_u32 == 0x00031002 {
            ModelNumber::Drone3DroneP2
        } else if data_u32 == 0x00031003 {
            ModelNumber::Drone3DroneP3
        } else if data_u32 == 0x00031004 {
            ModelNumber::Drone3DroneP4
        } else if data_u32 == 0x00031005 {
            ModelNumber::Drone3DroneP5
        } else if data_u32 == 0x00031006 {
            ModelNumber::Drone3DroneP6
        } else if data_u32 == 0x00031007 {
            ModelNumber::Drone3DroneP7
        } else if data_u32 == 0x00031008 {
            ModelNumber::Drone3DroneP8
        } else if data_u32 == 0x00031009 {
            ModelNumber::Drone3DroneP9
        } else if data_u32 == 0x0003100A {
            ModelNumber::Drone3DroneP10
        } else if data_u32 == 0x00032001 {
            ModelNumber::Drone3ControllerP1
        } else if data_u32 == 0x00032002 {
            ModelNumber::Drone3ControllerP2
        } else if data_u32 == 0x00032003 {
            ModelNumber::Drone3ControllerP3
        } else if data_u32 == 0x00032004 {
            ModelNumber::Drone3ControllerP4
        } else if data_u32 == 0x00032005 {
            ModelNumber::Drone3ControllerP5
        } else if data_u32 == 0x00033000 {
            ModelNumber::Drone3LinkP0
        } else if data_u32 == 0x00034100 {
            ModelNumber::Drone3AnalyzerP0
        } else if data_u32 == 0x0003A004 {
            ModelNumber::Drone3TesterP4
        } else if data_u32 == 0x0003A006 {
            ModelNumber::Drone3TesterP6
        } else if data_u32 == 0x0003A007 {
            ModelNumber::Drone3TesterP7
        } else if data_u32 == 0x00041005 {
            ModelNumber::Drone4DroneP5
        } else if data_u32 == 0x00041006 {
            ModelNumber::Drone4DroneP6
        } else if data_u32 == 0x00041007 {
            ModelNumber::Drone4DroneP7
        } else if data_u32 == 0x00042002 {
            ModelNumber::Drone4ControllerP2
        } else if data_u32 == 0x00042003 {
            ModelNumber::Drone4ControllerP3
        } else if data_u32 == 0x00042004 {
            ModelNumber::Drone4ControllerP4
        } else if data_u32 == 0x00042005 {
            ModelNumber::Drone4ControllerP5
        } else if data_u32 == 0x00043000 {
            ModelNumber::Drone4LinkP0
        } else if data_u32 == 0x0004A006 {
            ModelNumber::Drone4TesterP6
        } else if data_u32 == 0x0004A007 {
            ModelNumber::Drone4TesterP7
        } else if data_u32 == 0x00071002 {
            ModelNumber::Drone7DroneP2
        } else if data_u32 == 0x00073200 {
            ModelNumber::Drone7BleClientP0
        } else if data_u32 == 0x00073205 {
            ModelNumber::Drone7BleClientP5
        } else if data_u32 == 0x00073302 {
            ModelNumber::Drone7BleServerP2
        } else if data_u32 == 0x0007A005 {
            ModelNumber::Drone7TesterP5
        } else if data_u32 == 0x0007A006 {
            ModelNumber::Drone7TesterP6
        } else if data_u32 == 0x0007A104 {
            ModelNumber::Drone7MonitorP4
        } else if data_u32 == 0x0007A105 {
            ModelNumber::Drone7MonitorP5
        } else if data_u32 == 0x00081000 {
            ModelNumber::Drone8DroneP0
        } else if data_u32 == 0x00081001 {
            ModelNumber::Drone8DroneP1
        } else if data_u32 == 0x0008A006 {
            ModelNumber::Drone8TesterP6
        } else if data_u32 == 0x0008A106 {
            ModelNumber::Drone8MonitorP6
        } else if data_u32 == 0x00091000 {
            ModelNumber::Drone9DroneP0
        } else if data_u32 == 0x00091001 {
            ModelNumber::Drone9DroneP1
        } else if data_u32 == 0x00091002 {
            ModelNumber::Drone9DroneP2
        } else if data_u32 == 0x00091003 {
            ModelNumber::Drone9DroneP3
        } else if data_u32 == 0x00091004 {
            ModelNumber::Drone9DroneP4
        } else if data_u32 == 0x00091005 {
            ModelNumber::Drone9DroneP5
        } else if data_u32 == 0x0009A006 {
            ModelNumber::Drone9TesterP6
        } else if data_u32 == 0x0009A007 {
            ModelNumber::Drone9TesterP7
        } else {
            ModelNumber::Nil
        }
    }

    pub fn to_u32(self) -> (r: u32)
        ensures
            r == self.code(),
    {
        match self {
            ModelNumber::Nil => 0x00000000,
            ModelNumber::Drone3DroneP1 => 0x00031001,
            ModelNumber::Drone3DroneP2 => 0x00031002,
            ModelNumber::Drone3DroneP3 => 0x00031003,
            ModelNumber::Drone3DroneP4 => 0x00031004,
            ModelNumber::Drone3DroneP5 => 0x00031005,
            ModelNumber::Drone3DroneP6 => 0x00031006,
            ModelNumber::Drone3DroneP7 => 0x00031007,
            ModelNumber::Drone3DroneP8 => 0x00031008,
            ModelNumber::Drone3DroneP9 => 0x00031009,
            ModelNumber::Drone3DroneP10 => 0x0003100A,
            ModelNumber::Drone3ControllerP1 => 0x00032001,
            ModelNumber::Drone3ControllerP2 => 0x00032002,
            ModelNumber::Drone3ControllerP3 => 0x00032003,
            ModelNumber::Drone3ControllerP4 => 0x00032004,
            ModelNumber::Drone3ControllerP5 => 0x00032005,
            ModelNumber::Drone3LinkP0 => 0x00033000,
            ModelNumber::Drone3AnalyzerP0 => 0x00034100,
            ModelNumber::Drone3TesterP4 => 0x0003A004,
            ModelNumber::Drone3TesterP6 => 0x0003A006,
            ModelNumber::Drone3TesterP7 => 0x0003A007,
            ModelNumber::Drone4DroneP5 => 0x00041005,
            ModelNumber::Drone4DroneP6 => 0x00041006,
            ModelNumber::Drone4DroneP7 => 0x00041007,
            ModelNumber::Drone4ControllerP2 => 0x00042002,
            ModelNumber::Drone4ControllerP3 => 0x00042003,
            ModelNumber::Drone4ControllerP4 => 0x00042004,
            ModelNumber::Drone4ControllerP5 => 0x00042005,
            ModelNumber::Drone4LinkP0 => 0x00043000,
            ModelNumber::Drone4TesterP6 => 0x0004A006,
            ModelNumber::Drone4TesterP7 => 0x0004A007,
            ModelNumber::Drone7DroneP2 => 0x00071002,
            ModelNumber::Drone7BleClientP0 => 0x00073200,
            ModelNumber::Drone7BleClientP5 => 0x00073205,
            ModelNumber::Drone7BleServerP2 => 0x00073302,
            ModelNumber::Drone7TesterP5 => 0x0007A005,
            ModelNumber::Drone7TesterP6 => 0x0007A006,
            ModelNumber::Drone7MonitorP4 => 0x0007A104,
            ModelNumber::Drone7MonitorP5 => 0x0007A105,
            ModelNumber::Drone8DroneP0 => 0x00081000,
            ModelNumber::Drone8DroneP1 => 0x00081001,
            ModelNumber::Drone8TesterP6 => 0x0008A006,
            ModelNumber::Drone8MonitorP6 => 0x0008A106,
            ModelNumber::Drone9DroneP0 => 0x00091000,
            ModelNumber::Drone9DroneP1 => 0x00091001,
            ModelNumber::Drone9DroneP2 => 0x00091002,
            ModelNumber::Drone9DroneP3 => 0x00091003,
            ModelNumber::Drone9DroneP4 => 0x00091004,
            ModelNumber::Drone9DroneP5 => 0x00091005,
            ModelNumber::Drone9TesterP6 => 0x0009A006,
            ModelNumber::Drone9TesterP7 => 0x0009A007,
        }
    }

    /// Encoding a variant and decoding the code gives the variant back.
    pub proof fn lemma_code_roundtrip(self)
        ensures
            ModelNumber::spec_from_u32(self.code()) == self,
    {
    }
}

// -- DeviceType ---------------------------------------------------------------------------------

#[derive(Clone, Copy, Debug, PartialEq, Eq, Structural)]
pub enum DeviceType {
    Nil,
    Drone,
    Controller,
    LinkClient,
    LinkServer,
    BleClient,
    BleServer,
    Range,
    Analyzer,
    Base,
    ByScratch,
    Scratch,
    Entry,
    Tester,
    Monitor,
    Updater,
    Encrypter,
    Whispering,
    Broadcasting,
}

impl DeviceType {
    /// The wire code of the variant.
    pub open spec fn code(self) -> u8 {
        match self {
            DeviceType::Nil => 0x00,
            DeviceType::Drone => 0x10,
            DeviceType::Controller => 0x20,
            DeviceType::LinkClient => 0x30,
            DeviceType::LinkServer => 0x31,
            DeviceType::BleClient => 0x32,
            DeviceType::BleServer => 0x33,
            DeviceType::Range => 0x40,
            DeviceType::Analyzer => 0x41,
            DeviceType::Base => 0x70,
            DeviceType::ByScratch => 0x80,
            DeviceType::Scratch => 0x81,
            DeviceType::Entry => 0x82,
            DeviceType::Tester => 0xA0,
            DeviceType::Monitor => 0xA1,
            DeviceType::Updater => 0xA2,
            DeviceType::Encrypter => 0xA3,
            DeviceType::Whispering => 0xFE,
            DeviceType::Broadcasting => 0xFF,
        }
    }

    /// Total decoding: an unknown code falls back to `DeviceType::Nil`.
    pub open spec fn spec_from_u8(code: u8) -> DeviceType {
        if code == 0x00 {
            DeviceType::Nil
        } else if code == 0x10 {
            DeviceType::Drone
        } else if code == 0x20 {
            DeviceType::Controller
        } else if code == 0x30 {
            DeviceType::LinkClient
        } else if code == 0x31 {
            DeviceType::LinkServer
        } else if code == 0x32 {
            DeviceType::BleClient
        } else if code == 0x33 {
            DeviceType::BleServer
        } else if code == 0x40 {
            DeviceType::Range
        } else if code == 0x41 {
            DeviceType::Analyzer
        } else if code == 0x70 {
            DeviceType::Base
        } else if code == 0x80 {
            DeviceType::ByScratch
        } else if code == 0x81 {
            DeviceType::Scratch
        } else if code == 0x82 {
            DeviceType::Entry
        } else if code == 0xA0 {
            DeviceType::Tester
        } else if code == 0xA1 {
            DeviceType::Monitor
        } else if code == 0xA2 {
            DeviceType::Updater
        } else if code == 0xA3 {
            DeviceType::Encrypter
        } else if code == 0xFE {
            DeviceType::Whispering
        } else if code == 0xFF {
            DeviceType::Broadcasting
        } else {
            DeviceType::Nil
        }
    }

    /// Whether the code denotes a variant of its own.
    pub open spec fn spec_is_defined(code: u8) -> bool {
        DeviceType::spec_from_u8(code).code() == code
    }

    pub fn from_u8(data_u8: u8) -> (r: DeviceType)
        ensures
            r == DeviceType::spec_from_u8(data_u8),
    {
        if data_u8 == 0x00 {
            DeviceType::Nil
        } else if data_u8 == 0x10 {
            DeviceType::Drone
        } else if data_u8 == 0x20 {
            DeviceType::Controller
        } else if data_u8 == 0x30 {
            DeviceType::LinkClient
        } else if data_u8 == 0x31 {
            DeviceType::LinkServer
        } else if data_u8 == 0x32 {
            DeviceType::BleClient
        } else if data_u8 == 0x33 {
            DeviceType::BleServer
        } else if data_u8 == 0x40 {
            DeviceType::Range
        } else if data_u8 == 0x41 {
            DeviceType::Analyzer
        } else if data_u8 == 0x70 {
            DeviceType::Base
        } else if data_u8 == 0x80 {
            DeviceType::ByScratch
        } else if data_u8 == 0x81 {
            DeviceType::Scratch
        } else if data_u8 == 0x82 {
            DeviceType::Entry
        } else if data_u8 == 0xA0 {
            DeviceType::Tester
        } else if data_u8 == 0xA1 {
            DeviceType::Monitor
        } else if data_u8 == 0xA2 {
            DeviceType::Updater
        } else if data_u8 == 0xA3 {
            DeviceType::Encrypter
        } else if data_u8 == 0xFE {
            DeviceType::Whispering
        } else if data_u8 == 0xFF {
            DeviceType::Broadcasting
        } else {
            DeviceType::Nil
        }
    }

    pub fn to_u8(self) -> (r: u8)
        ensures
            r == self.code(),
    {
        match self {
            DeviceType::Nil => 0x00,
            DeviceType::Drone => 0x10,
            DeviceType::Controller => 0x20,
            DeviceType::LinkClient => 0x30,
            DeviceType::LinkServer => 0x31,
            DeviceType::BleClient => 0x32,
            DeviceType::BleServer => 0x33,
            DeviceType::Range => 0x40,
            DeviceType::Analyzer => 0x41,
            DeviceType::Base => 0x70,
            DeviceType::ByScratch => 0x80,
            DeviceType::Scratch => 0x81,
            DeviceType::Entry => 0x82,
            DeviceType::Tester => 0xA0,
            DeviceType::Monitor => 0xA1,
            DeviceType::Updater => 0xA2,
            DeviceType::Encrypter => 0xA3,
            DeviceType::Whispering => 0xFE,
            DeviceType::Broadcasting => 0xFF,
        }
    }

    /// Encoding a variant and decoding the code gives the variant back.
    pub proof fn lemma_code_roundtrip(self)
        ensures
            DeviceType::spec_from_u8(self.code()) == self,
    {
    }
}

// -- ModeSystem -------------------------------------------------------------------------------------

#[derive(Clone, Copy, Debug, PartialEq, Eq, Structural)]
pub enum ModeSystem {
    Nil,
    Boot,
    Start,
    Running,
    ReadyToReset,
    Error,
}

impl ModeSystem {
    /// The wire code of the variant.
    pub open spec fn code(self) -> u8 {
        match self {
            ModeSystem::Nil => 0x00,
            ModeSystem::Boot => 0x10,
            ModeSystem::Start => 0x11,
            ModeSystem::Running => 0x12,
            ModeSystem::ReadyToReset => 0x13,
            ModeSystem::Error => 0xA0,
        }
    }

    /// Total decoding: an unknown code falls back to `ModeSystem::Nil`.
    pub open spec fn spec_from_u8(code: u8) -> ModeSystem {
        if code == 0x00 {
            ModeSystem::Nil
        } else if code == 0x10 {
            ModeSystem::Boot
        } else if code == 0x11 {
            ModeSystem::Start
        } else if code == 0x12 {
            ModeSystem::Running
        } else if code == 0x13 {
            ModeSystem::ReadyToReset
        } else if code == 0xA0 {
            ModeSystem::Error
        } else {
            ModeSystem::Nil
        }
    }

    /// Whether the code denotes a variant of its own.
    pub open spec fn spec_is_defined(code: u8) -> bool {
        ModeSystem::spec_from_u8(code).code() == code
    }

    pub fn from_u8(data_u8: u8) -> (r: ModeSystem)
        ensures
            r == ModeSystem::spec_from_u8(data_u8),
    {
        if data_u8 == 0x00 {
            ModeSystem::Nil
        } else if data_u8 == 0x10 {
            ModeSystem::Boot
        } else if data_u8 == 0x11 {
            ModeSystem::Start
        } else if data_u8 == 0x12 {
            ModeSystem::Running
        } else if data_u8 == 0x13 {
            ModeSystem::ReadyToReset
        } else if data_u8 == 0xA0 {
            ModeSystem::Error
        } else {
            ModeSystem::Nil
        }
    }

    pub fn to_u8(self) -> (r: u8)
        ensures
            r == self.code(),
    {
        match self {
            ModeSystem::Nil => 0x00,
            ModeSystem::Boot => 0x10,
            ModeSystem::Start => 0x11,
            ModeSystem::Running => 0x12,
            ModeSystem::ReadyToReset => 0x13,
            ModeSystem::Error => 0xA0,
        }
    }

    /// Encoding a variant and decoding the code gives the variant back.
    pub proof fn lemma_code_roundtrip(self)
        ensures
            ModeSystem::spec_from_u8(self.code()) == self,
    {
    }
}

// -- ModeControlFlight ------------------------------------------------------------------------------

#[derive(Clone, Copy, Debug, PartialEq, Eq, Structural)]
pub enum ModeControlFlight {
    Nil,
    Attitude,
    Position,
    Manual,
    Rate,
    Function,
    Error,
}

impl ModeControlFlight {
    /// The wire code of the variant.
    pub open spec fn code(self) -> u8 {
        match self {
            ModeControlFlight::Nil => 0x00,
            ModeControlFlight::Attitude => 0x10,
            ModeControlFlight::Position => 0x11,
            ModeControlFlight::Manual => 0x12,
            ModeControlFlight::Rate => 0x13,
            ModeControlFlight::Function => 0x14,
            ModeControlFlight::Error => 0xA0,
        }
    }

    /// Total decoding: an unknown code falls back to `ModeControlFlight::Nil`.
    pub open spec fn spec_from_u8(code: u8) -> ModeControlFlight {
        if code == 0x00 {
            ModeControlFlight::Nil
        } else if code == 0x10 {
            ModeControlFlight::Attitude
        } else if code == 0x11 {
            ModeControlFlight::Position
        } else if code == 0x12 {
            ModeControlFlight::Manual
        } else if code == 0x13 {
            ModeControlFlight::Rate
        } else if code == 0x14 {
            ModeControlFlight::Function
        } else if code == 0xA0 {
            ModeControlFlight::Error
        } else {
            ModeControlFlight::Nil
        }
    }

    /// Whether the code denotes a variant of its own.
    pub open spec fn spec_is_defined(code: u8) -> bool {
        ModeControlFlight::spec_from_u8(code).code() == code
    }

    pub fn from_u8(data_u8: u8) -> (r: ModeControlFlight)
        ensures
            r == ModeControlFlight::spec_from_u8(data_u8),
    {
        if data_u8 == 0x00 {
            ModeControlFlight::Nil
        } else if data_u8 == 0x10 {
            ModeControlFlight::Attitude
        } else if data_u8 == 0x11 {
            ModeControlFlight::Position
        } else if data_u8 == 0x12 {
            ModeControlFlight::Manual
        } else if data_u8 == 0x13 {
            ModeControlFlight::Rate
        } else if data_u8 == 0x14 {
            ModeControlFlight::Function
        } else if data_u8 == 0xA0 {
            ModeControlFlight::Error
        } else {
            ModeControlFlight::Nil
        }
    }

    pub fn to_u8(self) -> (r: u8)
        ensures
            r == self.code(),
    {
        match self {
            ModeControlFlight::Nil => 0x00,
            ModeControlFlight::Attitude => 0x10,
            ModeControlFlight::Position => 0x11,
            ModeControlFlight::Manual => 0x12,
            ModeControlFlight::Rate => 0x13,
            ModeControlFlight::Function => 0x14,
            ModeControlFlight::Error => 0xA0,
        }
    }

    /// Encoding a variant and decoding the code gives the variant back.
    pub proof fn lemma_code_roundtrip(self)
        ensures
            ModeControlFlight::spec_from_u8(self.code()) == self,
    {
    }
}

// -- ModeFlight -------------------------------------------------------------------------------------

#[derive(Clone, Copy, Debug, PartialEq, Eq, Structural)]
pub enum ModeFlight {
    Nil,
    Ready,
    Start,
    Takeoff,
    Flight,
    Landing,
    Flip,
    Reverse,
    Stop,
    Accident,
    Error,
    Test,
}

impl ModeFlight {
    /// The wire code of the variant.
    pub open spec fn code(self) -> u8 {
        match self {
            ModeFlight::Nil => 0x00,
            ModeFlight::Ready => 0x10,
            ModeFlight::Start => 0x11,
            ModeFlight::Takeoff => 0x12,
            ModeFlight::Flight => 0x13,
            ModeFlight::Landing => 0x14,
            ModeFlight::Flip => 0x15,
            ModeFlight::Reverse => 0x16,
            ModeFlight::Stop => 0x20,
            ModeFlight::Accident => 0x30,
            ModeFlight::Error => 0x31,
            ModeFlight::Test => 0x40,
        }
    }

    /// Total decoding: an unknown code falls back to `ModeFlight::Nil`.
    pub open spec fn spec_from_u8(code: u8) -> ModeFlight {
        if code == 0x00 {
            ModeFlight::Nil
        } else if code == 0x10 {
            ModeFlight::Ready
        } else if code == 0x11 {
            ModeFlight::Start
        } else if code == 0x12 {
            ModeFlight::Takeoff
        } else if code == 0x13 {
            ModeFlight::Flight
        } else if code == 0x14 {
            ModeFlight::Landing
        } else if code == 0x15 {
            ModeFlight::Flip
        } else if code == 0x16 {
            ModeFlight::Reverse
        } else if code == 0x20 {
            ModeFlight::Stop
        } else if code == 0x30 {
            ModeFlight::Accident
        } else if code == 0x31 {
            ModeFlight::Error
        } else if code == 0x40 {
            ModeFlight::Test
        } else {
            ModeFlight::Nil
        }
    }

    /// Whether the code denotes a variant of its own.
    pub open spec fn spec_is_defined(code: u8) -> bool {
        ModeFlight::spec_from_u8(code).code() == code
    }

    pub fn from_u8(data_u8: u8) -> (r: ModeFlight)
        ensures
            r == ModeFlight::spec_from_u8(data_u8),
    {
        if data_u8 == 0x00 {
            ModeFlight::Nil
        } else if data_u8 == 0x10 {
            ModeFlight::Ready
        } else if data_u8 == 0x11 {
            ModeFlight::Start
        } else if data_u8 == 0x12 {
            ModeFlight::Takeoff
        } else if data_u8 == 0x13 {
            ModeFlight::Flight
        } else if data_u8 == 0x14 {
            ModeFlight::Landing
        } else if data_u8 == 0x15 {
            ModeFlight::Flip
        } else if data_u8 == 0x16 {
            ModeFlight::Reverse
        } else if data_u8 == 0x20 {
            ModeFlight::Stop
        } else if data_u8 == 0x30 {
            ModeFlight::Accident
        } else if data_u8 == 0x31 {
            ModeFlight::Error
        } else if data_u8 == 0x40 {
            ModeFlight::Test
        } else {
            ModeFlight::Nil
        }
    }

    pub fn to_u8(self) -> (r: u8)
        ensures
            r == self.code(),
    {
        match self {
            ModeFlight::Nil => 0x00,
            ModeFlight::Ready => 0x10,
            ModeFlight::Start => 0x11,
            ModeFlight::Takeoff => 0x12,
            ModeFlight::Flight => 0x13,
            ModeFlight::Landing => 0x14,
            ModeFlight::Flip => 0x15,
            ModeFlight::Reverse => 0x16,
            ModeFlight::Stop => 0x20,
            ModeFlight::Accident => 0x30,
            ModeFlight::Error => 0x31,
            ModeFlight::Test => 0x40,
        }
    }

    /// Encoding a variant and decoding the code gives the variant back.
    pub proof fn lemma_code_roundtrip(self)
        ensures
            ModeFlight::spec_from_u8(self.code()) == self,
    {
    }
}

// -- ModeMovement -----------------------------------------------------------------------------------

#[derive(Clone, Copy, Debug, PartialEq, Eq, Structural)]
pub enum ModeMovement {
    Nil,
    Ready,
    Hovering,
    Moving,
    ReturnHome,
}

impl ModeMovement {
    /// The wire code of the variant.
    pub open spec fn code(self) -> u8 {
        match self {
            ModeMovement::Nil => 0x00,
            ModeMovement::Ready => 0x01,
            ModeMovement::Hovering => 0x02,
            ModeMovement::Moving => 0x03,
            ModeMovement::ReturnHome => 0x04,
        }
    }

    /// Total decoding: an unknown code falls back to `ModeMovement::Nil`.
    pub open spec fn spec_from_u8(code: u8) -> ModeMovement {
        if code == 0x00 {
            ModeMovement::Nil
        } else if code == 0x01 {
            ModeMovement::Ready
        } else if code == 0x02 {
            ModeMovement::Hovering
        } else if code == 0x03 {
            ModeMovement::Moving
        } else if code == 0x04 {
            ModeMovement::ReturnHome
        } else {
            ModeMovement::Nil
        }
    }

    /// Whether the code denotes a variant of its own.
    pub open spec fn spec_is_defined(code: u8) -> bool {
        ModeMovement::spec_from_u8(code).code() == code
    }

    pub fn from_u8(data_u8: u8) -> (r: ModeMovement)
        ensures
            r == ModeMovement::spec_from_u8(data_u8),
    {
        if data_u8 == 0x00 {
            ModeMovement::Nil
        } else if data_u8 == 0x01 {
            ModeMovement::Ready
        } else if data_u8 == 0x02 {
            ModeMovement::Hovering
        } else if data_u8 == 0x03 {
            ModeMovement::Moving
        } else if data_u8 == 0x04 {
            ModeMovement::ReturnHome
        } else {
            ModeMovement::Nil
        }
    }

    pub fn to_u8(self) -> (r: u8)
        ensures
            r == self.code(),
    {
        match self {
            ModeMovement::Nil => 0x00,
            ModeMovement::Ready => 0x01,
            ModeMovement::Hovering => 0x02,
            ModeMovement::Moving => 0x03,
            ModeMovement::ReturnHome => 0x04,
        }
    }

    /// Encoding a variant and decoding the code gives the variant back.
    pub proof fn lemma_code_roundtrip(self)
        ensures
            ModeMovement::spec_from_u8(self.code()) == self,
    {
    }
}

// -- ModeUpdate -------------------------------------------------------------------------------------

#[derive(Clone, Copy, Debug, PartialEq, Eq, Structural)]
pub enum ModeUpdate {
    Nil,
    Ready,
    Update,
    Complete,
    Failed,
    NotAvailable,
    RunApplication,
    NotRegistered,
    EndOfType,
}

impl ModeUpdate {
    /// The wire code of the variant.
    pub open spec fn code(self) -> u8 {
        match self {
            ModeUpdate::Nil => 0x00,
            ModeUpdate::Ready => 0x01,
            ModeUpdate::Update => 0x02,
            ModeUpdate::Complete => 0x03,
            ModeUpdate::Failed => 0x04,
            ModeUpdate::NotAvailable => 0x05,
            ModeUpdate::RunApplication => 0x06,
            ModeUpdate::NotRegistered => 0x07,
            ModeUpdate::EndOfType => 0x08,
        }
    }

    /// Total decoding: an unknown code falls back to `ModeUpdate::Nil`.
    pub open spec fn spec_from_u8(code: u8) -> ModeUpdate {
        if code == 0x00 {
            ModeUpdate::Nil
        } else if code == 0x01 {
            ModeUpdate::Ready
        } else if code == 0x02 {
            ModeUpdate::Update
        } else if code == 0x03 {
            ModeUpdate::Complete
        } else if code == 0x04 {
            ModeUpdate::Failed
        } else if code == 0x05 {
            ModeUpdate::NotAvailable
        } else if code == 0x06 {
            ModeUpdate::RunApplication
        } else if code == 0x07 {
            ModeUpdate::NotRegistered
        } else if code == 0x08 {
            ModeUpdate::EndOfType
        } else {
            ModeUpdate::Nil
        }
    }

    /// Whether the code denotes a variant of its own.
    pub open spec fn spec_is_defined(code: u8) -> bool {
        ModeUpdate::spec_from_u8(code).code() == code
    }

    pub fn from_u8(data_u8: u8) -> (r: ModeUpdate)
        ensures
            r == ModeUpdate::spec_from_u8(data_u8),
    {
        if data_u8 == 0x00 {
            ModeUpdate::Nil
        } else if data_u8 == 0x01 {
            ModeUpdate::Ready
        } else if data_u8 == 0x02 {
            ModeUpdate::Update
        } else if data_u8 == 0x03 {
            ModeUpdate::Complete
        } else if data_u8 == 0x04 {
            ModeUpdate::Failed
        } else if data_u8 == 0x05 {
            ModeUpdate::NotAvailable
        } else if data_u8 == 0x06 {
            ModeUpdate::RunApplication
        } else if data_u8 == 0x07 {
            ModeUpdate::NotRegistered
        } else if data_u8 == 0x08 {
            ModeUpdate::EndOfType
        } else {
            ModeUpdate::Nil
        }
    }

    pub fn to_u8(self) -> (r: u8)
        ensures
            r == self.code(),
    {
        match self {
            ModeUpdate::Nil => 0x00,
            ModeUpdate::Ready => 0x01,
            ModeUpdate::Update => 0x02,
            ModeUpdate::Complete => 0x03,
            ModeUpdate::Failed => 0x04,
            ModeUpdate::NotAvailable => 0x05,
            ModeUpdate::RunApplication => 0x06,
            ModeUpdate::NotRegistered => 0x07,
            ModeUpdate::EndOfType => 0x08,
        }
    }

    /// Encoding a variant and decoding the code gives the variant back.
    pub proof fn lemma_code_roundtrip(self)
        ensures
            ModeUpdate::spec_from_u8(self.code()) == self,
    {
    }
}

// -- ErrorFlagsForSensor ----------------------------------------------------------------------------

#[derive(Clone, Copy, Debug, PartialEq, Eq, Structural)]
pub enum ErrorFlagsForSensor {
    Nil,
    MotionNoAnswer,
    MotionWrongValue,
    MotionNotCalibrated,
    MotionCalibrating,
    PressureNoAnswer,
    PressureWrongValue,
    RangeGroundNoAnswer,
    RangeGroundWrongValue,
    RangeFrontNoAnswer,
    RangeFrontWrongValue,
    FlowNoAnswer,
    FlowWrongValue,
    FlowCannotRecognizeGroundImage,
    RfNoAnswer,
    RfPaired,
    RfConnected,
}

impl ErrorFlagsForSensor {
    /// The wire code of the variant.
    pub open spec fn code(self) -> u32 {
        match self {
            ErrorFlagsForSensor::Nil => 0x00000000,
            ErrorFlagsForSensor::MotionNoAnswer => 0x00000001,
            ErrorFlagsForSensor::MotionWrongValue => 0x00000002,
            ErrorFlagsForSensor::MotionNotCalibrated => 0x00000004,
            ErrorFlagsForSensor::MotionCalibrating => 0x00000008,
            ErrorFlagsForSensor::PressureNoAnswer => 0x00000010,
            ErrorFlagsForSensor::PressureWrongValue => 0x00000020,
            ErrorFlagsForSensor::RangeGroundNoAnswer => 0x00000100,
            ErrorFlagsForSensor::RangeGroundWrongValue => 0x00000200,
            ErrorFlagsForSensor::RangeFrontNoAnswer => 0x00000400,
            ErrorFlagsForSensor::RangeFrontWrongValue => 0x00000800,
            ErrorFlagsForSensor::FlowNoAnswer => 0x00001000,
            ErrorFlagsForSensor::FlowWrongValue => 0x00002000,
            ErrorFlagsForSensor::FlowCannotRecognizeGroundImage => 0x00004000,
            ErrorFlagsForSensor::RfNoAnswer => 0x10000000,
            ErrorFlagsForSensor::RfPaired => 0x20000000,
            ErrorFlagsForSensor::RfConnected => 0x40000000,
        }
    }

    /// Total decoding: an unknown code falls back to `ErrorFlagsForSensor::Nil`.
    pub open spec fn spec_from_u32(code: u32) -> ErrorFlagsForSensor {
        if code == 0x00000000 {
            ErrorFlagsForSensor::Nil
        } else if code == 0x00000001 {
            ErrorFlagsForSensor::MotionNoAnswer
        } else if code == 0x00000002 {
            ErrorFlagsForSensor::MotionWrongValue
        } else if code == 0x00000004 {
            ErrorFlagsForSensor::MotionNotCalibrated
        } else if code == 0x00000008 {
            ErrorFlagsForSensor::MotionCalibrating
        } else if code == 0x00000010 {
            ErrorFlagsForSensor::PressureNoAnswer
        } else if code == 0x00000020 {
            ErrorFlagsForSensor::PressureWrongValue
        } else if code == 0x00000100 {
            ErrorFlagsForSensor::RangeGroundNoAnswer
        } else if code == 0x00000200 {
            ErrorFlagsForSensor::RangeGroundWrongValue
        } else if code == 0x00000400 {
            ErrorFlagsForSensor::RangeFrontNoAnswer
        } else if code == 0x00000800 {
            ErrorFlagsForSensor::RangeFrontWrongValue
        } else if code == 0x00001000 {
            ErrorFlagsForSensor::FlowNoAnswer
        } else if code == 0x00002000 {
            ErrorFlagsForSensor::FlowWrongValue
        } else if code == 0x00004000 {
            ErrorFlagsForSensor::FlowCannotRecognizeGroundImage
        } else if code == 0x10000000 {
            ErrorFlagsForSensor::RfNoAnswer
        } else if code == 0x20000000 {
            ErrorFlagsForSensor::RfPaired
        } else if code == 0x40000000 {
            ErrorFlagsForSensor::RfConnected
        } else {
            ErrorFlagsForSensor::Nil
        }
    }

    /// Whether the code denotes a variant of its own.
    pub open spec fn spec_is_defined(code: u32) -> bool {
        ErrorFlagsForSensor::spec_from_u32(code).code() == code
    }

    pub fn from_u32(data_u32: u32) -> (r: ErrorFlagsForSensor)
        ensures
            r == ErrorFlagsForSensor::spec_from_u32(data_u32),
    {
        if data_u32 == 0x00000000 {
            ErrorFlagsForSensor::Nil
        } else if data_u32 == 0x00000001 {
            ErrorFlagsForSensor::MotionNoAnswer
        } else if data_u32 == 0x00000002 {
            ErrorFlagsForSensor::MotionWrongValue
        } else if data_u32 == 0x00000004 {
            ErrorFlagsForSensor::MotionNotCalibrated
        } else if data_u32 == 0x00000008 {
            ErrorFlagsForSensor::MotionCalibrating
        } else if data_u32 == 0x00000010 {
            ErrorFlagsForSensor::PressureNoAnswer
        } else if data_u32 == 0x00000020 {
            ErrorFlagsForSensor::PressureWrongValue
        } else if data_u32 == 0x00000100 {
            ErrorFlagsForSensor::RangeGroundNoAnswer
        } else if data_u32 == 0x00000200 {
            ErrorFlagsForSensor::RangeGroundWrongValue
        } else if data_u32 == 0x00000400 {
            ErrorFlagsForSensor::RangeFrontNoAnswer
        } else if data_u32 == 0x00000800 {
            ErrorFlagsForSensor::RangeFrontWrongValue
        } else if data_u32 == 0x00001000 {
            ErrorFlagsForSensor::FlowNoAnswer
        } else if data_u32 == 0x00002000 {
            ErrorFlagsForSensor::FlowWrongValue
        } else if data_u32 == 0x00004000 {
            ErrorFlagsForSensor::FlowCannotRecognizeGroundImage
        } else if data_u32 == 0x10000000 {
            ErrorFlagsForSensor::RfNoAnswer
        } else if data_u32 == 0x20000000 {
            ErrorFlagsForSensor::RfPaired
        } else if data_u32 == 0x40000000 {
            ErrorFlagsForSensor::RfConnected
        } else {
            ErrorFlagsForSensor::Nil
        }
    }

    pub fn to_u32(self) -> (r: u32)
        ensures
            r == self.code(),
    {
        match self {
            ErrorFlagsForSensor::Nil => 0x00000000,
            ErrorFlagsForSensor::MotionNoAnswer => 0x00000001,
            ErrorFlagsForSensor::MotionWrongValue => 0x00000002,
            ErrorFlagsForSensor::MotionNotCalibrated => 0x00000004,
            ErrorFlagsForSensor::MotionCalibrating => 0x00000008,
            ErrorFlagsForSensor::PressureNoAnswer => 0x00000010,
            ErrorFlagsForSensor::PressureWrongValue => 0x00000020,
            ErrorFlagsForSensor::RangeGroundNoAnswer => 0x00000100,
            ErrorFlagsForSensor::RangeGroundWrongValue => 0x00000200,
            ErrorFlagsForSensor::RangeFrontNoAnswer => 0x00000400,
            ErrorFlagsForSensor::RangeFrontWrongValue => 0x00000800,
            ErrorFlagsForSensor::FlowNoAnswer => 0x00001000,
            ErrorFlagsForSensor::FlowWrongValue => 0x00002000,
            ErrorFlagsForSensor::FlowCannotRecognizeGroundImage => 0x00004000,
            ErrorFlagsForSensor::RfNoAnswer => 0x10000000,
            ErrorFlagsForSensor::RfPaired => 0x20000000,
            ErrorFlagsForSensor::RfConnected => 0x40000000,
        }
    }

    /// Encoding a variant and decoding the code gives the variant back.
    pub proof fn lemma_code_roundtrip(self)
        ensures
            ErrorFlagsForSensor::spec_from_u32(self.code()) == self,
    {
    }
}

// -- ErrorFlagsForState -----------------------------------------------------------------------------

#[derive(Clone, Copy, Debug, PartialEq, Eq, Structural)]
pub enum ErrorFlagsForState {
    Nil,
    NotRegistered,
    FlashReadLockUnLocked,
    BootloaderWriteLockUnLocked,
    LowBattery,
    TakeoffFailureCheckPropellerAndMotor,
    CheckPropellerVibration,
    AttitudeNotStable,
    CanNotFlipLowBattery,
    CanNotFlipTooHeavy,
}

impl ErrorFlagsForState {
    /// The wire code of the variant.
    pub open spec fn code(self) -> u32 {
        match self {
            ErrorFlagsForState::Nil => 0x00000000,
            ErrorFlagsForState::NotRegistered => 0x00000001,
            ErrorFlagsForState::FlashReadLockUnLocked => 0x00000002,
            ErrorFlagsForState::BootloaderWriteLockUnLocked => 0x00000004,
            ErrorFlagsForState::LowBattery => 0x00000008,
            ErrorFlagsForState::TakeoffFailureCheckPropellerAndMotor => 0x00000010,
            ErrorFlagsForState::CheckPropellerVibration => 0x00000020,
            ErrorFlagsForState::AttitudeNotStable => 0x00000040,
            ErrorFlagsForState::CanNotFlipLowBattery => 0x00000100,
            ErrorFlagsForState::CanNotFlipTooHeavy => 0x00000200,
        }
    }

    /// Total decoding: an unknown code falls back to `ErrorFlagsForState::Nil`.
    pub open spec fn spec_from_u32(code: u32) -> ErrorFlagsForState {
        if code == 0x00000000 {
            ErrorFlagsForState::Nil
        } else if code == 0x00000001 {
            ErrorFlagsForState::NotRegistered
        } else if code == 0x00000002 {
            ErrorFlagsForState::FlashReadLockUnLocked
        } else if code == 0x00000004 {
            ErrorFlagsForState::BootloaderWriteLockUnLocked
        } else if code == 0x00000008 {
            ErrorFlagsForState::LowBattery
        } else if code == 0x00000010 {
            ErrorFlagsForState::TakeoffFailureCheckPropellerAndMotor
        } else if code == 0x00000020 {
            ErrorFlagsForState::CheckPropellerVibration
        } else if code == 0x00000040 {
            ErrorFlagsForState::AttitudeNotStable
        } else if code == 0x00000100 {
            ErrorFlagsForState::CanNotFlipLowBattery
        } else if code == 0x00000200 {
            ErrorFlagsForState::CanNotFlipTooHeavy
        } else {
            ErrorFlagsForState::Nil
        }
    }

    /// Whether the code denotes a variant of its own.
    pub open spec fn spec_is_defined(code: u32) -> bool {
        ErrorFlagsForState::spec_from_u32(code).code() == code
    }

    pub fn from_u32(data_u32: u32) -> (r: ErrorFlagsForState)
        ensures
            r == ErrorFlagsForState::spec_from_u32(data_u32),
    {
        if data_u32 == 0x00000000 {
            ErrorFlagsForState::Nil
        } else if data_u32 == 0x00000001 {
            ErrorFlagsForState::NotRegistered
        } else if data_u32 == 0x00000002 {
            ErrorFlagsForState::FlashReadLockUnLocked
        } else if data_u32 == 0x00000004 {
            ErrorFlagsForState::BootloaderWriteLockUnLocked
        } else if data_u32 == 0x00000008 {
            ErrorFlagsForState::LowBattery
        } else if data_u32 == 0x00000010 {
            ErrorFlagsForState::TakeoffFailureCheckPropellerAndMotor
        } else if data_u32 == 0x00000020 {
            ErrorFlagsForState::CheckPropellerVibration
        } else if data_u32 == 0x00000040 {
            ErrorFlagsForState::AttitudeNotStable
        } else if data_u32 == 0x00000100 {
            ErrorFlagsForState::CanNotFlipLowBattery
        } else if data_u32 == 0x00000200 {
            ErrorFlagsForState::CanNotFlipTooHeavy
        } else {
            ErrorFlagsForState::Nil
        }
    }

    pub fn to_u32(self) -> (r: u32)
        ensures
            r == self.code(),
    {
        match self {
            ErrorFlagsForState::Nil => 0x00000000,
            ErrorFlagsForState::NotRegistered => 0x00000001,
            ErrorFlagsForState::FlashReadLockUnLocked => 0x00000002,
            ErrorFlagsForState::BootloaderWriteLockUnLocked => 0x00000004,
            ErrorFlagsForState::LowBattery => 0x00000008,
            ErrorFlagsForState::TakeoffFailureCheckPropellerAndMotor => 0x00000010,
            ErrorFlagsForState::CheckPropellerVibration => 0x00000020,
            ErrorFlagsForState::AttitudeNotStable => 0x00000040,
            ErrorFlagsForState::CanNotFlipLowBattery => 0x00000100,
            ErrorFlagsForState::CanNotFlipTooHeavy => 0x00000200,
        }
    }

    /// Encoding a variant and decoding the code gives the variant back.
    pub proof fn lemma_code_roundtrip(self)
        ensures
            ErrorFlagsForState::spec_from_u32(self.code()) == self,
    {
    }
}

// -- Direction --------------------------------------------------------------------------------------

#[derive(Clone, Copy, Debug, PartialEq, Eq, Structural)]
pub enum Direction {
    Nil,
    Left,
    Front,
    Right,
    Rear,
    Top,
    Bottom,
    Center,
}

impl Direction {
    /// The wire code of the variant.
    pub open spec fn code(self) -> u8 {
        match self {
            Direction::Nil => 0x00,
            Direction::Left => 0x01,
            Direction::Front => 0x02,
            Direction::Right => 0x03,
            Direction::Rear => 0x04,
            Direction::Top => 0x05,
            Direction::Bottom => 0x06,
            Direction::Center => 0x07,
        }
    }

    /// Total decoding: an unknown code falls back to `Direction::Nil`.
    pub open spec fn spec_from_u8(code: u8) -> Direction {
        if code == 0x00 {
            Direction::Nil
        } else if code == 0x01 {
            Direction::Left
        } else if code == 0x02 {
            Direction::Front
        } else if code == 0x03 {
            Direction::Right
        } else if code == 0x04 {
            Direction::Rear
        } else if code == 0x05 {
            Direction::Top
        } else if code == 0x06 {
            Direction::Bottom
        } else if code == 0x07 {
            Direction::Center
        } else {
            Direction::Nil
        }
    }

    /// Whether the code denotes a variant of its own.
    pub open spec fn spec_is_defined(code: u8) -> bool {
        Direction::spec_from_u8(code).code() == code
    }

    pub fn from_u8(data_u8: u8) -> (r: Direction)
        ensures
            r == Direction::spec_from_u8(data_u8),
    {
        if data_u8 == 0x00 {
            Direction::Nil
        } else if data_u8 == 0x01 {
            Direction::Left
        } else if data_u8 == 0x02 {
            Direction::Front
        } else if data_u8 == 0x03 {
            Direction::Right
        } else if data_u8 == 0x04 {
            Direction::Rear
        } else if data_u8 == 0x05 {
            Direction::Top
        } else if data_u8 == 0x06 {
            Direction::Bottom
        } else if data_u8 == 0x07 {
            Direction::Center
        } else {
            Direction::Nil
        }
    }

    pub fn to_u8(self) -> (r: u8)
        ensures
            r == self.code(),
    {
        match self {
            Direction::Nil => 0x00,
            Direction::Left => 0x01,
            Direction::Front => 0x02,
            Direction::Right => 0x03,
            Direction::Rear => 0x04,
            Direction::Top => 0x05,
            Direction::Bottom => 0x06,
            Direction::Center => 0x07,
        }
    }

    /// Encoding a variant and decoding the code gives the variant back.
    pub proof fn lemma_code_roundtrip(self)
        ensures
            Direction::spec_from_u8(self.code()) == self,
    {
    }
}

// -- Rotation ---------------------------------------------------------------------------------------

#[derive(Clone, Copy, Debug, PartialEq, Eq, Structural)]
pub enum Rotation {
    Nil,
    Clockwise,
    Counterclockwise,
}

impl Rotation {
    /// The wire code of the variant.
    pub open spec fn code(self) -> u8 {
        match self {
            Rotation::Nil => 0x00,
            Rotation::Clockwise => 0x01,
            Rotation::Counterclockwise => 0x02,
        }
    }

    /// Total decoding: an unknown code falls back to `Rotation::Nil`.
    pub open spec fn spec_from_u8(code: u8) -> Rotation {
        if code == 0x00 {
            Rotation::Nil
        } else if code == 0x01 {
            Rotation::Clockwise
        } else if code == 0x02 {
            Rotation::Counterclockwise
        } else {
            Rotation::Nil
        }
    }

    /// Whether the code denotes a variant of its own.
    pub open spec fn spec_is_defined(code: u8) -> bool {
        Rotation::spec_from_u8(code).code() == code
    }

    pub fn from_u8(data_u8: u8) -> (r: Rotation)
        ensures
            r == Rotation::spec_from_u8(data_u8),
    {
        if data_u8 == 0x00 {
            Rotation::Nil
        } else if data_u8 == 0x01 {
            Rotation::Clockwise
        } else if data_u8 == 0x02 {
            Rotation::Counterclockwise
        } else {
            Rotation::Nil
        }
    }

    pub fn to_u8(self) -> (r: u8)
        ensures
            r == self.code(),
    {
        match self {
            Rotation::Nil => 0x00,
            Rotation::Clockwise => 0x01,
            Rotation::Counterclockwise => 0x02,
        }
    }

    /// Encoding a variant and decoding the code gives the variant back.
    pub proof fn lemma_code_roundtrip(self)
        ensures
            Rotation::spec_from_u8(self.code()) == self,
    {
    }
}

// -- FlightEvent ------------------------------------------------------------------------------------

#[derive(Clone, Copy, Debug, PartialEq, Eq, Structural)]
pub enum FlightEvent {
    Nil,
    Stop,
    Takeoff,
    Landing,
    Reverse,
    FlipFront,
    FlipRear,
    FlipLeft,
    FlipRight,
    ReturnHone,
    Shot,
    UnderAttack,
    ResetHeading,
}

impl FlightEvent {
    /// The wire code of the variant.
    pub open spec fn code(self) -> u8 {
        match self {
            FlightEvent::Nil => 0x00,
            FlightEvent::Stop => 0x10,
            FlightEvent::Takeoff => 0x11,
            FlightEvent::Landing => 0x12,
            FlightEvent::Reverse => 0x14,
            FlightEvent::FlipFront => 0x15,
            FlightEvent::FlipRear => 0x16,
            FlightEvent::FlipLeft => 0x17,
            FlightEvent::FlipRight => 0x18,
            FlightEvent::ReturnHone => 0x19,
            FlightEvent::Shot => 0x90,
            FlightEvent::UnderAttack => 0x91,
            FlightEvent::ResetHeading => 0xA0,
        }
    }

    /// Total decoding: an unknown code falls back to `FlightEvent::Nil`.
    pub open spec fn spec_from_u8(code: u8) -> FlightEvent {
        if code == 0x00 {
            FlightEvent::Nil
        } else if code == 0x10 {
            FlightEvent::Stop
        } else if code == 0x11 {
            FlightEvent::Takeoff
        } else if code == 0x12 {
            FlightEvent::Landing
        } else if code == 0x14 {
            FlightEvent::Reverse
        } else if code == 0x15 {
            FlightEvent::FlipFront
        } else if code == 0x16 {
            FlightEvent::FlipRear
        } else if code == 0x17 {
            FlightEvent::FlipLeft
        } else if code == 0x18 {
            FlightEvent::FlipRight
        } else if code == 0x19 {
            FlightEvent::ReturnHone
        } else if code == 0x90 {
            FlightEvent::Shot
        } else if code == 0x91 {
            FlightEvent::UnderAttack
        } else if code == 0xA0 {
            FlightEvent::ResetHeading
        } else {
            FlightEvent::Nil
        }
    }

    /// Whether the code denotes a variant of its own.
    pub open spec fn spec_is_defined(code: u8) -> bool {
        FlightEvent::spec_from_u8(code).code() == code
    }

    pub fn from_u8(data_u8: u8) -> (r: FlightEvent)
        ensures
            r == FlightEvent::spec_from_u8(data_u8),
    {
        if data_u8 == 0x00 {
            FlightEvent::Nil
        } else if data_u8 == 0x10 {
            FlightEvent::Stop
        } else if data_u8 == 0x11 {
            FlightEvent::Takeoff
        } else if data_u8 == 0x12 {
            FlightEvent::Landing
        } else if data_u8 == 0x14 {
            FlightEvent::Reverse
        } else if data_u8 == 0x15 {
            FlightEvent::FlipFront
        } else if data_u8 == 0x16 {
            FlightEvent::FlipRear
        } else if data_u8 == 0x17 {
            FlightEvent::FlipLeft
        } else if data_u8 == 0x18 {
            FlightEvent::FlipRight
        } else if data_u8 == 0x19 {
            FlightEvent::ReturnHone
        } else if data_u8 == 0x90 {
            FlightEvent::Shot
        } else if data_u8 == 0x91 {
            FlightEvent::UnderAttack
        } else if data_u8 == 0xA0 {
            FlightEvent::ResetHeading
        } else {
            FlightEvent::Nil
        }
    }

    pub fn to_u8(self) -> (r: u8)
        ensures
            r == self.code(),
    {
        match self {
            FlightEvent::Nil => 0x00,
            FlightEvent::Stop => 0x10,
            FlightEvent::Takeoff => 0x11,
            FlightEvent::Landing => 0x12,
            FlightEvent::Reverse => 0x14,
            FlightEvent::FlipFront => 0x15,
            FlightEvent::FlipRear => 0x16,
            FlightEvent::FlipLeft => 0x17,
            FlightEvent::FlipRight => 0x18,
            FlightEvent::ReturnHone => 0x19,
            FlightEvent::Shot => 0x90,
            FlightEvent::UnderAttack => 0x91,
            FlightEvent::ResetHeading => 0xA0,
        }
    }

    /// Encoding a variant and decoding the code gives the variant back.
    pub proof fn lemma_code_roundtrip(self)
        ensures
            FlightEvent::spec_from_u8(self.code()) == self,
    {
    }
}

// -- SensorOrientation ------------------------------------------------------------------------------

#[derive(Clone, Copy, Debug, PartialEq, Eq, Structural)]
pub enum SensorOrientation {
    Nil,
    Normal,
    ReverseStart,
    Reversed,
}

impl SensorOrientation {
    /// The wire code of the variant.
    pub open spec fn code(self) -> u8 {
        match self {
            SensorOrientation::Nil => 0x00,
            SensorOrientation::Normal => 0x01,
            SensorOrientation::ReverseStart => 0x02,
            SensorOrientation::Reversed => 0x03,
        }
    }

    /// Total decoding: an unknown code falls back to `SensorOrientation::Nil`.
    pub open spec fn spec_from_u8(code: u8) -> SensorOrientation {
        if code == 0x00 {
            SensorOrientation::Nil
        } else if code == 0x01 {
            SensorOrientation::Normal
        } else if code == 0x02 {
            SensorOrientation::ReverseStart
        } else if code == 0x03 {
            SensorOrientation::Reversed
        } else {
            SensorOrientation::Nil
        }
    }

    /// Whether the code denotes a variant of its own.
    pub open spec fn spec_is_defined(code: u8) -> bool {
        SensorOrientation::spec_from_u8(code).code() == code
    }

    pub fn from_u8(data_u8: u8) -> (r: SensorOrientation)
        ensures
            r == SensorOrientation::spec_from_u8(data_u8),
    {
        if data_u8 == 0x00 {
            SensorOrientation::Nil
        } else if data_u8 == 0x01 {
            SensorOrientation::Normal
        } else if data_u8 == 0x02 {
            SensorOrientation::ReverseStart
        } else if data_u8 == 0x03 {
            SensorOrientation::Reversed
        } else {
            SensorOrientation::Nil
        }
    }

    pub fn to_u8(self) -> (r: u8)
        ensures
            r == self.code(),
    {
        match self {
            SensorOrientation::Nil => 0x00,
            SensorOrientation::Normal => 0x01,
            SensorOrientation::ReverseStart => 0x02,
            SensorOrientation::Reversed => 0x03,
        }
    }

    /// Encoding a variant and decoding the code gives the variant back.
    pub proof fn lemma_code_roundtrip(self)
        ensures
            SensorOrientation::spec_from_u8(self.code()) == self,
    {
    }
}

// -- Headless ---------------------------------------------------------------------------------------

#[derive(Clone, Copy, Debug, PartialEq, Eq, Structural)]
pub enum Headless {
    Nil,
    Headless,
    Normal,
}

impl Headless {
    /// The wire code of the variant.
    pub open spec fn code(self) -> u8 {
        match self {
            Headless::Nil => 0x00,
            Headless::Headless => 0x01,
            Headless::Normal => 0x02,
        }
    }

    /// Total decoding: an unknown code falls back to `Headless::Nil`.
    pub open spec fn spec_from_u8(code: u8) -> Headless {
        if code == 0x00 {
            Headless::Nil
        } else if code == 0x01 {
            Headless::Headless
        } else if code == 0x02 {
            Headless::Normal
        } else {
            Headless::Nil
        }
    }

    /// Whether the code denotes a variant of its own.
    pub open spec fn spec_is_defined(code: u8) -> bool {
        Headless::spec_from_u8(code).code() == code
    }

    pub fn from_u8(data_u8: u8) -> (r: Headless)
        ensures
            r == Headless::spec_from_u8(data_u8),
    {
        if data_u8 == 0x00 {
            Headless::Nil
        } else if data_u8 == 0x01 {
            Headless::Headless
        } else if data_u8 == 0x02 {
            Headless::Normal
        } else {
            Headless::Nil
        }
    }

    pub fn to_u8(self) -> (r: u8)
        ensures
            r == self.code(),
    {
        match self {
            Headless::Nil => 0x00,
            Headless::Headless => 0x01,
            Headless::Normal => 0x02,
        }
    }

    /// Encoding a variant and decoding the code gives the variant back.
    pub proof fn lemma_code_roundtrip(self)
        ensures
            Headless::spec_from_u8(self.code()) == self,
    {
    }
}

// -- TrimDirection ----------------------------------------------------------------------------------

#[derive(Clone, Copy, Debug, PartialEq, Eq, Structural)]
pub enum TrimDirection {
    Nil,
    RollIncrease,
    RollDecrease,
    PitchIncrease,
    PitchDecrease,
    YawIncrease,
    YawDecrease,
    ThrottleIncrease,
    ThrottleDecrease,
    Reset,
}

impl TrimDirection {
    /// The wire code of the variant.
    pub open spec fn code(self) -> u8 {
        match self {
            TrimDirection::Nil => 0x00,
            TrimDirection::RollIncrease => 0x01,
            TrimDirection::RollDecrease => 0x02,
            TrimDirection::PitchIncrease => 0x03,
            TrimDirection::PitchDecrease => 0x04,
            TrimDirection::YawIncrease => 0x05,
            TrimDirection::YawDecrease => 0x06,
            TrimDirection::ThrottleIncrease => 0x07,
            TrimDirection::ThrottleDecrease => 0x08,
            TrimDirection::Reset => 0x09,
        }
    }

    /// Total decoding: an unknown code falls back to `TrimDirection::Nil`.
    pub open spec fn spec_from_u8(code: u8) -> TrimDirection {
        if code == 0x00 {
            TrimDirection::Nil
        } else if code == 0x01 {
            TrimDirection::RollIncrease
        } else if code == 0x02 {
            TrimDirection::RollDecrease
        } else if code == 0x03 {
            TrimDirection::PitchIncrease
        } else if code == 0x04 {
            TrimDirection::PitchDecrease
        } else if code == 0x05 {
            TrimDirection::YawIncrease
        } else if code == 0x06 {
            TrimDirection::YawDecrease
        } else if code == 0x07 {
            TrimDirection::ThrottleIncrease
        } else if code == 0x08 {
            TrimDirection::ThrottleDecrease
        } else if code == 0x09 {
            TrimDirection::Reset
        } else {
            TrimDirection::Nil
        }
    }

    /// Whether the code denotes a variant of its own.
    pub open spec fn spec_is_defined(code: u8) -> bool {
        TrimDirection::spec_from_u8(code).code() == code
    }

    pub fn from_u8(data_u8: u8) -> (r: TrimDirection)
        ensures
            r == TrimDirection::spec_from_u8(data_u8),
    {
        if data_u8 == 0x00 {
            TrimDirection::Nil
        } else if data_u8 == 0x01 {
            TrimDirection::RollIncrease
        } else if data_u8 == 0x02 {
            TrimDirection::RollDecrease
        } else if data_u8 == 0x03 {
            TrimDirection::PitchIncrease
        } else if data_u8 == 0x04 {
            TrimDirection::PitchDecrease
        } else if data_u8 == 0x05 {
            TrimDirection::YawIncrease
        } else if data_u8 == 0x06 {
            TrimDirection::YawDecrease
        } else if data_u8 == 0x07 {
            TrimDirection::ThrottleIncrease
        } else if data_u8 == 0x08 {
            TrimDirection::ThrottleDecrease
        } else if data_u8 == 0x09 {
            TrimDirection::Reset
        } else {
            TrimDirection::Nil
        }
    }

    pub fn to_u8(self) -> (r: u8)
        ensures
            r == self.code(),
    {
        match self {
            TrimDirection::Nil => 0x00,
            TrimDirection::RollIncrease => 0x01,
            TrimDirection::RollDecrease => 0x02,
            TrimDirection::PitchIncrease => 0x03,
            TrimDirection::PitchDecrease => 0x04,
            TrimDirection::YawIncrease => 0x05,
            TrimDirection::YawDecrease => 0x06,
            TrimDirection::ThrottleIncrease => 0x07,
            TrimDirection::ThrottleDecrease => 0x08,
            TrimDirection::Reset => 0x09,
        }
    }

    /// Encoding a variant and decoding the code gives the variant back.
    pub proof fn lemma_code_roundtrip(self)
        ensures
            TrimDirection::spec_from_u8(self.code()) == self,
    {
    }
}


// -- Version ------------------------------------------------------------------------------------
/// A firmware version, packed on the wire as the u32
/// `(major << 24) | (minor << 16) | build`, little-endian.
#[derive(Clone, Copy, Debug, PartialEq, Eq, Structural)]
pub struct Version {
    pub build: u16,
    pub minor: u8,
    pub major: u8,
}

impl Version {
    pub open spec fn spec_to_u32(self) -> u32 {
        ((self.major as u32) << 24) | ((self.minor as u32) << 16) | (self.build as u32)
    }

    pub open spec fn spec_from_u32(version: u32) -> Version {
        (Version {
            build: (version & 0xFFFF) as u16,
            minor: ((version >> 16) & 0xFF) as u8,
            major: ((version >> 24) & 0xFF) as u8,
        })
    }

    pub fn from_u32(version: u32) -> (r: Version)
        ensures
            r == Version::spec_from_u32(version),
    {
        Version {
            build: (version & 0xFFFF) as u16,
            minor: ((version >> 16) & 0xFF) as u8,
            major: ((version >> 24) & 0xFF) as u8,
        }
    }

    pub fn to_u32(&self) -> (r: u32)
        ensures
            r == self.spec_to_u32(),
    {
        ((self.major as u32) << 24) | ((self.minor as u32) << 16) | (self.build as u32)
    }

    /// Reads the version out of its four wire bytes; anything but four bytes
    /// gives the stock version 21.1.1.
    pub fn from_slice(data_array: &[u8]) -> (r: Version)
        ensures
            data_array@.len() == 4 ==> {
                &&& r.build == spec_u16_from_le_bytes(data_array@.subrange(0, 2))
                &&& r.minor == data_array@[2]
                &&& r.major == data_array@[3]
            },
            data_array@.len() != 4 ==> r == (Version { build: 1, minor: 1, major: 21 }),
    {
        if data_array.len() == 4 {
            let sub = vstd::slice::slice_subrange(data_array, 0, 2);
            Version {
                build: u16_from_le_bytes(sub),
                minor: *vstd::slice::slice_index_get(data_array, 2),
                major: *vstd::slice::slice_index_get(data_array, 3),
            }
        } else {
            Version { build: 1, minor: 1, major: 21 }
        }
    }

    pub fn to_vec(&self) -> (r: Vec<u8>)
        ensures
            r@ == spec_u32_to_le_bytes(self.spec_to_u32()),
    {
        u32_to_le_bytes(self.to_u32())
    }

    /// Packing to the wire u32 and unpacking gives the version back.
    pub proof fn lemma_u32_roundtrip(self)
        ensures
            Version::spec_from_u32(self.spec_to_u32()) == self,
    {
        let ma = self.major;
        let mi = self.minor;
        let b = self.build;
        assert({
            let v = ((ma as u32) << 24) | ((mi as u32) << 16) | (b as u32);
            (v & 0xFFFF) as u16 == b && ((v >> 16) & 0xFF) as u8 == mi && ((v >> 24) & 0xFF) as u8
                == ma
        }) by (bit_vector);
    }
}

// -- ModelNumber helpers --------------------------------------------------------------------------
impl ModelNumber {
    /// The second octet of the model code names the device type.
    pub fn get_device_type(&self) -> (r: DeviceType)
        ensures
            r == DeviceType::spec_from_u8(((self.code() >> 8) & 0xFF) as u8),
    {
        DeviceType::from_u8(((self.to_u32() >> 8) & 0xFF) as u8)
    }
}


} // verus!
