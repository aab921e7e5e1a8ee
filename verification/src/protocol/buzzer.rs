//! Buzzer payloads: notes by scale or frequency, immediate or queued.

use crate::communication::extractor::Extractor;
use crate::communication::serializer::{add_u16, add_u8};
use crate::wire::{lemma_u16_le_bytes_roundtrip};
use vstd::bytes::*;
use vstd::prelude::*;


verus! {

#[derive(Clone, Copy, Debug, PartialEq, Eq, Structural)]
pub enum Mode {
    Stop,
    MuteInstantly,
    MuteContinually,
    ScaleInstantly,
    ScaleContinually,
    HzInstantly,
    HzContinually,
}

impl Mode {
    /// The wire code of the variant.
    pub open spec fn code(self) -> u8 {
        match self {
            Mode::Stop => 0x00,
            Mode::MuteInstantly => 0x01,
            Mode::MuteContinually => 0x02,
            Mode::ScaleInstantly => 0x03,
            Mode::ScaleContinually => 0x04,
            Mode::HzInstantly => 0x05,
            Mode::HzContinually => 0x06,
        }
    }

    /// Total decoding: an unknown code falls back to `Mode::Stop`.
    pub open spec fn spec_from_u8(code: u8) -> Mode {
        if code == 0x00 {
            Mode::Stop
        } else if code == 0x01 {
            Mode::MuteInstantly
        } else if code == 0x02 {
            Mode::MuteContinually
        } else if code == 0x03 {
            Mode::ScaleInstantly
        } else if code == 0x04 {
            Mode::ScaleContinually
        } else if code == 0x05 {
            Mode::HzInstantly
        } else if code == 0x06 {
            Mode::HzContinually
        } else {
            Mode::Stop
        }
    }

    /// Whether the code denotes a variant of its own.
    pub open spec fn spec_is_defined(code: u8) -> bool {
        Mode::spec_from_u8(code).code() == code
    }

    pub fn from_u8(data_u8: u8) -> (r: Mode)
        ensures
            r == Mode::spec_from_u8(data_u8),
    {
        if data_u8 == 0x00 {
            Mode::Stop
        } else if data_u8 == 0x01 {
            Mode::MuteInstantly
        } else if data_u8 == 0x02 {
            Mode::MuteContinually
        } else if data_u8 == 0x03 {
            Mode::ScaleInstantly
        } else if data_u8 == 0x04 {
            Mode::ScaleContinually
        } else if data_u8 == 0x05 {
            Mode::HzInstantly
        } else if data_u8 == 0x06 {
            Mode::HzContinually
        } else {
            Mode::Stop
        }
    }

    pub fn to_u8(self) -> (r: u8)
        ensures
            r == self.code(),
    {
        match self {
            Mode::Stop => 0x00,
            Mode::MuteInstantly => 0x01,
            Mode::MuteContinually => 0x02,
            Mode::ScaleInstantly => 0x03,
            Mode::ScaleContinually => 0x04,
            Mode::HzInstantly => 0x05,
            Mode::HzContinually => 0x06,
        }
    }

    /// Encoding a variant and decoding the code gives the variant back.
    pub proof fn lemma_code_roundtrip(self)
        ensures
            Mode::spec_from_u8(self.code()) == self,
    {
    }
}

#[derive(Clone, Copy, Debug, PartialEq, Eq, Structural)]
pub enum Scale {
    C1,
    CS1,
    D1,
    DS1,
    E1,
    F1,
    FS1,
    G1,
    GS1,
    A1,
    AS1,
    B1,
    C2,
    CS2,
    D2,
    DS2,
    E2,
    F2,
    FS2,
    G2,
    GS2,
    A2,
    AS2,
    B2,
    C3,
    CS3,
    D3,
    DS3,
    E3,
    F3,
    FS3,
    G3,
    GS3,
    A3,
    AS3,
    B3,
    C4,
    CS4,
    D4,
    DS4,
    E4,
    F4,
    FS4,
    G4,
    GS4,
    A4,
    AS4,
    B4,
    C5,
    CS5,
    D5,
    DS5,
    E5,
    F5,
    FS5,
    G5,
    GS5,
    A5,
    AS5,
    B5,
    C6,
    CS6,
    D6,
    DS6,
    E6,
    F6,
    FS6,
    G6,
    GS6,
    A6,
    AS6,
    B6,
    C7,
    CS7,
    D7,
    DS7,
    E7,
    F7,
    FS7,
    G7,
    GS7,
    A7,
    AS7,
    B7,
    C8,
    CS8,
    D8,
    DS8,
    E8,
    F8,
    FS8,
    G8,
    GS8,
    A8,
    AS8,
    B8,
    Mute,
    Fin,
}

impl Scale {
    /// The wire code of the variant.
    pub open spec fn code(self) -> u16 {
        match self {
            Scale::C1 => 0x0000,
            Scale::CS1 => 0x0001,
            Scale::D1 => 0x0002,
            Scale::DS1 => 0x0003,
            Scale::E1 => 0x0004,
            Scale::F1 => 0x0005,
            Scale::FS1 => 0x0006,
            Scale::G1 => 0x0007,
            Scale::GS1 => 0x0008,
            Scale::A1 => 0x0009,
            Scale::AS1 => 0x000A,
            Scale::B1 => 0x000B,
            Scale::C2 => 0x000C,
            Scale::CS2 => 0x000D,
            Scale::D2 => 0x000E,
            Scale::DS2 => 0x000F,
            Scale::E2 => 0x0010,
            Scale::F2 => 0x0011,
            Scale::FS2 => 0x0012,
            Scale::G2 => 0x0013,
            Scale::GS2 => 0x0014,
            Scale::A2 => 0x0015,
            Scale::AS2 => 0x0016,
            Scale::B2 => 0x0017,
            Scale::C3 => 0x0018,
            Scale::CS3 => 0x0019,
            Scale::D3 => 0x001A,
            Scale::DS3 => 0x001B,
            Scale::E3 => 0x001C,
            Scale::F3 => 0x001D,
            Scale::FS3 => 0x001E,
            Scale::G3 => 0x001F,
            Scale::GS3 => 0x0020,
            Scale::A3 => 0x0021,
            Scale::AS3 => 0x0022,
            Scale::B3 => 0x0023,
            Scale::C4 => 0x0024,
            Scale::CS4 => 0x0025,
            Scale::D4 => 0x0026,
            Scale::DS4 => 0x0027,
            Scale::E4 => 0x0028,
            Scale::F4 => 0x0029,
            Scale::FS4 => 0x002A,
            Scale::G4 => 0x002B,
            Scale::GS4 => 0x002C,
            Scale::A4 => 0x002D,
            Scale::AS4 => 0x002E,
            Scale::B4 => 0x002F,
            Scale::C5 => 0x0030,
            Scale::CS5 => 0x0031,
            Scale::D5 => 0x0032,
            Scale::DS5 => 0x0033,
            Scale::E5 => 0x0034,
            Scale::F5 => 0x0035,
            Scale::FS5 => 0x0036,
            Scale::G5 => 0x0037,
            Scale::GS5 => 0x0038,
            Scale::A5 => 0x0039,
            Scale::AS5 => 0x003A,
            Scale::B5 => 0x003B,
            Scale::C6 => 0x003C,
            Scale::CS6 => 0x003D,
            Scale::D6 => 0x003E,
            Scale::DS6 => 0x003F,
            Scale::E6 => 0x0040,
            Scale::F6 => 0x0041,
            Scale::FS6 => 0x0042,
            Scale::G6 => 0x0043,
            Scale::GS6 => 0x0044,
            Scale::A6 => 0x0045,
            Scale::AS6 => 0x0046,
            Scale::B6 => 0x0047,
            Scale::C7 => 0x0048,
            Scale::CS7 => 0x0049,
            Scale::D7 => 0x004A,
            Scale::DS7 => 0x004B,
            Scale::E7 => 0x004C,
            Scale::F7 => 0x004D,
            Scale::FS7 => 0x004E,
            Scale::G7 => 0x004F,
            Scale::GS7 => 0x0050,
            Scale::A7 => 0x0051,
            Scale::AS7 => 0x0052,
            Scale::B7 => 0x0053,
            Scale::C8 => 0x0054,
            Scale::CS8 => 0x0055,
            Scale::D8 => 0x0056,
            Scale::DS8 => 0x0057,
            Scale::E8 => 0x0058,
            Scale::F8 => 0x0059,
            Scale::FS8 => 0x005A,
            Scale::G8 => 0x005B,
            Scale::GS8 => 0x005C,
            Scale::A8 => 0x005D,
            Scale::AS8 => 0x005E,
            Scale::B8 => 0x005F,
            Scale::Mute => 0x00EE,
            Scale::Fin => 0x00FF,
        }
    }

    /// Total decoding: an unknown code falls back to `Scale::Mute`.
    pub open spec fn spec_from_u16(code: u16) -> Scale {
        if code == 0x0000 {
            Scale::C1
        } else if code == 0x0001 {
            Scale::CS1
        } else if code == 0x0002 {
            Scale::D1
        } else if code == 0x0003 {
            Scale::DS1
        } else if code == 0x0004 {
            Scale::E1
        } else if code == 0x0005 {
            Scale::F1
        } else if code == 0x0006 {
            Scale::FS1
        } else if code == 0x0007 {
            Scale::G1
        } else if code == 0x0008 {
            Scale::GS1
        } else if code == 0x0009 {
            Scale::A1
        } else if code == 0x000A {
            Scale::AS1
        } else if code == 0x000B {
            Scale::B1
        } else if code == 0x000C {
            Scale::C2
        } else if code == 0x000D {
            Scale::CS2
        } else if code == 0x000E {
            Scale::D2
        } else if code == 0x000F {
            Scale::DS2
        } else if code == 0x0010 {
            Scale::E2
        } else if code == 0x0011 {
            Scale::F2
        } else if code == 0x0012 {
            Scale::FS2
        } else if code == 0x0013 {
            Scale::G2
        } else if code == 0x0014 {
            Scale::GS2
        } else if code == 0x0015 {
            Scale::A2
        } else if code == 0x0016 {
            Scale::AS2
        } else if code == 0x0017 {
            Scale::B2
        } else if code == 0x0018 {
            Scale::C3
        } else if code == 0x0019 {
            Scale::CS3
        } else if code == 0x001A {
            Scale::D3
        } else if code == 0x001B {
            Scale::DS3
        } else if code == 0x001C {
            Scale::E3
        } else if code == 0x001D {
            Scale::F3
        } else if code == 0x001E {
            Scale::FS3
        } else if code == 0x001F {
            Scale::G3
        } else if code == 0x0020 {
            Scale::GS3
        } else if code == 0x0021 {
            Scale::A3
        } else if code == 0x0022 {
            Scale::AS3
        } else if code == 0x0023 {
            Scale::B3
        } else if code == 0x0024 {
            Scale::C4
        } else if code == 0x0025 {
            Scale::CS4
        } else if code == 0x0026 {
            Scale::D4
        } else if code == 0x0027 {
            Scale::DS4
        } else if code == 0x0028 {
            Scale::E4
        } else if code == 0x0029 {
            Scale::F4
        } else if code == 0x002A {
            Scale::FS4
        } else if code == 0x002B {
            Scale::G4
        } else if code == 0x002C {
            Scale::GS4
        } else if code == 0x002D {
            Scale::A4
        } else if code == 0x002E {
            Scale::AS4
        } else if code == 0x002F {
            Scale::B4
        } else if code == 0x0030 {
            Scale::C5
        } else if code == 0x0031 {
            Scale::CS5
        } else if code == 0x0032 {
            Scale::D5
        } else if code == 0x0033 {
            Scale::DS5
        } else if code == 0x0034 {
            Scale::E5
        } else if code == 0x0035 {
            Scale::F5
        } else if code == 0x0036 {
            Scale::FS5
        } else if code == 0x0037 {
            Scale::G5
        } else if code == 0x0038 {
            Scale::GS5
        } else if code == 0x0039 {
            Scale::A5
        } else if code == 0x003A {
            Scale::AS5
        } else if code == 0x003B {
            Scale::B5
        } else if code == 0x003C {
            Scale::C6
        } else if code == 0x003D {
            Scale::CS6
        } else if code == 0x003E {
            Scale::D6
        } else if code == 0x003F {
            Scale::DS6
        } else if code == 0x0040 {
            Scale::E6
        } else if code == 0x0041 {
            Scale::F6
        } else if code == 0x0042 {
            Scale::FS6
        } else if code == 0x0043 {
            Scale::G6
        } else if code == 0x0044 {
            Scale::GS6
        } else if code == 0x0045 {
            Scale::A6
        } else if code == 0x0046 {
            Scale::AS6
        } else if code == 0x0047 {
            Scale::B6
        } else if code == 0x0048 {
            Scale::C7
        } else if code == 0x0049 {
            Scale::CS7
        } else if code == 0x004A {
            Scale::D7
        } else if code == 0x004B {
            Scale::DS7
        } else if code == 0x004C {
            Scale::E7
        } else if code == 0x004D {
            Scale::F7
        } else if code == 0x004E {
            Scale::FS7
        } else if code == 0x004F {
            Scale::G7
        } else if code == 0x0050 {
            Scale::GS7
        } else if code == 0x0051 {
            Scale::A7
        } else if code == 0x0052 {
            Scale::AS7
        } else if code == 0x0053 {
            Scale::B7
        } else if code == 0x0054 {
            Scale::C8
        } else if code == 0x0055 {
            Scale::CS8
        } else if code == 0x0056 {
            Scale::D8
        } else if code == 0x0057 {
            Scale::DS8
        } else if code == 0x0058 {
            Scale::E8
        } else if code == 0x0059 {
            Scale::F8
        } else if code == 0x005A {
            Scale::FS8
        } else if code == 0x005B {
            Scale::G8
        } else if code == 0x005C {
            Scale::GS8
        } else if code == 0x005D {
            Scale::A8
        } else if code == 0x005E {
            Scale::AS8
        } else if code == 0x005F {
            Scale::B8
        } else if code == 0x00EE {
            Scale::Mute
        } else if code == 0x00FF {
            Scale::Fin
        } else {
            Scale::Mute
        }
    }

    /// Whether the code denotes a variant of its own.
    pub open spec fn spec_is_defined(code: u16) -> bool {
        Scale::spec_from_u16(code).code() == code
    }

    pub fn from_u16(data_u16: u16) -> (r: Scale)
        ensures
            r == Scale::spec_from_u16(data_u16),
    {
        if data_u16 == 0x0000 {
            Scale::C1
        } else if data_u16 == 0x0001 {
            Scale::CS1
        } else if data_u16 == 0x0002 {
            Scale::D1
        } else if data_u16 == 0x0003 {
            Scale::DS1
        } else if data_u16 == 0x0004 {
            Scale::E1
        } else if data_u16 == 0x0005 {
            Scale::F1
        } else if data_u16 == 0x0006 {
            Scale::FS1
        } else if data_u16 == 0x0007 {
            Scale::G1
        } else if data_u16 == 0x0008 {
            Scale::GS1
        } else if data_u16 == 0x0009 {
            Scale::A1
        } else if data_u16 == 0x000A {
            Scale::AS1
        } else if data_u16 == 0x000B {
            Scale::B1
        } else if data_u16 == 0x000C {
            Scale::C2
        } else if data_u16 == 0x000D {
            Scale::CS2
        } else if data_u16 == 0x000E {
            Scale::D2
        } else if data_u16 == 0x000F {
            Scale::DS2
        } else if data_u16 == 0x0010 {
            Scale::E2
        } else if data_u16 == 0x0011 {
            Scale::F2
        } else if data_u16 == 0x0012 {
            Scale::FS2
        } else if data_u16 == 0x0013 {
            Scale::G2
        } else if data_u16 == 0x0014 {
            Scale::GS2
        } else if data_u16 == 0x0015 {
            Scale::A2
        } else if data_u16 == 0x0016 {
            Scale::AS2
        } else if data_u16 == 0x0017 {
            Scale::B2
        } else if data_u16 == 0x0018 {
            Scale::C3
        } else if data_u16 == 0x0019 {
            Scale::CS3
        } else if data_u16 == 0x001A {
            Scale::D3
        } else if data_u16 == 0x001B {
            Scale::DS3
        } else if data_u16 == 0x001C {
            Scale::E3
        } else if data_u16 == 0x001D {
            Scale::F3
        } else if data_u16 == 0x001E {
            Scale::FS3
        } else if data_u16 == 0x001F {
            Scale::G3
        } else if data_u16 == 0x0020 {
            Scale::GS3
        } else if data_u16 == 0x0021 {
            Scale::A3
        } else if data_u16 == 0x0022 {
            Scale::AS3
        } else if data_u16 == 0x0023 {
            Scale::B3
        } else if data_u16 == 0x0024 {
            Scale::C4
        } else if data_u16 == 0x0025 {
            Scale::CS4
        } else if data_u16 == 0x0026 {
            Scale::D4
        } else if data_u16 == 0x0027 {
            Scale::DS4
        } else if data_u16 == 0x0028 {
            Scale::E4
        } else if data_u16 == 0x0029 {
            Scale::F4
        } else if data_u16 == 0x002A {
            Scale::FS4
        } else if data_u16 == 0x002B {
            Scale::G4
        } else if data_u16 == 0x002C {
            Scale::GS4
        } else if data_u16 == 0x002D {
            Scale::A4
        } else if data_u16 == 0x002E {
            Scale::AS4
        } else if data_u16 == 0x002F {
            Scale::B4
        } else if data_u16 == 0x0030 {
            Scale::C5
        } else if data_u16 == 0x0031 {
            Scale::CS5
        } else if data_u16 == 0x0032 {
            Scale::D5
        } else if data_u16 == 0x0033 {
            Scale::DS5
        } else if data_u16 == 0x0034 {
            Scale::E5
        } else if data_u16 == 0x0035 {
            Scale::F5
        } else if data_u16 == 0x0036 {
            Scale::FS5
        } else if data_u16 == 0x0037 {
            Scale::G5
        } else if data_u16 == 0x0038 {
            Scale::GS5
        } else if data_u16 == 0x0039 {
            Scale::A5
        } else if data_u16 == 0x003A {
            Scale::AS5
        } else if data_u16 == 0x003B {
            Scale::B5
        } else if data_u16 == 0x003C {
            Scale::C6
        } else if data_u16 == 0x003D {
            Scale::CS6
        } else if data_u16 == 0x003E {
            Scale::D6
        } else if data_u16 == 0x003F {
            Scale::DS6
        } else if data_u16 == 0x0040 {
            Scale::E6
        } else if data_u16 == 0x0041 {
            Scale::F6
        } else if data_u16 == 0x0042 {
            Scale::FS6
        } else if data_u16 == 0x0043 {
            Scale::G6
        } else if data_u16 == 0x0044 {
            Scale::GS6
        } else if data_u16 == 0x0045 {
            Scale::A6
        } else if data_u16 == 0x0046 {
            Scale::AS6
        } else if data_u16 == 0x0047 {
            Scale::B6
        } else if data_u16 == 0x0048 {
            Scale::C7
        } else if data_u16 == 0x0049 {
            Scale::CS7
        } else if data_u16 == 0x004A {
            Scale::D7
        } else if data_u16 == 0x004B {
            Scale::DS7
        } else if data_u16 == 0x004C {
            Scale::E7
        } else if data_u16 == 0x004D {
            Scale::F7
        } else if data_u16 == 0x004E {
            Scale::FS7
        } else if data_u16 == 0x004F {
            Scale::G7
        } else if data_u16 == 0x0050 {
            Scale::GS7
        } else if data_u16 == 0x0051 {
            Scale::A7
        } else if data_u16 == 0x0052 {
            Scale::AS7
        } else if data_u16 == 0x0053 {
            Scale::B7
        } else if data_u16 == 0x0054 {
            Scale::C8
        } else if data_u16 == 0x0055 {
            Scale::CS8
        } else if data_u16 == 0x0056 {
            Scale::D8
        } else if data_u16 == 0x0057 {
            Scale::DS8
        } else if data_u16 == 0x0058 {
            Scale::E8
        } else if data_u16 == 0x0059 {
            Scale::F8
        } else if data_u16 == 0x005A {
            Scale::FS8
        } else if data_u16 == 0x005B {
            Scale::G8
        } else if data_u16 == 0x005C {
            Scale::GS8
        } else if data_u16 == 0x005D {
            Scale::A8
        } else if data_u16 == 0x005E {
            Scale::AS8
        } else if data_u16 == 0x005F {
            Scale::B8
        } else if data_u16 == 0x00EE {
            Scale::Mute
        } else if data_u16 == 0x00FF {
            Scale::Fin
        } else {
            Scale::Mute
        }
    }

    pub fn to_u16(self) -> (r: u16)
        ensures
            r == self.code(),
    {
        match self {
            Scale::C1 => 0x0000,
            Scale::CS1 => 0x0001,
            Scale::D1 => 0x0002,
            Scale::DS1 => 0x0003,
            Scale::E1 => 0x0004,
            Scale::F1 => 0x0005,
            Scale::FS1 => 0x0006,
            Scale::G1 => 0x0007,
            Scale::GS1 => 0x0008,
            Scale::A1 => 0x0009,
            Scale::AS1 => 0x000A,
            Scale::B1 => 0x000B,
            Scale::C2 => 0x000C,
            Scale::CS2 => 0x000D,
            Scale::D2 => 0x000E,
            Scale::DS2 => 0x000F,
            Scale::E2 => 0x0010,
            Scale::F2 => 0x0011,
            Scale::FS2 => 0x0012,
            Scale::G2 => 0x0013,
            Scale::GS2 => 0x0014,
            Scale::A2 => 0x0015,
            Scale::AS2 => 0x0016,
            Scale::B2 => 0x0017,
            Scale::C3 => 0x0018,
            Scale::CS3 => 0x0019,
            Scale::D3 => 0x001A,
            Scale::DS3 => 0x001B,
            Scale::E3 => 0x001C,
            Scale::F3 => 0x001D,
            Scale::FS3 => 0x001E,
            Scale::G3 => 0x001F,
            Scale::GS3 => 0x0020,
            Scale::A3 => 0x0021,
            Scale::AS3 => 0x0022,
            Scale::B3 => 0x0023,
            Scale::C4 => 0x0024,
            Scale::CS4 => 0x0025,
            Scale::D4 => 0x0026,
            Scale::DS4 => 0x0027,
            Scale::E4 => 0x0028,
            Scale::F4 => 0x0029,
            Scale::FS4 => 0x002A,
            Scale::G4 => 0x002B,
            Scale::GS4 => 0x002C,
            Scale::A4 => 0x002D,
            Scale::AS4 => 0x002E,
            Scale::B4 => 0x002F,
            Scale::C5 => 0x0030,
            Scale::CS5 => 0x0031,
            Scale::D5 => 0x0032,
            Scale::DS5 => 0x0033,
            Scale::E5 => 0x0034,
            Scale::F5 => 0x0035,
            Scale::FS5 => 0x0036,
            Scale::G5 => 0x0037,
            Scale::GS5 => 0x0038,
            Scale::A5 => 0x0039,
            Scale::AS5 => 0x003A,
            Scale::B5 => 0x003B,
            Scale::C6 => 0x003C,
            Scale::CS6 => 0x003D,
            Scale::D6 => 0x003E,
            Scale::DS6 => 0x003F,
            Scale::E6 => 0x0040,
            Scale::F6 => 0x0041,
            Scale::FS6 => 0x0042,
            Scale::G6 => 0x0043,
            Scale::GS6 => 0x0044,
            Scale::A6 => 0x0045,
            Scale::AS6 => 0x0046,
            Scale::B6 => 0x0047,
            Scale::C7 => 0x0048,
            Scale::CS7 => 0x0049,
            Scale::D7 => 0x004A,
            Scale::DS7 => 0x004B,
            Scale::E7 => 0x004C,
            Scale::F7 => 0x004D,
            Scale::FS7 => 0x004E,
            Scale::G7 => 0x004F,
            Scale::GS7 => 0x0050,
            Scale::A7 => 0x0051,
            Scale::AS7 => 0x0052,
            Scale::B7 => 0x0053,
            Scale::C8 => 0x0054,
            Scale::CS8 => 0x0055,
            Scale::D8 => 0x0056,
            Scale::DS8 => 0x0057,
            Scale::E8 => 0x0058,
            Scale::F8 => 0x0059,
            Scale::FS8 => 0x005A,
            Scale::G8 => 0x005B,
            Scale::GS8 => 0x005C,
            Scale::A8 => 0x005D,
            Scale::AS8 => 0x005E,
            Scale::B8 => 0x005F,
            Scale::Mute => 0x00EE,
            Scale::Fin => 0x00FF,
        }
    }

    /// Encoding a variant and decoding the code gives the variant back.
    pub proof fn lemma_code_roundtrip(self)
        ensures
            Scale::spec_from_u16(self.code()) == self,
    {
    }
}

#[derive(Clone, Copy, Debug, PartialEq, Eq, Structural)]
pub struct Melody {
    pub melody: u8,
    pub repeat: u8,
}

impl Melody {
    pub fn new() -> (r: Melody)
        ensures
            r.melody == 0,
            r.repeat == 0,
    {
        Melody {
            melody: 0,
            repeat: 0,
        }
    }

    /// Exact on-wire size of the payload.
    pub open spec fn spec_size() -> usize {
        2
    }

    pub fn size() -> (r: usize)
        ensures
            r == Melody::spec_size(),
    {
        2
    }

    /// The bytes this value puts on the wire.
    pub open spec fn wire(self) -> Seq<u8> {
        seq![self.melody] + seq![self.repeat]
    }

    /// Whether `self` is exactly what the payload bytes `s` decode to.
    pub open spec fn decoded(self, s: Seq<u8>) -> bool {
        self == Melody::decode(s)
    }

    /// The value a `spec_size()`-byte payload decodes to.
    pub open spec fn decode(s: Seq<u8>) -> Melody {
        Melody {
            melody: s[0],
            repeat: s[1],
        }
    }

    pub fn parse(slice_data: &[u8]) -> (r: Result<Melody, &'static str>)
        ensures
            slice_data@.len() == Melody::spec_size() ==> (r matches Ok(v) && v == Melody::decode(
                slice_data@,
            )),
            slice_data@.len() != Melody::spec_size() ==> (r matches Err(_)),
    {
        if slice_data.len() == Melody::size() {
            let mut ext: Extractor = Extractor::from_slice(slice_data);
            let melody = ext.get_u8();
            let repeat = ext.get_u8();
            Ok(Melody { melody, repeat })
        } else {
            Err("Wrong length")
        }
    }

}

impl Melody {
    pub fn to_vec(&self) -> (r: Vec<u8>)
        ensures
            r@ == self.wire(),
            r@.len() == Melody::spec_size(),
    {
        let mut vec_data: Vec<u8> = Vec::new();
        add_u8(&mut vec_data, self.melody);
        add_u8(&mut vec_data, self.repeat);
        proof {
            self.lemma_wire_len();
            assert(vec_data@ =~= self.wire());
        }
        vec_data
    }

    pub proof fn lemma_wire_len(self)
        ensures
            self.wire().len() == Melody::spec_size(),
    {
    }

    /// Decoding the wire image of a value gives the value back.
    pub proof fn lemma_wire_roundtrip(self)
        ensures
            self.wire().len() == Melody::spec_size(),
            Melody::decode(self.wire()) == self,
    {
        assert(self.wire()[0] == seq![self.melody][0]);
        assert(self.wire()[1] == seq![self.repeat][0]);
    }
}

#[derive(Clone, Copy, Debug, PartialEq, Eq, Structural)]
pub struct BuzzerScale {
    pub mode: Mode,
    pub scale: Scale,
    pub time: u16,
}

impl BuzzerScale {
    pub fn new() -> (r: BuzzerScale)
        ensures
            r.mode == Mode::ScaleInstantly,
            r.scale == Scale::C5,
            r.time == 0,
    {
        BuzzerScale {
            mode: Mode::ScaleInstantly,
            scale: Scale::C5,
            time: 0,
        }
    }

    /// Exact on-wire size of the payload.
    pub open spec fn spec_size() -> usize {
        5
    }

    pub fn size() -> (r: usize)
        ensures
            r == BuzzerScale::spec_size(),
    {
        5
    }

    /// The bytes this value puts on the wire.
    pub open spec fn wire(self) -> Seq<u8> {
        seq![self.mode.code()] + spec_u16_to_le_bytes(self.scale.code()) + spec_u16_to_le_bytes(self.time)
    }

    /// Whether `self` is exactly what the payload bytes `s` decode to.
    pub open spec fn decoded(self, s: Seq<u8>) -> bool {
        self == BuzzerScale::decode(s)
    }

    /// The value a `spec_size()`-byte payload decodes to.
    pub open spec fn decode(s: Seq<u8>) -> BuzzerScale {
        BuzzerScale {
            mode: Mode::spec_from_u8(s[0]),
            scale: Scale::spec_from_u16(spec_u16_from_le_bytes(s.subrange(1, 3))),
            time: spec_u16_from_le_bytes(s.subrange(3, 5)),
        }
    }

    pub fn parse(slice_data: &[u8]) -> (r: Result<BuzzerScale, &'static str>)
        ensures
            slice_data@.len() == BuzzerScale::spec_size() ==> (r matches Ok(v) && v == BuzzerScale::decode(
                slice_data@,
            )),
            slice_data@.len() != BuzzerScale::spec_size() ==> (r matches Err(_)),
    {
        if slice_data.len() == BuzzerScale::size() {
            let mut ext: Extractor = Extractor::from_slice(slice_data);
            let mode = Mode::from_u8(ext.get_u8());
            let scale = Scale::from_u16(ext.get_u16());
            let time = ext.get_u16();
            Ok(BuzzerScale { mode, scale, time })
        } else {
            Err("Wrong length")
        }
    }

}

impl BuzzerScale {
    pub fn to_vec(&self) -> (r: Vec<u8>)
        ensures
            r@ == self.wire(),
            r@.len() == BuzzerScale::spec_size(),
    {
        let mut vec_data: Vec<u8> = Vec::new();
        add_u8(&mut vec_data, self.mode.to_u8());
        add_u16(&mut vec_data, self.scale.to_u16());
        add_u16(&mut vec_data, self.time);
        proof {
            self.lemma_wire_len();
            assert(vec_data@ =~= self.wire());
        }
        vec_data
    }

    pub proof fn lemma_wire_len(self)
        ensures
            self.wire().len() == BuzzerScale::spec_size(),
    {
        lemma_u16_le_bytes_roundtrip(self.scale.code());
        lemma_u16_le_bytes_roundtrip(self.time);
    }

    /// Decoding the wire image of a value gives the value back.
    pub proof fn lemma_wire_roundtrip(self)
        ensures
            self.wire().len() == BuzzerScale::spec_size(),
            BuzzerScale::decode(self.wire()) == self,
    {
        self.mode.lemma_code_roundtrip();
        lemma_u16_le_bytes_roundtrip(self.scale.code());
        self.scale.lemma_code_roundtrip();
        lemma_u16_le_bytes_roundtrip(self.time);
        assert(self.wire()[0] == seq![self.mode.code()][0]);
        assert(self.wire().subrange(1, 3) =~= spec_u16_to_le_bytes(self.scale.code()));
        assert(self.wire().subrange(3, 5) =~= spec_u16_to_le_bytes(self.time));
    }
}

#[derive(Clone, Copy, Debug, PartialEq, Eq, Structural)]
pub struct BuzzerHz {
    pub mode: Mode,
    pub hz: u16,
    pub time: u16,
}

impl BuzzerHz {
    pub fn new() -> (r: BuzzerHz)
        ensures
            r.mode == Mode::HzInstantly,
            r.hz == 0,
            r.time == 0,
    {
        BuzzerHz {
            mode: Mode::HzInstantly,
            hz: 0,
            time: 0,
        }
    }

    /// Exact on-wire size of the payload.
    pub open spec fn spec_size() -> usize {
        5
    }

    pub fn size() -> (r: usize)
        ensures
            r == BuzzerHz::spec_size(),
    {
        5
    }

    /// The bytes this value puts on the wire.
    pub open spec fn wire(self) -> Seq<u8> {
        seq![self.mode.code()] + spec_u16_to_le_bytes(self.hz) + spec_u16_to_le_bytes(self.time)
    }

    /// Whether `self` is exactly what the payload bytes `s` decode to.
    pub open spec fn decoded(self, s: Seq<u8>) -> bool {
        self == BuzzerHz::decode(s)
    }

    /// The value a `spec_size()`-byte payload decodes to.
    pub open spec fn decode(s: Seq<u8>) -> BuzzerHz {
        BuzzerHz {
            mode: Mode::spec_from_u8(s[0]),
            hz: spec_u16_from_le_bytes(s.subrange(1, 3)),
            time: spec_u16_from_le_bytes(s.subrange(3, 5)),
        }
    }

    pub fn parse(slice_data: &[u8]) -> (r: Result<BuzzerHz, &'static str>)
        ensures
            slice_data@.len() == BuzzerHz::spec_size() ==> (r matches Ok(v) && v == BuzzerHz::decode(
                slice_data@,
            )),
            slice_data@.len() != BuzzerHz::spec_size() ==> (r matches Err(_)),
    {
        if slice_data.len() == BuzzerHz::size() {
            let mut ext: Extractor = Extractor::from_slice(slice_data);
            let mode = Mode::from_u8(ext.get_u8());
            let hz = ext.get_u16();
            let time = ext.get_u16();
            Ok(BuzzerHz { mode, hz, time })
        } else {
            Err("Wrong length")
        }
    }

}

impl BuzzerHz {
    pub fn to_vec(&self) -> (r: Vec<u8>)
        ensures
            r@ == self.wire(),
            r@.len() == BuzzerHz::spec_size(),
    {
        let mut vec_data: Vec<u8> = Vec::new();
        add_u8(&mut vec_data, self.mode.to_u8());
        add_u16(&mut vec_data, self.hz);
        add_u16(&mut vec_data, self.time);
        proof {
            self.lemma_wire_len();
            assert(vec_data@ =~= self.wire());
        }
        vec_data
    }

    pub proof fn lemma_wire_len(self)
        ensures
            self.wire().len() == BuzzerHz::spec_size(),
    {
        lemma_u16_le_bytes_roundtrip(self.hz);
        lemma_u16_le_bytes_roundtrip(self.time);
    }

    /// Decoding the wire image of a value gives the value back.
    pub proof fn lemma_wire_roundtrip(self)
        ensures
            self.wire().len() == BuzzerHz::spec_size(),
            BuzzerHz::decode(self.wire()) == self,
    {
        self.mode.lemma_code_roundtrip();
        lemma_u16_le_bytes_roundtrip(self.hz);
        lemma_u16_le_bytes_roundtrip(self.time);
        assert(self.wire()[0] == seq![self.mode.code()][0]);
        assert(self.wire().subrange(1, 3) =~= spec_u16_to_le_bytes(self.hz));
        assert(self.wire().subrange(3, 5) =~= spec_u16_to_le_bytes(self.time));
    }
}

} // verus!
