//! Card-reading payloads of the coding-car family: color classification
//! tables, raw color samples, recognized colors and card lists.

use crate::communication::extractor::Extractor;
use crate::communication::serializer::{add_i16_slice, add_i8, add_i8_slice, add_slice, add_u8};
use crate::wire::{lemma_i16s_le_bytes_roundtrip, lemma_i8_byte_roundtrip,
    lemma_i8s_bytes_roundtrip, spec_i16s_from_le_bytes, spec_i16s_to_le_bytes,
    spec_i8_from_byte, spec_i8_to_byte, spec_i8s_from_bytes, spec_i8s_to_bytes};
use vstd::prelude::*;
use vstd::slice::{slice_subrange, slice_to_vec};

verus! {


#[derive(Clone, Copy, Debug, PartialEq, Eq, Structural)]
pub enum LightLocation {
    Front,
    Rear,
}

impl LightLocation {
    /// The wire code of the variant.
    pub open spec fn code(self) -> u8 {
        match self {
            LightLocation::Front => 0x00,
            LightLocation::Rear => 0x01,
        }
    }

    /// Total decoding: an unknown code falls back to `LightLocation::Front`.
    pub open spec fn spec_from_u8(code: u8) -> LightLocation {
        if code == 0x00 {
            LightLocation::Front
        } else if code == 0x01 {
            LightLocation::Rear
        } else {
            LightLocation::Front
        }
    }

    /// Whether the code denotes a variant of its own.
    pub open spec fn spec_is_defined(code: u8) -> bool {
        LightLocation::spec_from_u8(code).code() == code
    }

    pub fn from_u8(data_u8: u8) -> (r: LightLocation)
        ensures
            r == LightLocation::spec_from_u8(data_u8),
    {
        if data_u8 == 0x00 {
            LightLocation::Front
        } else if data_u8 == 0x01 {
            LightLocation::Rear
        } else {
            LightLocation::Front
        }
    }

    pub fn to_u8(self) -> (r: u8)
        ensures
            r == self.code(),
    {
        match self {
            LightLocation::Front => 0x00,
            LightLocation::Rear => 0x01,
        }
    }

    /// Encoding a variant and decoding the code gives the variant back.
    pub proof fn lemma_code_roundtrip(self)
        ensures
            LightLocation::spec_from_u8(self.code()) == self,
    {
    }
}

#[derive(Clone, Copy, Debug, PartialEq, Eq, Structural)]
pub enum LightColor {
    Red,
    Green,
    Blue,
}

impl LightColor {
    /// The wire code of the variant.
    pub open spec fn code(self) -> u8 {
        match self {
            LightColor::Red => 0x00,
            LightColor::Green => 0x01,
            LightColor::Blue => 0x02,
        }
    }

    /// Total decoding: an unknown code falls back to `LightColor::Red`.
    pub open spec fn spec_from_u8(code: u8) -> LightColor {
        if code == 0x00 {
            LightColor::Red
        } else if code == 0x01 {
            LightColor::Green
        } else if code == 0x02 {
            LightColor::Blue
        } else {
            LightColor::Red
        }
    }

    /// Whether the code denotes a variant of its own.
    pub open spec fn spec_is_defined(code: u8) -> bool {
        LightColor::spec_from_u8(code).code() == code
    }

    pub fn from_u8(data_u8: u8) -> (r: LightColor)
        ensures
            r == LightColor::spec_from_u8(data_u8),
    {
        if data_u8 == 0x00 {
            LightColor::Red
        } else if data_u8 == 0x01 {
            LightColor::Green
        } else if data_u8 == 0x02 {
            LightColor::Blue
        } else {
            LightColor::Red
        }
    }

    pub fn to_u8(self) -> (r: u8)
        ensures
            r == self.code(),
    {
        match self {
            LightColor::Red => 0x00,
            LightColor::Green => 0x01,
            LightColor::Blue => 0x02,
        }
    }

    /// Encoding a variant and decoding the code gives the variant back.
    pub proof fn lemma_code_roundtrip(self)
        ensures
            LightColor::spec_from_u8(self.code()) == self,
    {
    }
}

#[derive(Clone, Copy, Debug, PartialEq, Eq, Structural)]
pub enum CardNameColor {
    Nil,
    WhiteWhite,
    WhiteRed,
    WhiteYellow,
    WhiteGreen,
    WhiteCyan,
    WhiteBlue,
    WhiteMagenta,
    WhiteBlack,
    RedWhite,
    RedRed,
    RedYellow,
    RedGreen,
    RedCyan,
    RedBlue,
    RedMagenta,
    RedBlack,
    YellowWhite,
    YellowRed,
    YellowYellow,
    YellowGreen,
    YellowCyan,
    YellowBlue,
    YellowMagenta,
    YellowBlack,
    GreenWhite,
    GreenRed,
    GreenYellow,
    GreenGreen,
    GreenCyan,
    GreenBlue,
    GreenMagenta,
    GreenBlack,
    CyanWhite,
    CyanRed,
    CyanYellow,
    CyanGreen,
    CyanCyan,
    CyanBlue,
    CyanMagenta,
    CyanBlack,
    BlueWhite,
    BlueRed,
    BlueYellow,
    BlueGreen,
    BlueCyan,
    BlueBlue,
    BlueMagenta,
    BlueBlack,
    MagentaWhite,
    MagentaRed,
    MagentaYellow,
    MagentaGreen,
    MagentaCyan,
    MagentaBlue,
    MagentaMagenta,
    MagentaBlack,
    BlackWhite,
    BlackRed,
    BlackYellow,
    BlackGreen,
    BlackCyan,
    BlackBlue,
    BlackMagenta,
    BlackBlack,
    EndOfType,
}

impl CardNameColor {
    /// The wire code of the variant.
    pub open spec fn code(self) -> u8 {
        match self {
            CardNameColor::Nil => 0x00,
            CardNameColor::WhiteWhite => 0x11,
            CardNameColor::WhiteRed => 0x12,
            CardNameColor::WhiteYellow => 0x13,
            CardNameColor::WhiteGreen => 0x14,
            CardNameColor::WhiteCyan => 0x15,
            CardNameColor::WhiteBlue => 0x16,
            CardNameColor::WhiteMagenta => 0x17,
            CardNameColor::WhiteBlack => 0x18,
            CardNameColor::RedWhite => 0x21,
            CardNameColor::RedRed => 0x22,
            CardNameColor::RedYellow => 0x23,
            CardNameColor::RedGreen => 0x24,
            CardNameColor::RedCyan => 0x25,
            CardNameColor::RedBlue => 0x26,
            CardNameColor::RedMagenta => 0x27,
            CardNameColor::RedBlack => 0x28,
            CardNameColor::YellowWhite => 0x31,
            CardNameColor::YellowRed => 0x32,
            CardNameColor::YellowYellow => 0x33,
            CardNameColor::YellowGreen => 0x34,
            CardNameColor::YellowCyan => 0x35,
            CardNameColor::YellowBlue => 0x36,
            CardNameColor::YellowMagenta => 0x37,
            CardNameColor::YellowBlack => 0x38,
            CardNameColor::GreenWhite => 0x41,
            CardNameColor::GreenRed => 0x42,
            CardNameColor::GreenYellow => 0x43,
            CardNameColor::GreenGreen => 0x44,
            CardNameColor::GreenCyan => 0x45,
            CardNameColor::GreenBlue => 0x46,
            CardNameColor::GreenMagenta => 0x47,
            CardNameColor::GreenBlack => 0x48,
            CardNameColor::CyanWhite => 0x51,
            CardNameColor::CyanRed => 0x52,
            CardNameColor::CyanYellow => 0x53,
            CardNameColor::CyanGreen => 0x54,
            CardNameColor::CyanCyan => 0x55,
            CardNameColor::CyanBlue => 0x56,
            CardNameColor::CyanMagenta => 0x57,
            CardNameColor::CyanBlack => 0x58,
            CardNameColor::BlueWhite => 0x61,
            CardNameColor::BlueRed => 0x62,
            CardNameColor::BlueYellow => 0x63,
            CardNameColor::BlueGreen => 0x64,
            CardNameColor::BlueCyan => 0x65,
            CardNameColor::BlueBlue => 0x66,
            CardNameColor::BlueMagenta => 0x67,
            CardNameColor::BlueBlack => 0x68,
            CardNameColor::MagentaWhite => 0x71,
            CardNameColor::MagentaRed => 0x72,
            CardNameColor::MagentaYellow => 0x73,
            CardNameColor::MagentaGreen => 0x74,
            CardNameColor::MagentaCyan => 0x75,
            CardNameColor::MagentaBlue => 0x76,
            CardNameColor::MagentaMagenta => 0x77,
            CardNameColor::MagentaBlack => 0x78,
            CardNameColor::BlackWhite => 0x81,
            CardNameColor::BlackRed => 0x82,
            CardNameColor::BlackYellow => 0x83,
            CardNameColor::BlackGreen => 0x84,
            CardNameColor::BlackCyan => 0x85,
            CardNameColor::BlackBlue => 0x86,
            CardNameColor::BlackMagenta => 0x87,
            CardNameColor::BlackBlack => 0x88,
            CardNameColor::EndOfType => 0x89,
        }
    }

    /// Total decoding: an unknown code falls back to `CardNameColor::Nil`.
    pub open spec fn spec_from_u8(code: u8) -> CardNameColor {
        if code == 0x00 {
            CardNameColor::Nil
        } else if code == 0x11 {
            CardNameColor::WhiteWhite
        } else if code == 0x12 {
            CardNameColor::WhiteRed
        } else if code == 0x13 {
            CardNameColor::WhiteYellow
        } else if code == 0x14 {
            CardNameColor::WhiteGreen
        } else if code == 0x15 {
            CardNameColor::WhiteCyan
        } else if code == 0x16 {
            CardNameColor::WhiteBlue
        } else if code == 0x17 {
            CardNameColor::WhiteMagenta
        } else if code == 0x18 {
            CardNameColor::WhiteBlack
        } else if code == 0x21 {
            CardNameColor::RedWhite
        } else if code == 0x22 {
            CardNameColor::RedRed
        } else if code == 0x23 {
            CardNameColor::RedYellow
        } else if code == 0x24 {
            CardNameColor::RedGreen
        } else if code == 0x25 {
            CardNameColor::RedCyan
        } else if code == 0x26 {
            CardNameColor::RedBlue
        } else if code == 0x27 {
            CardNameColor::RedMagenta
        } else if code == 0x28 {
            CardNameColor::RedBlack
        } else if code == 0x31 {
            CardNameColor::YellowWhite
        } else if code == 0x32 {
            CardNameColor::YellowRed
        } else if code == 0x33 {
            CardNameColor::YellowYellow
        } else if code == 0x34 {
            CardNameColor::YellowGreen
        } else if code == 0x35 {
            CardNameColor::YellowCyan
        } else if code == 0x36 {
            CardNameColor::YellowBlue
        } else if code == 0x37 {
            CardNameColor::YellowMagenta
        } else if code == 0x38 {
            CardNameColor::YellowBlack
        } else if code == 0x41 {
            CardNameColor::GreenWhite
        } else if code == 0x42 {
            CardNameColor::GreenRed
        } else if code == 0x43 {
            CardNameColor::GreenYellow
        } else if code == 0x44 {
            CardNameColor::GreenGreen
        } else if code == 0x45 {
            CardNameColor::GreenCyan
        } else if code == 0x46 {
            CardNameColor::GreenBlue
        } else if code == 0x47 {
            CardNameColor::GreenMagenta
        } else if code == 0x48 {
            CardNameColor::GreenBlack
        } else if code == 0x51 {
            CardNameColor::CyanWhite
        } else if code == 0x52 {
            CardNameColor::CyanRed
        } else if code == 0x53 {
            CardNameColor::CyanYellow
        } else if code == 0x54 {
            CardNameColor::CyanGreen
        } else if code == 0x55 {
            CardNameColor::CyanCyan
        } else if code == 0x56 {
            CardNameColor::CyanBlue
        } else if code == 0x57 {
            CardNameColor::CyanMagenta
        } else if code == 0x58 {
            CardNameColor::CyanBlack
        } else if code == 0x61 {
            CardNameColor::BlueWhite
        } else if code == 0x62 {
            CardNameColor::BlueRed
        } else if code == 0x63 {
            CardNameColor::BlueYellow
        } else if code == 0x64 {
            CardNameColor::BlueGreen
        } else if code == 0x65 {
            CardNameColor::BlueCyan
        } else if code == 0x66 {
            CardNameColor::BlueBlue
        } else if code == 0x67 {
            CardNameColor::BlueMagenta
        } else if code == 0x68 {
            CardNameColor::BlueBlack
        } else if code == 0x71 {
            CardNameColor::MagentaWhite
        } else if code == 0x72 {
            CardNameColor::MagentaRed
        } else if code == 0x73 {
            CardNameColor::MagentaYellow
        } else if code == 0x74 {
            CardNameColor::MagentaGreen
        } else if code == 0x75 {
            CardNameColor::MagentaCyan
        } else if code == 0x76 {
            CardNameColor::MagentaBlue
        } else if code == 0x77 {
            CardNameColor::MagentaMagenta
        } else if code == 0x78 {
            CardNameColor::MagentaBlack
        } else if code == 0x81 {
            CardNameColor::BlackWhite
        } else if code == 0x82 {
            CardNameColor::BlackRed
        } else if code == 0x83 {
            CardNameColor::BlackYellow
        } else if code == 0x84 {
            CardNameColor::BlackGreen
        } else if code == 0x85 {
            CardNameColor::BlackCyan
        } else if code == 0x86 {
            CardNameColor::BlackBlue
        } else if code == 0x87 {
            CardNameColor::BlackMagenta
        } else if code == 0x88 {
            CardNameColor::BlackBlack
        } else if code == 0x89 {
            CardNameColor::EndOfType
        } else {
            CardNameColor::Nil
        }
    }

    /// Whether the code denotes a variant of its own.
    pub open spec fn spec_is_defined(code: u8) -> bool {
        CardNameColor::spec_from_u8(code).code() == code
    }

    pub fn from_u8(data_u8: u8) -> (r: CardNameColor)
        ensures
            r == CardNameColor::spec_from_u8(data_u8),
    {
        if data_u8 == 0x00 {
            CardNameColor::Nil
        } else if data_u8 == 0x11 {
            CardNameColor::WhiteWhite
        } else if data_u8 == 0x12 {
            CardNameColor::WhiteRed
        } else if data_u8 == 0x13 {
            CardNameColor::WhiteYellow
        } else if data_u8 == 0x14 {
            CardNameColor::WhiteGreen
        } else if data_u8 == 0x15 {
            CardNameColor::WhiteCyan
        } else if data_u8 == 0x16 {
            CardNameColor::WhiteBlue
        } else if data_u8 == 0x17 {
            CardNameColor::WhiteMagenta
        } else if data_u8 == 0x18 {
            CardNameColor::WhiteBlack
        } else if data_u8 == 0x21 {
            CardNameColor::RedWhite
        } else if data_u8 == 0x22 {
            CardNameColor::RedRed
        } else if data_u8 == 0x23 {
            CardNameColor::RedYellow
        } else if data_u8 == 0x24 {
            CardNameColor::RedGreen
        } else if data_u8 == 0x25 {
            CardNameColor::RedCyan
        } else if data_u8 == 0x26 {
            CardNameColor::RedBlue
        } else if data_u8 == 0x27 {
            CardNameColor::RedMagenta
        } else if data_u8 == 0x28 {
            CardNameColor::RedBlack
        } else if data_u8 == 0x31 {
            CardNameColor::YellowWhite
        } else if data_u8 == 0x32 {
            CardNameColor::YellowRed
        } else if data_u8 == 0x33 {
            CardNameColor::YellowYellow
        } else if data_u8 == 0x34 {
            CardNameColor::YellowGreen
        } else if data_u8 == 0x35 {
            CardNameColor::YellowCyan
        } else if data_u8 == 0x36 {
            CardNameColor::YellowBlue
        } else if data_u8 == 0x37 {
            CardNameColor::YellowMagenta
        } else if data_u8 == 0x38 {
            CardNameColor::YellowBlack
        } else if data_u8 == 0x41 {
            CardNameColor::GreenWhite
        } else if data_u8 == 0x42 {
            CardNameColor::GreenRed
        } else if data_u8 == 0x43 {
            CardNameColor::GreenYellow
        } else if data_u8 == 0x44 {
            CardNameColor::GreenGreen
        } else if data_u8 == 0x45 {
            CardNameColor::GreenCyan
        } else if data_u8 == 0x46 {
            CardNameColor::GreenBlue
        } else if data_u8 == 0x47 {
            CardNameColor::GreenMagenta
        } else if data_u8 == 0x48 {
            CardNameColor::GreenBlack
        } else if data_u8 == 0x51 {
            CardNameColor::CyanWhite
        } else if data_u8 == 0x52 {
            CardNameColor::CyanRed
        } else if data_u8 == 0x53 {
            CardNameColor::CyanYellow
        } else if data_u8 == 0x54 {
            CardNameColor::CyanGreen
        } else if data_u8 == 0x55 {
            CardNameColor::CyanCyan
        } else if data_u8 == 0x56 {
            CardNameColor::CyanBlue
        } else if data_u8 == 0x57 {
            CardNameColor::CyanMagenta
        } else if data_u8 == 0x58 {
            CardNameColor::CyanBlack
        } else if data_u8 == 0x61 {
            CardNameColor::BlueWhite
        } else if data_u8 == 0x62 {
            CardNameColor::BlueRed
        } else if data_u8 == 0x63 {
            CardNameColor::BlueYellow
        } else if data_u8 == 0x64 {
            CardNameColor::BlueGreen
        } else if data_u8 == 0x65 {
            CardNameColor::BlueCyan
        } else if data_u8 == 0x66 {
            CardNameColor::BlueBlue
        } else if data_u8 == 0x67 {
            CardNameColor::BlueMagenta
        } else if data_u8 == 0x68 {
            CardNameColor::BlueBlack
        } else if data_u8 == 0x71 {
            CardNameColor::MagentaWhite
        } else if data_u8 == 0x72 {
            CardNameColor::MagentaRed
        } else if data_u8 == 0x73 {
            CardNameColor::MagentaYellow
        } else if data_u8 == 0x74 {
            CardNameColor::MagentaGreen
        } else if data_u8 == 0x75 {
            CardNameColor::MagentaCyan
        } else if data_u8 == 0x76 {
            CardNameColor::MagentaBlue
        } else if data_u8 == 0x77 {
            CardNameColor::MagentaMagenta
        } else if data_u8 == 0x78 {
            CardNameColor::MagentaBlack
        } else if data_u8 == 0x81 {
            CardNameColor::BlackWhite
        } else if data_u8 == 0x82 {
            CardNameColor::BlackRed
        } else if data_u8 == 0x83 {
            CardNameColor::BlackYellow
        } else if data_u8 == 0x84 {
            CardNameColor::BlackGreen
        } else if data_u8 == 0x85 {
            CardNameColor::BlackCyan
        } else if data_u8 == 0x86 {
            CardNameColor::BlackBlue
        } else if data_u8 == 0x87 {
            CardNameColor::BlackMagenta
        } else if data_u8 == 0x88 {
            CardNameColor::BlackBlack
        } else if data_u8 == 0x89 {
            CardNameColor::EndOfType
        } else {
            CardNameColor::Nil
        }
    }

    pub fn to_u8(self) -> (r: u8)
        ensures
            r == self.code(),
    {
        match self {
            CardNameColor::Nil => 0x00,
            CardNameColor::WhiteWhite => 0x11,
            CardNameColor::WhiteRed => 0x12,
            CardNameColor::WhiteYellow => 0x13,
            CardNameColor::WhiteGreen => 0x14,
            CardNameColor::WhiteCyan => 0x15,
            CardNameColor::WhiteBlue => 0x16,
            CardNameColor::WhiteMagenta => 0x17,
            CardNameColor::WhiteBlack => 0x18,
            CardNameColor::RedWhite => 0x21,
            CardNameColor::RedRed => 0x22,
            CardNameColor::RedYellow => 0x23,
            CardNameColor::RedGreen => 0x24,
            CardNameColor::RedCyan => 0x25,
            CardNameColor::RedBlue => 0x26,
            CardNameColor::RedMagenta => 0x27,
            CardNameColor::RedBlack => 0x28,
            CardNameColor::YellowWhite => 0x31,
            CardNameColor::YellowRed => 0x32,
            CardNameColor::YellowYellow => 0x33,
            CardNameColor::YellowGreen => 0x34,
            CardNameColor::YellowCyan => 0x35,
            CardNameColor::YellowBlue => 0x36,
            CardNameColor::YellowMagenta => 0x37,
            CardNameColor::YellowBlack => 0x38,
            CardNameColor::GreenWhite => 0x41,
            CardNameColor::GreenRed => 0x42,
            CardNameColor::GreenYellow => 0x43,
            CardNameColor::GreenGreen => 0x44,
            CardNameColor::GreenCyan => 0x45,
            CardNameColor::GreenBlue => 0x46,
            CardNameColor::GreenMagenta => 0x47,
            CardNameColor::GreenBlack => 0x48,
            CardNameColor::CyanWhite => 0x51,
            CardNameColor::CyanRed => 0x52,
            CardNameColor::CyanYellow => 0x53,
            CardNameColor::CyanGreen => 0x54,
            CardNameColor::CyanCyan => 0x55,
            CardNameColor::CyanBlue => 0x56,
            CardNameColor::CyanMagenta => 0x57,
            CardNameColor::CyanBlack => 0x58,
            CardNameColor::BlueWhite => 0x61,
            CardNameColor::BlueRed => 0x62,
            CardNameColor::BlueYellow => 0x63,
            CardNameColor::BlueGreen => 0x64,
            CardNameColor::BlueCyan => 0x65,
            CardNameColor::BlueBlue => 0x66,
            CardNameColor::BlueMagenta => 0x67,
            CardNameColor::BlueBlack => 0x68,
            CardNameColor::MagentaWhite => 0x71,
            CardNameColor::MagentaRed => 0x72,
            CardNameColor::MagentaYellow => 0x73,
            CardNameColor::MagentaGreen => 0x74,
            CardNameColor::MagentaCyan => 0x75,
            CardNameColor::MagentaBlue => 0x76,
            CardNameColor::MagentaMagenta => 0x77,
            CardNameColor::MagentaBlack => 0x78,
            CardNameColor::BlackWhite => 0x81,
            CardNameColor::BlackRed => 0x82,
            CardNameColor::BlackYellow => 0x83,
            CardNameColor::BlackGreen => 0x84,
            CardNameColor::BlackCyan => 0x85,
            CardNameColor::BlackBlue => 0x86,
            CardNameColor::BlackMagenta => 0x87,
            CardNameColor::BlackBlack => 0x88,
            CardNameColor::EndOfType => 0x89,
        }
    }

    /// Encoding a variant and decoding the code gives the variant back.
    pub proof fn lemma_code_roundtrip(self)
        ensures
            CardNameColor::spec_from_u8(self.code()) == self,
    {
    }
}

#[derive(Clone, Copy, Debug, PartialEq, Eq, Structural)]
pub enum CardNamePiano {
    Nil,
    RecordingStart,
    RecordingEnd,
    Melody1,
    Melody2,
    Melody3,
    Play,
    MuteShort,
    Mute,
    CS3,
    DS3,
    FS3,
    GS3,
    AS3,
    C3,
    D3,
    E3,
    F3,
    G3,
    A3,
    B3,
    CS4,
    DS4,
    FS4,
    GS4,
    AS4,
    C4,
    D4,
    E4,
    F4,
    G4,
    A4,
    B4,
    CS5,
    DS5,
    FS5,
    GS5,
    AS5,
    C5,
    D5,
    E5,
    F5,
    G5,
    A5,
    B5,
    EndOfType,
}

impl CardNamePiano {
    /// The wire code of the variant.
    pub open spec fn code(self) -> u8 {
        match self {
            CardNamePiano::Nil => 0x00,
            CardNamePiano::RecordingStart => 0x21,
            CardNamePiano::RecordingEnd => 0x22,
            CardNamePiano::Melody1 => 0x23,
            CardNamePiano::Melody2 => 0x24,
            CardNamePiano::Melody3 => 0x25,
            CardNamePiano::Play => 0x26,
            CardNamePiano::MuteShort => 0x27,
            CardNamePiano::Mute => 0x28,
            CardNamePiano::CS3 => 0x31,
            CardNamePiano::DS3 => 0x32,
            CardNamePiano::FS3 => 0x34,
            CardNamePiano::GS3 => 0x35,
            CardNamePiano::AS3 => 0x36,
            CardNamePiano::C3 => 0x41,
            CardNamePiano::D3 => 0x42,
            CardNamePiano::E3 => 0x43,
            CardNamePiano::F3 => 0x44,
            CardNamePiano::G3 => 0x45,
            CardNamePiano::A3 => 0x46,
            CardNamePiano::B3 => 0x47,
            CardNamePiano::CS4 => 0x51,
            CardNamePiano::DS4 => 0x52,
            CardNamePiano::FS4 => 0x54,
            CardNamePiano::GS4 => 0x55,
            CardNamePiano::AS4 => 0x56,
            CardNamePiano::C4 => 0x61,
            CardNamePiano::D4 => 0x62,
            CardNamePiano::E4 => 0x63,
            CardNamePiano::F4 => 0x64,
            CardNamePiano::G4 => 0x65,
            CardNamePiano::A4 => 0x66,
            CardNamePiano::B4 => 0x67,
            CardNamePiano::CS5 => 0x71,
            CardNamePiano::DS5 => 0x72,
            CardNamePiano::FS5 => 0x74,
            CardNamePiano::GS5 => 0x75,
            CardNamePiano::AS5 => 0x76,
            CardNamePiano::C5 => 0x81,
            CardNamePiano::D5 => 0x82,
            CardNamePiano::E5 => 0x83,
            CardNamePiano::F5 => 0x84,
            CardNamePiano::G5 => 0x85,
            CardNamePiano::A5 => 0x86,
            CardNamePiano::B5 => 0x87,
            CardNamePiano::EndOfType => 0x88,
        }
    }

    /// Total decoding: an unknown code falls back to `CardNamePiano::Nil`.
    pub open spec fn spec_from_u8(code: u8) -> CardNamePiano {
        if code == 0x00 {
            CardNamePiano::Nil
        } else if code == 0x21 {
            CardNamePiano::RecordingStart
        } else if code == 0x22 {
            CardNamePiano::RecordingEnd
        } else if code == 0x23 {
            CardNamePiano::Melody1
        } else if code == 0x24 {
            CardNamePiano::Melody2
        } else if code == 0x25 {
            CardNamePiano::Melody3
        } else if code == 0x26 {
            CardNamePiano::Play
        } else if code == 0x27 {
            CardNamePiano::MuteShort
        } else if code == 0x28 {
            CardNamePiano::Mute
        } else if code == 0x31 {
            CardNamePiano::CS3
        } else if code == 0x32 {
            CardNamePiano::DS3
        } else if code == 0x34 {
            CardNamePiano::FS3
        } else if code == 0x35 {
            CardNamePiano::GS3
        } else if code == 0x36 {
            CardNamePiano::AS3
        } else if code == 0x41 {
            CardNamePiano::C3
        } else if code == 0x42 {
            CardNamePiano::D3
        } else if code == 0x43 {
            CardNamePiano::E3
        } else if code == 0x44 {
            CardNamePiano::F3
        } else if code == 0x45 {
            CardNamePiano::G3
        } else if code == 0x46 {
            CardNamePiano::A3
        } else if code == 0x47 {
            CardNamePiano::B3
        } else if code == 0x51 {
            CardNamePiano::CS4
        } else if code == 0x52 {
            CardNamePiano::DS4
        } else if code == 0x54 {
            CardNamePiano::FS4
        } else if code == 0x55 {
            CardNamePiano::GS4
        } else if code == 0x56 {
            CardNamePiano::AS4
        } else if code == 0x61 {
            CardNamePiano::C4
        } else if code == 0x62 {
            CardNamePiano::D4
        } else if code == 0x63 {
            CardNamePiano::E4
        } else if code == 0x64 {
            CardNamePiano::F4
        } else if code == 0x65 {
            CardNamePiano::G4
        } else if code == 0x66 {
            CardNamePiano::A4
        } else if code == 0x67 {
            CardNamePiano::B4
        } else if code == 0x71 {
            CardNamePiano::CS5
        } else if code == 0x72 {
            CardNamePiano::DS5
        } else if code == 0x74 {
            CardNamePiano::FS5
        } else if code == 0x75 {
            CardNamePiano::GS5
        } else if code == 0x76 {
            CardNamePiano::AS5
        } else if code == 0x81 {
            CardNamePiano::C5
        } else if code == 0x82 {
            CardNamePiano::D5
        } else if code == 0x83 {
            CardNamePiano::E5
        } else if code == 0x84 {
            CardNamePiano::F5
        } else if code == 0x85 {
            CardNamePiano::G5
        } else if code == 0x86 {
            CardNamePiano::A5
        } else if code == 0x87 {
            CardNamePiano::B5
        } else if code == 0x88 {
            CardNamePiano::EndOfType
        } else {
            CardNamePiano::Nil
        }
    }

    /// Whether the code denotes a variant of its own.
    pub open spec fn spec_is_defined(code: u8) -> bool {
        CardNamePiano::spec_from_u8(code).code() == code
    }

    pub fn from_u8(data_u8: u8) -> (r: CardNamePiano)
        ensures
            r == CardNamePiano::spec_from_u8(data_u8),
    {
        if data_u8 == 0x00 {
            CardNamePiano::Nil
        } else if data_u8 == 0x21 {
            CardNamePiano::RecordingStart
        } else if data_u8 == 0x22 {
            CardNamePiano::RecordingEnd
        } else if data_u8 == 0x23 {
            CardNamePiano::Melody1
        } else if data_u8 == 0x24 {
            CardNamePiano::Melody2
        } else if data_u8 == 0x25 {
            CardNamePiano::Melody3
        } else if data_u8 == 0x26 {
            CardNamePiano::Play
        } else if data_u8 == 0x27 {
            CardNamePiano::MuteShort
        } else if data_u8 == 0x28 {
            CardNamePiano::Mute
        } else if data_u8 == 0x31 {
            CardNamePiano::CS3
        } else if data_u8 == 0x32 {
            CardNamePiano::DS3
        } else if data_u8 == 0x34 {
            CardNamePiano::FS3
        } else if data_u8 == 0x35 {
            CardNamePiano::GS3
        } else if data_u8 == 0x36 {
            CardNamePiano::AS3
        } else if data_u8 == 0x41 {
            CardNamePiano::C3
        } else if data_u8 == 0x42 {
            CardNamePiano::D3
        } else if data_u8 == 0x43 {
            CardNamePiano::E3
        } else if data_u8 == 0x44 {
            CardNamePiano::F3
        } else if data_u8 == 0x45 {
            CardNamePiano::G3
        } else if data_u8 == 0x46 {
            CardNamePiano::A3
        } else if data_u8 == 0x47 {
            CardNamePiano::B3
        } else if data_u8 == 0x51 {
            CardNamePiano::CS4
        } else if data_u8 == 0x52 {
            CardNamePiano::DS4
        } else if data_u8 == 0x54 {
            CardNamePiano::FS4
        } else if data_u8 == 0x55 {
            CardNamePiano::GS4
        } else if data_u8 == 0x56 {
            CardNamePiano::AS4
        } else if data_u8 == 0x61 {
            CardNamePiano::C4
        } else if data_u8 == 0x62 {
            CardNamePiano::D4
        } else if data_u8 == 0x63 {
            CardNamePiano::E4
        } else if data_u8 == 0x64 {
            CardNamePiano::F4
        } else if data_u8 == 0x65 {
            CardNamePiano::G4
        } else if data_u8 == 0x66 {
            CardNamePiano::A4
        } else if data_u8 == 0x67 {
            CardNamePiano::B4
        } else if data_u8 == 0x71 {
            CardNamePiano::CS5
        } else if data_u8 == 0x72 {
            CardNamePiano::DS5
        } else if data_u8 == 0x74 {
            CardNamePiano::FS5
        } else if data_u8 == 0x75 {
            CardNamePiano::GS5
        } else if data_u8 == 0x76 {
            CardNamePiano::AS5
        } else if data_u8 == 0x81 {
            CardNamePiano::C5
        } else if data_u8 == 0x82 {
            CardNamePiano::D5
        } else if data_u8 == 0x83 {
            CardNamePiano::E5
        } else if data_u8 == 0x84 {
            CardNamePiano::F5
        } else if data_u8 == 0x85 {
            CardNamePiano::G5
        } else if data_u8 == 0x86 {
            CardNamePiano::A5
        } else if data_u8 == 0x87 {
            CardNamePiano::B5
        } else if data_u8 == 0x88 {
            CardNamePiano::EndOfType
        } else {
            CardNamePiano::Nil
        }
    }

    pub fn to_u8(self) -> (r: u8)
        ensures
            r == self.code(),
    {
        match self {
            CardNamePiano::Nil => 0x00,
            CardNamePiano::RecordingStart => 0x21,
            CardNamePiano::RecordingEnd => 0x22,
            CardNamePiano::Melody1 => 0x23,
            CardNamePiano::Melody2 => 0x24,
            CardNamePiano::Melody3 => 0x25,
            CardNamePiano::Play => 0x26,
            CardNamePiano::MuteShort => 0x27,
            CardNamePiano::Mute => 0x28,
            CardNamePiano::CS3 => 0x31,
            CardNamePiano::DS3 => 0x32,
            CardNamePiano::FS3 => 0x34,
            CardNamePiano::GS3 => 0x35,
            CardNamePiano::AS3 => 0x36,
            CardNamePiano::C3 => 0x41,
            CardNamePiano::D3 => 0x42,
            CardNamePiano::E3 => 0x43,
            CardNamePiano::F3 => 0x44,
            CardNamePiano::G3 => 0x45,
            CardNamePiano::A3 => 0x46,
            CardNamePiano::B3 => 0x47,
            CardNamePiano::CS4 => 0x51,
            CardNamePiano::DS4 => 0x52,
            CardNamePiano::FS4 => 0x54,
            CardNamePiano::GS4 => 0x55,
            CardNamePiano::AS4 => 0x56,
            CardNamePiano::C4 => 0x61,
            CardNamePiano::D4 => 0x62,
            CardNamePiano::E4 => 0x63,
            CardNamePiano::F4 => 0x64,
            CardNamePiano::G4 => 0x65,
            CardNamePiano::A4 => 0x66,
            CardNamePiano::B4 => 0x67,
            CardNamePiano::CS5 => 0x71,
            CardNamePiano::DS5 => 0x72,
            CardNamePiano::FS5 => 0x74,
            CardNamePiano::GS5 => 0x75,
            CardNamePiano::AS5 => 0x76,
            CardNamePiano::C5 => 0x81,
            CardNamePiano::D5 => 0x82,
            CardNamePiano::E5 => 0x83,
            CardNamePiano::F5 => 0x84,
            CardNamePiano::G5 => 0x85,
            CardNamePiano::A5 => 0x86,
            CardNamePiano::B5 => 0x87,
            CardNamePiano::EndOfType => 0x88,
        }
    }

    /// Encoding a variant and decoding the code gives the variant back.
    pub proof fn lemma_code_roundtrip(self)
        ensures
            CardNamePiano::spec_from_u8(self.code()) == self,
    {
    }
}

#[derive(Clone, Copy, Debug, PartialEq, Eq, Structural)]
pub enum CardNameCardCoding {
    Nil,
    CalibrationWhite,
    Card,
    Motion,
    Piano,
    CodingStart,
    CodingEnd,
    FunctionStart,
    FunctionEnd,
    FunctionCall,
    PlayMelody,
    Speed,
    Wait1Sec,
    LightBodyWhite,
    LightBodyRed,
    LightBodyYellow,
    LightBodyGreen,
    LightBodyCyan,
    LightBodyBlue,
    LightBodyMagenta,
    LightBodyBlack,
    Takeoff,
    Landing,
    Distance300,
    Distance500,
    Distance1000,
    Degree30,
    Degree45,
    Degree90,
    MoveForward,
    MoveBackward,
    MoveLeft,
    MoveRight,
    MoveUp,
    MoveDown,
    TurnLeft,
    TurnRight,
    IfFindFrontObstacle,
    IfFindGroundRed,
    IfFindGroundYellow,
    IfFindGroundGreen,
    IfFindGroundCyan,
    IfFindGroundBlue,
    IfElse,
    IfEnd,
    LoopStartInfinite,
    LoopStart2,
    LoopStart3,
    LoopStart4,
    LoopStart5,
    LoopStart10,
    LoopBreak,
    LoopEnd,
    C5,
    D5,
    E5,
    F5,
    G5,
    A5,
    B5,
    C6,
    EndOfType,
}

impl CardNameCardCoding {
    /// The wire code of the variant.
    pub open spec fn code(self) -> u8 {
        match self {
            CardNameCardCoding::Nil => 0x00,
            CardNameCardCoding::CalibrationWhite => 0x11,
            CardNameCardCoding::Card => 0x12,
            CardNameCardCoding::Motion => 0x13,
            CardNameCardCoding::Piano => 0x18,
            CardNameCardCoding::CodingStart => 0x21,
            CardNameCardCoding::CodingEnd => 0x22,
            CardNameCardCoding::FunctionStart => 0x23,
            CardNameCardCoding::FunctionEnd => 0x24,
            CardNameCardCoding::FunctionCall => 0x25,
            CardNameCardCoding::PlayMelody => 0x26,
            CardNameCardCoding::Speed => 0x27,
            CardNameCardCoding::Wait1Sec => 0x28,
            CardNameCardCoding::LightBodyWhite => 0x31,
            CardNameCardCoding::LightBodyRed => 0x32,
            CardNameCardCoding::LightBodyYellow => 0x33,
            CardNameCardCoding::LightBodyGreen => 0x34,
            CardNameCardCoding::LightBodyCyan => 0x35,
            CardNameCardCoding::LightBodyBlue => 0x36,
            CardNameCardCoding::LightBodyMagenta => 0x37,
            CardNameCardCoding::LightBodyBlack => 0x38,
            CardNameCardCoding::Takeoff => 0x41,
            CardNameCardCoding::Landing => 0x42,
            CardNameCardCoding::Distance300 => 0x43,
            CardNameCardCoding::Distance500 => 0x44,
            CardNameCardCoding::Distance1000 => 0x45,
            CardNameCardCoding::Degree30 => 0x46,
            CardNameCardCoding::Degree45 => 0x47,
            CardNameCardCoding::Degree90 => 0x48,
            CardNameCardCoding::MoveForward => 0x51,
            CardNameCardCoding::MoveBackward => 0x52,
            CardNameCardCoding::MoveLeft => 0x53,
            CardNameCardCoding::MoveRight => 0x54,
            CardNameCardCoding::MoveUp => 0x55,
            CardNameCardCoding::MoveDown => 0x56,
            CardNameCardCoding::TurnLeft => 0x57,
            CardNameCardCoding::TurnRight => 0x58,
            CardNameCardCoding::IfFindFrontObstacle => 0x61,
            CardNameCardCoding::IfFindGroundRed => 0x62,
            CardNameCardCoding::IfFindGroundYellow => 0x63,
            CardNameCardCoding::IfFindGroundGreen => 0x64,
            CardNameCardCoding::IfFindGroundCyan => 0x65,
            CardNameCardCoding::IfFindGroundBlue => 0x66,
            CardNameCardCoding::IfElse => 0x67,
            CardNameCardCoding::IfEnd => 0x68,
            CardNameCardCoding::LoopStartInfinite => 0x71,
            CardNameCardCoding::LoopStart2 => 0x72,
            CardNameCardCoding::LoopStart3 => 0x73,
            CardNameCardCoding::LoopStart4 => 0x74,
            CardNameCardCoding::LoopStart5 => 0x75,
            CardNameCardCoding::LoopStart10 => 0x76,
            CardNameCardCoding::LoopBreak => 0x77,
            CardNameCardCoding::LoopEnd => 0x78,
            CardNameCardCoding::C5 => 0x81,
            CardNameCardCoding::D5 => 0x82,
            CardNameCardCoding::E5 => 0x83,
            CardNameCardCoding::F5 => 0x84,
            CardNameCardCoding::G5 => 0x85,
            CardNameCardCoding::A5 => 0x86,
            CardNameCardCoding::B5 => 0x87,
            CardNameCardCoding::C6 => 0x88,
            CardNameCardCoding::EndOfType => 0x89,
        }
    }

    /// Total decoding: an unknown code falls back to `CardNameCardCoding::Nil`.
    pub open spec fn spec_from_u8(code: u8) -> CardNameCardCoding {
        if code == 0x00 {
            CardNameCardCoding::Nil
        } else if code == 0x11 {
            CardNameCardCoding::CalibrationWhite
        } else if code == 0x12 {
            CardNameCardCoding::Card
        } else if code == 0x13 {
            CardNameCardCoding::Motion
        } else if code == 0x18 {
            CardNameCardCoding::Piano
        } else if code == 0x21 {
            CardNameCardCoding::CodingStart
        } else if code == 0x22 {
            CardNameCardCoding::CodingEnd
        } else if code == 0x23 {
            CardNameCardCoding::FunctionStart
        } else if code == 0x24 {
            CardNameCardCoding::FunctionEnd
        } else if code == 0x25 {
            CardNameCardCoding::FunctionCall
        } else if code == 0x26 {
            CardNameCardCoding::PlayMelody
        } else if code == 0x27 {
            CardNameCardCoding::Speed
        } else if code == 0x28 {
            CardNameCardCoding::Wait1Sec
        } else if code == 0x31 {
            CardNameCardCoding::LightBodyWhite
        } else if code == 0x32 {
            CardNameCardCoding::LightBodyRed
        } else if code == 0x33 {
            CardNameCardCoding::LightBodyYellow
        } else if code == 0x34 {
            CardNameCardCoding::LightBodyGreen
        } else if code == 0x35 {
            CardNameCardCoding::LightBodyCyan
        } else if code == 0x36 {
            CardNameCardCoding::LightBodyBlue
        } else if code == 0x37 {
            CardNameCardCoding::LightBodyMagenta
        } else if code == 0x38 {
            CardNameCardCoding::LightBodyBlack
        } else if code == 0x41 {
            CardNameCardCoding::Takeoff
        } else if code == 0x42 {
            CardNameCardCoding::Landing
        } else if code == 0x43 {
            CardNameCardCoding::Distance300
        } else if code == 0x44 {
            CardNameCardCoding::Distance500
        } else if code == 0x45 {
            CardNameCardCoding::Distance1000
        } else if code == 0x46 {
            CardNameCardCoding::Degree30
        } else if code == 0x47 {
            CardNameCardCoding::Degree45
        } else if code == 0x48 {
            CardNameCardCoding::Degree90
        } else if code == 0x51 {
            CardNameCardCoding::MoveForward
        } else if code == 0x52 {
            CardNameCardCoding::MoveBackward
        } else if code == 0x53 {
            CardNameCardCoding::MoveLeft
        } else if code == 0x54 {
            CardNameCardCoding::MoveRight
        } else if code == 0x55 {
            CardNameCardCoding::MoveUp
        } else if code == 0x56 {
            CardNameCardCoding::MoveDown
        } else if code == 0x57 {
            CardNameCardCoding::TurnLeft
        } else if code == 0x58 {
            CardNameCardCoding::TurnRight
        } else if code == 0x61 {
            CardNameCardCoding::IfFindFrontObstacle
        } else if code == 0x62 {
            CardNameCardCoding::IfFindGroundRed
        } else if code == 0x63 {
            CardNameCardCoding::IfFindGroundYellow
        } else if code == 0x64 {
            CardNameCardCoding::IfFindGroundGreen
        } else if code == 0x65 {
            CardNameCardCoding::IfFindGroundCyan
        } else if code == 0x66 {
            CardNameCardCoding::IfFindGroundBlue
        } else if code == 0x67 {
            CardNameCardCoding::IfElse
        } else if code == 0x68 {
            CardNameCardCoding::IfEnd
        } else if code == 0x71 {
            CardNameCardCoding::LoopStartInfinite
        } else if code == 0x72 {
            CardNameCardCoding::LoopStart2
        } else if code == 0x73 {
            CardNameCardCoding::LoopStart3
        } else if code == 0x74 {
            CardNameCardCoding::LoopStart4
        } else if code == 0x75 {
            CardNameCardCoding::LoopStart5
        } else if code == 0x76 {
            CardNameCardCoding::LoopStart10
        } else if code == 0x77 {
            CardNameCardCoding::LoopBreak
        } else if code == 0x78 {
            CardNameCardCoding::LoopEnd
        } else if code == 0x81 {
            CardNameCardCoding::C5
        } else if code == 0x82 {
            CardNameCardCoding::D5
        } else if code == 0x83 {
            CardNameCardCoding::E5
        } else if code == 0x84 {
            CardNameCardCoding::F5
        } else if code == 0x85 {
            CardNameCardCoding::G5
        } else if code == 0x86 {
            CardNameCardCoding::A5
        } else if code == 0x87 {
            CardNameCardCoding::B5
        } else if code == 0x88 {
            CardNameCardCoding::C6
        } else if code == 0x89 {
            CardNameCardCoding::EndOfType
        } else {
            CardNameCardCoding::Nil
        }
    }

    /// Whether the code denotes a variant of its own.
    pub open spec fn spec_is_defined(code: u8) -> bool {
        CardNameCardCoding::spec_from_u8(code).code() == code
    }

    pub fn from_u8(data_u8: u8) -> (r: CardNameCardCoding)
        ensures
            r == CardNameCardCoding::spec_from_u8(data_u8),
    {
        if data_u8 == 0x00 {
            CardNameCardCoding::Nil
        } else if data_u8 == 0x11 {
            CardNameCardCoding::CalibrationWhite
        } else if data_u8 == 0x12 {
            CardNameCardCoding::Card
        } else if data_u8 == 0x13 {
            CardNameCardCoding::Motion
        } else if data_u8 == 0x18 {
            CardNameCardCoding::Piano
        } else if data_u8 == 0x21 {
            CardNameCardCoding::CodingStart
        } else if data_u8 == 0x22 {
            CardNameCardCoding::CodingEnd
        } else if data_u8 == 0x23 {
            CardNameCardCoding::FunctionStart
        } else if data_u8 == 0x24 {
            CardNameCardCoding::FunctionEnd
        } else if data_u8 == 0x25 {
            CardNameCardCoding::FunctionCall
        } else if data_u8 == 0x26 {
            CardNameCardCoding::PlayMelody
        } else if data_u8 == 0x27 {
            CardNameCardCoding::Speed
        } else if data_u8 == 0x28 {
            CardNameCardCoding::Wait1Sec
        } else if data_u8 == 0x31 {
            CardNameCardCoding::LightBodyWhite
        } else if data_u8 == 0x32 {
            CardNameCardCoding::LightBodyRed
        } else if data_u8 == 0x33 {
            CardNameCardCoding::LightBodyYellow
        } else if data_u8 == 0x34 {
            CardNameCardCoding::LightBodyGreen
        } else if data_u8 == 0x35 {
            CardNameCardCoding::LightBodyCyan
        } else if data_u8 == 0x36 {
            CardNameCardCoding::LightBodyBlue
        } else if data_u8 == 0x37 {
            CardNameCardCoding::LightBodyMagenta
        } else if data_u8 == 0x38 {
            CardNameCardCoding::LightBodyBlack
        } else if data_u8 == 0x41 {
            CardNameCardCoding::Takeoff
        } else if data_u8 == 0x42 {
            CardNameCardCoding::Landing
        } else if data_u8 == 0x43 {
            CardNameCardCoding::Distance300
        } else if data_u8 == 0x44 {
            CardNameCardCoding::Distance500
        } else if data_u8 == 0x45 {
            CardNameCardCoding::Distance1000
        } else if data_u8 == 0x46 {
            CardNameCardCoding::Degree30
        } else if data_u8 == 0x47 {
            CardNameCardCoding::Degree45
        } else if data_u8 == 0x48 {
            CardNameCardCoding::Degree90
        } else if data_u8 == 0x51 {
            CardNameCardCoding::MoveForward
        } else if data_u8 == 0x52 {
            CardNameCardCoding::MoveBackward
        } else if data_u8 == 0x53 {
            CardNameCardCoding::MoveLeft
        } else if data_u8 == 0x54 {
            CardNameCardCoding::MoveRight
        } else if data_u8 == 0x55 {
            CardNameCardCoding::MoveUp
        } else if data_u8 == 0x56 {
            CardNameCardCoding::MoveDown
        } else if data_u8 == 0x57 {
            CardNameCardCoding::TurnLeft
        } else if data_u8 == 0x58 {
            CardNameCardCoding::TurnRight
        } else if data_u8 == 0x61 {
            CardNameCardCoding::IfFindFrontObstacle
        } else if data_u8 == 0x62 {
            CardNameCardCoding::IfFindGroundRed
        } else if data_u8 == 0x63 {
            CardNameCardCoding::IfFindGroundYellow
        } else if data_u8 == 0x64 {
            CardNameCardCoding::IfFindGroundGreen
        } else if data_u8 == 0x65 {
            CardNameCardCoding::IfFindGroundCyan
        } else if data_u8 == 0x66 {
            CardNameCardCoding::IfFindGroundBlue
        } else if data_u8 == 0x67 {
            CardNameCardCoding::IfElse
        } else if data_u8 == 0x68 {
            CardNameCardCoding::IfEnd
        } else if data_u8 == 0x71 {
            CardNameCardCoding::LoopStartInfinite
        } else if data_u8 == 0x72 {
            CardNameCardCoding::LoopStart2
        } else if data_u8 == 0x73 {
            CardNameCardCoding::LoopStart3
        } else if data_u8 == 0x74 {
            CardNameCardCoding::LoopStart4
        } else if data_u8 == 0x75 {
            CardNameCardCoding::LoopStart5
        } else if data_u8 == 0x76 {
            CardNameCardCoding::LoopStart10
        } else if data_u8 == 0x77 {
            CardNameCardCoding::LoopBreak
        } else if data_u8 == 0x78 {
            CardNameCardCoding::LoopEnd
        } else if data_u8 == 0x81 {
            CardNameCardCoding::C5
        } else if data_u8 == 0x82 {
            CardNameCardCoding::D5
        } else if data_u8 == 0x83 {
            CardNameCardCoding::E5
        } else if data_u8 == 0x84 {
            CardNameCardCoding::F5
        } else if data_u8 == 0x85 {
            CardNameCardCoding::G5
        } else if data_u8 == 0x86 {
            CardNameCardCoding::A5
        } else if data_u8 == 0x87 {
            CardNameCardCoding::B5
        } else if data_u8 == 0x88 {
            CardNameCardCoding::C6
        } else if data_u8 == 0x89 {
            CardNameCardCoding::EndOfType
        } else {
            CardNameCardCoding::Nil
        }
    }

    pub fn to_u8(self) -> (r: u8)
        ensures
            r == self.code(),
    {
        match self {
            CardNameCardCoding::Nil => 0x00,
            CardNameCardCoding::CalibrationWhite => 0x11,
            CardNameCardCoding::Card => 0x12,
            CardNameCardCoding::Motion => 0x13,
            CardNameCardCoding::Piano => 0x18,
            CardNameCardCoding::CodingStart => 0x21,
            CardNameCardCoding::CodingEnd => 0x22,
            CardNameCardCoding::FunctionStart => 0x23,
            CardNameCardCoding::FunctionEnd => 0x24,
            CardNameCardCoding::FunctionCall => 0x25,
            CardNameCardCoding::PlayMelody => 0x26,
            CardNameCardCoding::Speed => 0x27,
            CardNameCardCoding::Wait1Sec => 0x28,
            CardNameCardCoding::LightBodyWhite => 0x31,
            CardNameCardCoding::LightBodyRed => 0x32,
            CardNameCardCoding::LightBodyYellow => 0x33,
            CardNameCardCoding::LightBodyGreen => 0x34,
            CardNameCardCoding::LightBodyCyan => 0x35,
            CardNameCardCoding::LightBodyBlue => 0x36,
            CardNameCardCoding::LightBodyMagenta => 0x37,
            CardNameCardCoding::LightBodyBlack => 0x38,
            CardNameCardCoding::Takeoff => 0x41,
            CardNameCardCoding::Landing => 0x42,
            CardNameCardCoding::Distance300 => 0x43,
            CardNameCardCoding::Distance500 => 0x44,
            CardNameCardCoding::Distance1000 => 0x45,
            CardNameCardCoding::Degree30 => 0x46,
            CardNameCardCoding::Degree45 => 0x47,
            CardNameCardCoding::Degree90 => 0x48,
            CardNameCardCoding::MoveForward => 0x51,
            CardNameCardCoding::MoveBackward => 0x52,
            CardNameCardCoding::MoveLeft => 0x53,
            CardNameCardCoding::MoveRight => 0x54,
            CardNameCardCoding::MoveUp => 0x55,
            CardNameCardCoding::MoveDown => 0x56,
            CardNameCardCoding::TurnLeft => 0x57,
            CardNameCardCoding::TurnRight => 0x58,
            CardNameCardCoding::IfFindFrontObstacle => 0x61,
            CardNameCardCoding::IfFindGroundRed => 0x62,
            CardNameCardCoding::IfFindGroundYellow => 0x63,
            CardNameCardCoding::IfFindGroundGreen => 0x64,
            CardNameCardCoding::IfFindGroundCyan => 0x65,
            CardNameCardCoding::IfFindGroundBlue => 0x66,
            CardNameCardCoding::IfElse => 0x67,
            CardNameCardCoding::IfEnd => 0x68,
            CardNameCardCoding::LoopStartInfinite => 0x71,
            CardNameCardCoding::LoopStart2 => 0x72,
            CardNameCardCoding::LoopStart3 => 0x73,
            CardNameCardCoding::LoopStart4 => 0x74,
            CardNameCardCoding::LoopStart5 => 0x75,
            CardNameCardCoding::LoopStart10 => 0x76,
            CardNameCardCoding::LoopBreak => 0x77,
            CardNameCardCoding::LoopEnd => 0x78,
            CardNameCardCoding::C5 => 0x81,
            CardNameCardCoding::D5 => 0x82,
            CardNameCardCoding::E5 => 0x83,
            CardNameCardCoding::F5 => 0x84,
            CardNameCardCoding::G5 => 0x85,
            CardNameCardCoding::A5 => 0x86,
            CardNameCardCoding::B5 => 0x87,
            CardNameCardCoding::C6 => 0x88,
            CardNameCardCoding::EndOfType => 0x89,
        }
    }

    /// Encoding a variant and decoding the code gives the variant back.
    pub proof fn lemma_code_roundtrip(self)
        ensures
            CardNameCardCoding::spec_from_u8(self.code()) == self,
    {
    }
}

#[derive(Clone, Copy, Debug, PartialEq, Eq, Structural)]
pub enum CardColor {
    Unknown,
    White,
    Red,
    Yellow,
    Green,
    Cyan,
    Blue,
    Magenta,
    Black,
    Grey,
}

impl CardColor {
    /// The wire code of the variant.
    pub open spec fn code(self) -> u8 {
        match self {
            CardColor::Unknown => 0x00,
            CardColor::White => 0x01,
            CardColor::Red => 0x02,
            CardColor::Yellow => 0x03,
            CardColor::Green => 0x04,
            CardColor::Cyan => 0x05,
            CardColor::Blue => 0x06,
            CardColor::Magenta => 0x07,
            CardColor::Black => 0x08,
            CardColor::Grey => 0x09,
        }
    }

    /// Total decoding: an unknown code falls back to `CardColor::Unknown`.
    pub open spec fn spec_from_u8(code: u8) -> CardColor {
        if code == 0x00 {
            CardColor::Unknown
        } else if code == 0x01 {
            CardColor::White
        } else if code == 0x02 {
            CardColor::Red
        } else if code == 0x03 {
            CardColor::Yellow
        } else if code == 0x04 {
            CardColor::Green
        } else if code == 0x05 {
            CardColor::Cyan
        } else if code == 0x06 {
            CardColor::Blue
        } else if code == 0x07 {
            CardColor::Magenta
        } else if code == 0x08 {
            CardColor::Black
        } else if code == 0x09 {
            CardColor::Grey
        } else {
            CardColor::Unknown
        }
    }

    /// Whether the code denotes a variant of its own.
    pub open spec fn spec_is_defined(code: u8) -> bool {
        CardColor::spec_from_u8(code).code() == code
    }

    pub fn from_u8(data_u8: u8) -> (r: CardColor)
        ensures
            r == CardColor::spec_from_u8(data_u8),
    {
        if data_u8 == 0x00 {
            CardColor::Unknown
        } else if data_u8 == 0x01 {
            CardColor::White
        } else if data_u8 == 0x02 {
            CardColor::Red
        } else if data_u8 == 0x03 {
            CardColor::Yellow
        } else if data_u8 == 0x04 {
            CardColor::Green
        } else if data_u8 == 0x05 {
            CardColor::Cyan
        } else if data_u8 == 0x06 {
            CardColor::Blue
        } else if data_u8 == 0x07 {
            CardColor::Magenta
        } else if data_u8 == 0x08 {
            CardColor::Black
        } else if data_u8 == 0x09 {
            CardColor::Grey
        } else {
            CardColor::Unknown
        }
    }

    pub fn to_u8(self) -> (r: u8)
        ensures
            r == self.code(),
    {
        match self {
            CardColor::Unknown => 0x00,
            CardColor::White => 0x01,
            CardColor::Red => 0x02,
            CardColor::Yellow => 0x03,
            CardColor::Green => 0x04,
            CardColor::Cyan => 0x05,
            CardColor::Blue => 0x06,
            CardColor::Magenta => 0x07,
            CardColor::Black => 0x08,
            CardColor::Grey => 0x09,
        }
    }

    /// Encoding a variant and decoding the code gives the variant back.
    pub proof fn lemma_code_roundtrip(self)
        ensures
            CardColor::spec_from_u8(self.code()) == self,
    {
    }
}


/// One color-classification record: a table index, the 36 classification
/// coefficients, and two light thresholds.
#[derive(Clone, Debug)]
pub struct Classify {
    pub index: i8,
    pub cc: Vec<i8>,
    pub l: Vec<i8>,
}

impl Classify {
    pub fn new() -> (r: Classify)
        ensures
            r.index == 0,
            r.cc@.len() == 0,
            r.l@.len() == 0,
    {
        Classify { index: 0, cc: Vec::new(), l: Vec::new() }
    }

    /// Exact on-wire size of one record.
    pub open spec fn spec_size() -> usize {
        39
    }

    pub fn size() -> (r: usize)
        ensures
            r == Classify::spec_size(),
    {
        39
    }

    /// The bytes this record puts on the wire.
    pub open spec fn wire(self) -> Seq<u8> {
        seq![spec_i8_to_byte(self.index)] + spec_i8s_to_bytes(self.cc@) + spec_i8s_to_bytes(
            self.l@,
        )
    }

    /// Whether `self` is exactly what one record's bytes decode to.
    pub open spec fn decoded(self, s: Seq<u8>) -> bool {
        &&& self.index == spec_i8_from_byte(s[0])
        &&& self.cc@ == spec_i8s_from_bytes(s.subrange(1, 37))
        &&& self.l@ == spec_i8s_from_bytes(s.subrange(37, 39))
    }

    /// Reads one record in place out of a run of records.
    pub fn read(ext: &mut Extractor) -> (r: Classify)
        requires
            old(ext).wf(),
            old(ext).pos() + Classify::spec_size() <= old(ext).data().len(),
        ensures
            final(ext).wf(),
            final(ext).data() == old(ext).data(),
            final(ext).pos() == old(ext).pos() + Classify::spec_size(),
            r.decoded(old(ext).data().subrange(
                old(ext).pos(),
                old(ext).pos() + Classify::spec_size(),
            )),
    {
        let ghost base = ext.pos();
        let ghost whole = ext.data();
        let index = ext.get_i8();
        let cc = ext.get_vec_i8(36);
        let l = ext.get_vec_i8(2);
        proof {
            let rec = whole.subrange(base, base + 39);
            assert(rec.subrange(1, 37) =~= whole.subrange(base + 1, base + 37));
            assert(rec.subrange(37, 39) =~= whole.subrange(base + 37, base + 39));
            assert(spec_i8s_from_bytes(rec.subrange(1, 37)) =~= spec_i8s_from_bytes(
                whole.subrange(base + 1, base + 37),
            ));
            assert(spec_i8s_from_bytes(rec.subrange(37, 39)) =~= spec_i8s_from_bytes(
                whole.subrange(base + 37, base + 39),
            ));
        }
        Classify { index, cc, l }
    }

    /// Splits a payload of back-to-back records; the length must be a
    /// non-zero multiple of the record size.
    pub fn parse(slice_data: &[u8]) -> (r: Result<Vec<Classify>, &'static str>)
        ensures
            (slice_data@.len() > 0 && slice_data@.len() % 39 == 0) ==> (r matches Ok(v) && {
                &&& v@.len() == slice_data@.len() / 39
                &&& forall|j: int|
                    0 <= j < v@.len() ==> v@[j].decoded(
                        slice_data@.subrange(39 * j, 39 * j + 39),
                    )
            }),
            !(slice_data@.len() > 0 && slice_data@.len() % 39 == 0) ==> (r matches Err(_)),
    {
        if slice_data.len() > 0 && slice_data.len() % Classify::size() == 0 {
            let mut ext: Extractor = Extractor::from_slice(slice_data);
            let count = slice_data.len() / Classify::size();
            let mut records: Vec<Classify> = Vec::new();
            let mut i: usize = 0;
            while i < count
                invariant
                    i <= count,
                    count == slice_data@.len() / 39,
                    slice_data@.len() % 39 == 0,
                    ext.wf(),
                    ext.data() == slice_data@,
                    ext.pos() == 39 * i,
                    records@.len() == i,
                    forall|j: int|
                        0 <= j < i ==> records@[j].decoded(
                            slice_data@.subrange(39 * j, 39 * j + 39),
                        ),
                decreases count - i,
            {
                let record = Classify::read(&mut ext);
                records.push(record);
                i = i + 1;
            }
            Ok(records)
        } else {
            Err("Wrong length")
        }
    }

    pub fn to_vec(&self) -> (r: Vec<u8>)
        ensures
            r@ == self.wire(),
    {
        let mut vec_data: Vec<u8> = Vec::new();
        add_i8(&mut vec_data, self.index);
        add_i8_slice(&mut vec_data, &self.cc);
        add_i8_slice(&mut vec_data, &self.l);
        proof {
            assert(vec_data@ =~= self.wire());
        }
        vec_data
    }

    /// Decoding the wire image of a full record gives the record back.
    pub proof fn lemma_wire_roundtrip(self)
        requires
            self.cc@.len() == 36,
            self.l@.len() == 2,
        ensures
            self.wire().len() == Classify::spec_size(),
            self.decoded(self.wire()),
    {
        lemma_i8_byte_roundtrip(self.index);
        lemma_i8s_bytes_roundtrip(self.cc@);
        lemma_i8s_bytes_roundtrip(self.l@);
        assert(self.wire().subrange(1, 37) =~= spec_i8s_to_bytes(self.cc@));
        assert(self.wire().subrange(37, 39) =~= spec_i8s_to_bytes(self.l@));
    }
}

/// The calibrated output ranges of the two color sensors, as min/max pairs
/// per channel.
#[derive(Clone, Debug)]
pub struct Range {
    pub range: Vec<i16>,
}

impl Range {
    pub fn new() -> (r: Range)
        ensures
            r.range@.len() == 0,
    {
        Range { range: Vec::new() }
    }

    /// Exact on-wire size of the payload.
    pub open spec fn spec_size() -> usize {
        24
    }

    pub fn size() -> (r: usize)
        ensures
            r == Range::spec_size(),
    {
        24
    }

    /// The bytes this value puts on the wire.
    pub open spec fn wire(self) -> Seq<u8> {
        spec_i16s_to_le_bytes(self.range@)
    }

    /// Whether `self` is exactly what the payload bytes `s` decode to.
    pub open spec fn decoded(self, s: Seq<u8>) -> bool {
        self.range@ == spec_i16s_from_le_bytes(s)
    }

    pub fn parse(slice_data: &[u8]) -> (r: Result<Range, &'static str>)
        ensures
            slice_data@.len() == Range::spec_size() ==> (r matches Ok(v) && v.decoded(
                slice_data@,
            )),
            slice_data@.len() != Range::spec_size() ==> (r matches Err(_)),
    {
        if slice_data.len() == Range::size() {
            let mut ext: Extractor = Extractor::from_slice(slice_data);
            let range = ext.get_vec_i16(12);
            proof {
                assert(slice_data@.subrange(0, 24) =~= slice_data@);
            }
            Ok(Range { range })
        } else {
            Err("Wrong length")
        }
    }

    pub fn to_vec(&self) -> (r: Vec<u8>)
        ensures
            r@ == self.wire(),
    {
        let mut vec_data: Vec<u8> = Vec::new();
        add_i16_slice(&mut vec_data, &self.range);
        proof {
            assert(vec_data@ =~= self.wire());
        }
        vec_data
    }

    /// Decoding the wire image of a full table gives the table back.
    pub proof fn lemma_wire_roundtrip(self)
        requires
            self.range@.len() == 12,
        ensures
            self.wire().len() == Range::spec_size(),
            self.decoded(self.wire()),
    {
        lemma_i16s_le_bytes_roundtrip(self.range@);
    }
}

/// One raw color sample from both sensors: raw channel values, their RGB
/// reduction, the HSVL transform, the per-sensor color class and the card.
#[derive(Clone, Debug)]
pub struct Raw {
    pub raw: Vec<i16>,
    pub rgb: Vec<u8>,
    pub hsvl: Vec<i16>,
    pub color: Vec<u8>,
    pub card: u8,
}

impl Raw {
    pub fn new() -> (r: Raw)
        ensures
            r.raw@.len() == 0,
            r.rgb@.len() == 0,
            r.hsvl@.len() == 0,
            r.color@.len() == 0,
            r.card == 0,
    {
        Raw { raw: Vec::new(), rgb: Vec::new(), hsvl: Vec::new(), color: Vec::new(), card: 0 }
    }

    /// Exact on-wire size of the payload.
    pub open spec fn spec_size() -> usize {
        37
    }

    pub fn size() -> (r: usize)
        ensures
            r == Raw::spec_size(),
    {
        37
    }

    /// The bytes this value puts on the wire.
    pub open spec fn wire(self) -> Seq<u8> {
        spec_i16s_to_le_bytes(self.raw@) + self.rgb@ + spec_i16s_to_le_bytes(self.hsvl@)
            + self.color@ + seq![self.card]
    }

    /// Whether `self` is exactly what the payload bytes `s` decode to.
    pub open spec fn decoded(self, s: Seq<u8>) -> bool {
        &&& self.raw@ == spec_i16s_from_le_bytes(s.subrange(0, 12))
        &&& self.rgb@ == s.subrange(12, 18)
        &&& self.hsvl@ == spec_i16s_from_le_bytes(s.subrange(18, 34))
        &&& self.color@ == s.subrange(34, 36)
        &&& self.card == s[36]
    }

    pub fn parse(slice_data: &[u8]) -> (r: Result<Raw, &'static str>)
        ensures
            slice_data@.len() == Raw::spec_size() ==> (r matches Ok(v) && v.decoded(
                slice_data@,
            )),
            slice_data@.len() != Raw::spec_size() ==> (r matches Err(_)),
    {
        if slice_data.len() == Raw::size() {
            let mut ext: Extractor = Extractor::from_slice(slice_data);
            let raw = ext.get_vec_i16(6);
            let rgb = ext.get_array(6);
            let hsvl = ext.get_vec_i16(8);
            let color = ext.get_array(2);
            let card = ext.get_u8();
            Ok(Raw { raw, rgb, hsvl, color, card })
        } else {
            Err("Wrong length")
        }
    }

    pub fn to_vec(&self) -> (r: Vec<u8>)
        ensures
            r@ == self.wire(),
    {
        let mut vec_data: Vec<u8> = Vec::new();
        add_i16_slice(&mut vec_data, &self.raw);
        add_slice(&mut vec_data, self.rgb.as_slice());
        add_i16_slice(&mut vec_data, &self.hsvl);
        add_slice(&mut vec_data, self.color.as_slice());
        add_u8(&mut vec_data, self.card);
        proof {
            assert(vec_data@ =~= self.wire());
        }
        vec_data
    }

    /// Decoding the wire image of a full sample gives the sample back.
    pub proof fn lemma_wire_roundtrip(self)
        requires
            self.raw@.len() == 6,
            self.rgb@.len() == 6,
            self.hsvl@.len() == 8,
            self.color@.len() == 2,
        ensures
            self.wire().len() == Raw::spec_size(),
            self.decoded(self.wire()),
    {
        lemma_i16s_le_bytes_roundtrip(self.raw@);
        lemma_i16s_le_bytes_roundtrip(self.hsvl@);
        assert(self.wire().subrange(0, 12) =~= spec_i16s_to_le_bytes(self.raw@));
        assert(self.wire().subrange(12, 18) =~= self.rgb@);
        assert(self.wire().subrange(18, 34) =~= spec_i16s_to_le_bytes(self.hsvl@));
        assert(self.wire().subrange(34, 36) =~= self.color@);
        assert(spec_i16s_from_le_bytes(self.wire().subrange(0, 12)) =~= self.raw@);
        assert(spec_i16s_from_le_bytes(self.wire().subrange(18, 34)) =~= self.hsvl@);
    }
}

/// The recognized color: the HSVL transform, the per-sensor color class and
/// the card both classes name together.
#[derive(Clone, Debug)]
pub struct Color {
    pub hsvl: Vec<i16>,
    pub color: Vec<u8>,
    pub card: u8,
}

impl Color {
    pub fn new() -> (r: Color)
        ensures
            r.hsvl@.len() == 0,
            r.color@.len() == 0,
            r.card == 0,
    {
        Color { hsvl: Vec::new(), color: Vec::new(), card: 0 }
    }

    /// Exact on-wire size of the payload.
    pub open spec fn spec_size() -> usize {
        19
    }

    pub fn size() -> (r: usize)
        ensures
            r == Color::spec_size(),
    {
        19
    }

    /// The bytes this value puts on the wire.
    pub open spec fn wire(self) -> Seq<u8> {
        spec_i16s_to_le_bytes(self.hsvl@) + self.color@ + seq![self.card]
    }

    /// Whether `self` is exactly what the payload bytes `s` decode to.
    pub open spec fn decoded(self, s: Seq<u8>) -> bool {
        &&& self.hsvl@ == spec_i16s_from_le_bytes(s.subrange(0, 16))
        &&& self.color@ == s.subrange(16, 18)
        &&& self.card == s[18]
    }

    pub fn parse(slice_data: &[u8]) -> (r: Result<Color, &'static str>)
        ensures
            slice_data@.len() == Color::spec_size() ==> (r matches Ok(v) && v.decoded(
                slice_data@,
            )),
            slice_data@.len() != Color::spec_size() ==> (r matches Err(_)),
    {
        if slice_data.len() == Color::size() {
            let mut ext: Extractor = Extractor::from_slice(slice_data);
            let hsvl = ext.get_vec_i16(8);
            let color = ext.get_array(2);
            let card = ext.get_u8();
            Ok(Color { hsvl, color, card })
        } else {
            Err("Wrong length")
        }
    }

    pub fn to_vec(&self) -> (r: Vec<u8>)
        ensures
            r@ == self.wire(),
    {
        let mut vec_data: Vec<u8> = Vec::new();
        add_i16_slice(&mut vec_data, &self.hsvl);
        add_slice(&mut vec_data, self.color.as_slice());
        add_u8(&mut vec_data, self.card);
        proof {
            assert(vec_data@ =~= self.wire());
        }
        vec_data
    }

    /// Decoding the wire image of a full value gives the value back.
    pub proof fn lemma_wire_roundtrip(self)
        requires
            self.hsvl@.len() == 8,
            self.color@.len() == 2,
        ensures
            self.wire().len() == Color::spec_size(),
            self.decoded(self.wire()),
    {
        lemma_i16s_le_bytes_roundtrip(self.hsvl@);
        assert(self.wire().subrange(0, 16) =~= spec_i16s_to_le_bytes(self.hsvl@));
        assert(self.wire().subrange(16, 18) =~= self.color@);
        assert(spec_i16s_from_le_bytes(self.wire().subrange(0, 16)) =~= self.hsvl@);
    }
}


/// A page of the stored card list.
#[derive(Clone, Debug)]
pub struct ListCard {
    pub index_run: u8,
    pub total_size: u8,
    pub index: u8,
    pub card: Vec<u8>,
}

impl ListCard {
    pub fn new() -> (r: ListCard)
        ensures
            r.index_run == 0,
            r.total_size == 0,
            r.index == 0,
            r.card@.len() == 0,
    {
        ListCard {
            index_run: 0,
            total_size: 0,
            index: 0,
            card: Vec::new(),
        }
    }

    /// Size of the fixed leading part of the payload.
    pub open spec fn spec_size() -> usize {
        3
    }

    pub fn size() -> (r: usize)
        ensures
            r == ListCard::spec_size(),
    {
        3
    }

    /// The bytes this value puts on the wire.
    pub open spec fn wire(self) -> Seq<u8> {
        seq![self.index_run] + seq![self.total_size] + seq![self.index] + self.card@
    }

    /// Whether `self` is exactly what the payload bytes `s` decode to.
    pub open spec fn decoded(self, s: Seq<u8>) -> bool {
        &&& self.index_run == s[0]
        &&& self.total_size == s[1]
        &&& self.index == s[2]
        &&& self.card@ == s.subrange(3, s.len() as int)
    }

    pub fn parse(slice_data: &[u8]) -> (r: Result<ListCard, &'static str>)
        ensures
            slice_data@.len() >= ListCard::spec_size() ==> (r matches Ok(v) && {
                &&& v.index_run == slice_data@[0]
                &&& v.total_size == slice_data@[1]
                &&& v.index == slice_data@[2]
                &&& v.card@ == slice_data@.subrange(3, slice_data@.len() as int)
            }),
            slice_data@.len() < ListCard::spec_size() ==> (r matches Err(_)),
    {
        if slice_data.len() >= ListCard::size() {
            let mut ext: Extractor = Extractor::from_slice(slice_data);
            let index_run = ext.get_u8();
            let total_size = ext.get_u8();
            let index = ext.get_u8();
            let card: Vec<u8> = slice_to_vec(slice_subrange(
                slice_data,
                ListCard::size(),
                slice_data.len(),
            ));
            Ok(ListCard { index_run, total_size, index, card })
        } else {
            Err("Wrong length")
        }
    }

    /// Total on-wire length of the payload.
    pub fn get_length(&self) -> (r: usize)
        requires
            ListCard::spec_size() + self.card@.len() <= usize::MAX,
        ensures
            r == ListCard::spec_size() + self.card@.len(),
    {
        ListCard::size() + self.card.len()
    }

}

impl ListCard {
    pub fn to_vec(&self) -> (r: Vec<u8>)
        ensures
            r@ == self.wire(),
            r@.len() == ListCard::spec_size() + self.card@.len(),
    {
        let mut vec_data: Vec<u8> = Vec::new();
        add_u8(&mut vec_data, self.index_run);
        add_u8(&mut vec_data, self.total_size);
        add_u8(&mut vec_data, self.index);
        add_slice(&mut vec_data, self.card.as_slice());
        proof {
            self.lemma_wire_len();
            assert(vec_data@ =~= self.wire());
        }
        vec_data
    }

    pub proof fn lemma_wire_len(self)
        ensures
            self.wire().len() == ListCard::spec_size() + self.card@.len(),
    {
    }

    /// Decoding the wire image of a value gives the value back.
    pub proof fn lemma_wire_roundtrip(self)
        ensures
            self.wire().len() == ListCard::spec_size() + self.card@.len(),
            self.wire()[0] == self.index_run,
            self.wire()[1] == self.total_size,
            self.wire()[2] == self.index,
            self.wire().subrange(3, self.wire().len() as int) == self.card@,
    {
        assert(self.wire()[0] == seq![self.index_run][0]);
        assert(self.wire()[1] == seq![self.total_size][0]);
        assert(self.wire()[2] == seq![self.index][0]);
        assert(self.wire().subrange(3, self.wire().len() as int) =~= self.card@);
    }
}

/// A page of the stored card-function list.
#[derive(Clone, Debug)]
pub struct ListFunction {
    pub index_run: u8,
    pub total_size: u8,
    pub index: u8,
    pub card: Vec<u8>,
}

impl ListFunction {
    pub fn new() -> (r: ListFunction)
        ensures
            r.index_run == 0,
            r.total_size == 0,
            r.index == 0,
            r.card@.len() == 0,
    {
        ListFunction {
            index_run: 0,
            total_size: 0,
            index: 0,
            card: Vec::new(),
        }
    }

    /// Size of the fixed leading part of the payload.
    pub open spec fn spec_size() -> usize {
        3
    }

    pub fn size() -> (r: usize)
        ensures
            r == ListFunction::spec_size(),
    {
        3
    }

    /// The bytes this value puts on the wire.
    pub open spec fn wire(self) -> Seq<u8> {
        seq![self.index_run] + seq![self.total_size] + seq![self.index] + self.card@
    }

    /// Whether `self` is exactly what the payload bytes `s` decode to.
    pub open spec fn decoded(self, s: Seq<u8>) -> bool {
        &&& self.index_run == s[0]
        &&& self.total_size == s[1]
        &&& self.index == s[2]
        &&& self.card@ == s.subrange(3, s.len() as int)
    }

    pub fn parse(slice_data: &[u8]) -> (r: Result<ListFunction, &'static str>)
        ensures
            slice_data@.len() >= ListFunction::spec_size() ==> (r matches Ok(v) && {
                &&& v.index_run == slice_data@[0]
                &&& v.total_size == slice_data@[1]
                &&& v.index == slice_data@[2]
                &&& v.card@ == slice_data@.subrange(3, slice_data@.len() as int)
            }),
            slice_data@.len() < ListFunction::spec_size() ==> (r matches Err(_)),
    {
        if slice_data.len() >= ListFunction::size() {
            let mut ext: Extractor = Extractor::from_slice(slice_data);
            let index_run = ext.get_u8();
            let total_size = ext.get_u8();
            let index = ext.get_u8();
            let card: Vec<u8> = slice_to_vec(slice_subrange(
                slice_data,
                ListFunction::size(),
                slice_data.len(),
            ));
            Ok(ListFunction { index_run, total_size, index, card })
        } else {
            Err("Wrong length")
        }
    }

    /// Total on-wire length of the payload.
    pub fn get_length(&self) -> (r: usize)
        requires
            ListFunction::spec_size() + self.card@.len() <= usize::MAX,
        ensures
            r == ListFunction::spec_size() + self.card@.len(),
    {
        ListFunction::size() + self.card.len()
    }

}

impl ListFunction {
    pub fn to_vec(&self) -> (r: Vec<u8>)
        ensures
            r@ == self.wire(),
            r@.len() == ListFunction::spec_size() + self.card@.len(),
    {
        let mut vec_data: Vec<u8> = Vec::new();
        add_u8(&mut vec_data, self.index_run);
        add_u8(&mut vec_data, self.total_size);
        add_u8(&mut vec_data, self.index);
        add_slice(&mut vec_data, self.card.as_slice());
        proof {
            self.lemma_wire_len();
            assert(vec_data@ =~= self.wire());
        }
        vec_data
    }

    pub proof fn lemma_wire_len(self)
        ensures
            self.wire().len() == ListFunction::spec_size() + self.card@.len(),
    {
    }

    /// Decoding the wire image of a value gives the value back.
    pub proof fn lemma_wire_roundtrip(self)
        ensures
            self.wire().len() == ListFunction::spec_size() + self.card@.len(),
            self.wire()[0] == self.index_run,
            self.wire()[1] == self.total_size,
            self.wire()[2] == self.index,
            self.wire().subrange(3, self.wire().len() as int) == self.card@,
    {
        assert(self.wire()[0] == seq![self.index_run][0]);
        assert(self.wire()[1] == seq![self.total_size][0]);
        assert(self.wire()[2] == seq![self.index][0]);
        assert(self.wire().subrange(3, self.wire().len() as int) =~= self.card@);
    }
}

} // verus!
