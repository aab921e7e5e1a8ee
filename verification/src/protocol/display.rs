//! Controller display drawing payloads.

use crate::communication::extractor::Extractor;
use crate::communication::serializer::{add_i16, add_slice, add_u8};
use crate::wire::{lemma_i16_le_bytes_roundtrip, spec_bool_from_byte, spec_bool_to_byte, 
    spec_i16_from_le_bytes, spec_i16_to_le_bytes};
use vstd::bytes::*;
use vstd::prelude::*;
use vstd::slice::{slice_subrange, slice_to_vec};


verus! {

#[derive(Clone, Copy, Debug, PartialEq, Eq, Structural)]
pub enum Pixel {
    Black,
    White,
    Inverse,
    Outline,
}

impl Pixel {
    /// The wire code of the variant.
    pub open spec fn code(self) -> u8 {
        match self {
            Pixel::Black => 0x00,
            Pixel::White => 0x01,
            Pixel::Inverse => 0x02,
            Pixel::Outline => 0x03,
        }
    }

    /// Total decoding: an unknown code falls back to `Pixel::Black`.
    pub open spec fn spec_from_u8(code: u8) -> Pixel {
        if code == 0x00 {
            Pixel::Black
        } else if code == 0x01 {
            Pixel::White
        } else if code == 0x02 {
            Pixel::Inverse
        } else if code == 0x03 {
            Pixel::Outline
        } else {
            Pixel::Black
        }
    }

    /// Whether the code denotes a variant of its own.
    pub open spec fn spec_is_defined(code: u8) -> bool {
        Pixel::spec_from_u8(code).code() == code
    }

    pub fn from_u8(data_u8: u8) -> (r: Pixel)
        ensures
            r == Pixel::spec_from_u8(data_u8),
    {
        if data_u8 == 0x00 {
            Pixel::Black
        } else if data_u8 == 0x01 {
            Pixel::White
        } else if data_u8 == 0x02 {
            Pixel::Inverse
        } else if data_u8 == 0x03 {
            Pixel::Outline
        } else {
            Pixel::Black
        }
    }

    pub fn to_u8(self) -> (r: u8)
        ensures
            r == self.code(),
    {
        match self {
            Pixel::Black => 0x00,
            Pixel::White => 0x01,
            Pixel::Inverse => 0x02,
            Pixel::Outline => 0x03,
        }
    }

    /// Encoding a variant and decoding the code gives the variant back.
    pub proof fn lemma_code_roundtrip(self)
        ensures
            Pixel::spec_from_u8(self.code()) == self,
    {
    }
}

#[derive(Clone, Copy, Debug, PartialEq, Eq, Structural)]
pub enum Font {
    LM5x8,
    LM10x16,
}

impl Font {
    /// The wire code of the variant.
    pub open spec fn code(self) -> u8 {
        match self {
            Font::LM5x8 => 0x00,
            Font::LM10x16 => 0x01,
        }
    }

    /// Total decoding: an unknown code falls back to `Font::LM5x8`.
    pub open spec fn spec_from_u8(code: u8) -> Font {
        if code == 0x00 {
            Font::LM5x8
        } else if code == 0x01 {
            Font::LM10x16
        } else {
            Font::LM5x8
        }
    }

    /// Whether the code denotes a variant of its own.
    pub open spec fn spec_is_defined(code: u8) -> bool {
        Font::spec_from_u8(code).code() == code
    }

    pub fn from_u8(data_u8: u8) -> (r: Font)
        ensures
            r == Font::spec_from_u8(data_u8),
    {
        if data_u8 == 0x00 {
            Font::LM5x8
        } else if data_u8 == 0x01 {
            Font::LM10x16
        } else {
            Font::LM5x8
        }
    }

    pub fn to_u8(self) -> (r: u8)
        ensures
            r == self.code(),
    {
        match self {
            Font::LM5x8 => 0x00,
            Font::LM10x16 => 0x01,
        }
    }

    /// Encoding a variant and decoding the code gives the variant back.
    pub proof fn lemma_code_roundtrip(self)
        ensures
            Font::spec_from_u8(self.code()) == self,
    {
    }
}

#[derive(Clone, Copy, Debug, PartialEq, Eq, Structural)]
pub enum Align {
    Left,
    Center,
    Right,
}

impl Align {
    /// The wire code of the variant.
    pub open spec fn code(self) -> u8 {
        match self {
            Align::Left => 0x00,
            Align::Center => 0x01,
            Align::Right => 0x02,
        }
    }

    /// Total decoding: an unknown code falls back to `Align::Left`.
    pub open spec fn spec_from_u8(code: u8) -> Align {
        if code == 0x00 {
            Align::Left
        } else if code == 0x01 {
            Align::Center
        } else if code == 0x02 {
            Align::Right
        } else {
            Align::Left
        }
    }

    /// Whether the code denotes a variant of its own.
    pub open spec fn spec_is_defined(code: u8) -> bool {
        Align::spec_from_u8(code).code() == code
    }

    pub fn from_u8(data_u8: u8) -> (r: Align)
        ensures
            r == Align::spec_from_u8(data_u8),
    {
        if data_u8 == 0x00 {
            Align::Left
        } else if data_u8 == 0x01 {
            Align::Center
        } else if data_u8 == 0x02 {
            Align::Right
        } else {
            Align::Left
        }
    }

    pub fn to_u8(self) -> (r: u8)
        ensures
            r == self.code(),
    {
        match self {
            Align::Left => 0x00,
            Align::Center => 0x01,
            Align::Right => 0x02,
        }
    }

    /// Encoding a variant and decoding the code gives the variant back.
    pub proof fn lemma_code_roundtrip(self)
        ensures
            Align::spec_from_u8(self.code()) == self,
    {
    }
}

#[derive(Clone, Copy, Debug, PartialEq, Eq, Structural)]
pub enum Line {
    Solid,
    Dotted,
    Dashed,
}

impl Line {
    /// The wire code of the variant.
    pub open spec fn code(self) -> u8 {
        match self {
            Line::Solid => 0x00,
            Line::Dotted => 0x01,
            Line::Dashed => 0x02,
        }
    }

    /// Total decoding: an unknown code falls back to `Line::Solid`.
    pub open spec fn spec_from_u8(code: u8) -> Line {
        if code == 0x00 {
            Line::Solid
        } else if code == 0x01 {
            Line::Dotted
        } else if code == 0x02 {
            Line::Dashed
        } else {
            Line::Solid
        }
    }

    /// Whether the code denotes a variant of its own.
    pub open spec fn spec_is_defined(code: u8) -> bool {
        Line::spec_from_u8(code).code() == code
    }

    pub fn from_u8(data_u8: u8) -> (r: Line)
        ensures
            r == Line::spec_from_u8(data_u8),
    {
        if data_u8 == 0x00 {
            Line::Solid
        } else if data_u8 == 0x01 {
            Line::Dotted
        } else if data_u8 == 0x02 {
            Line::Dashed
        } else {
            Line::Solid
        }
    }

    pub fn to_u8(self) -> (r: u8)
        ensures
            r == self.code(),
    {
        match self {
            Line::Solid => 0x00,
            Line::Dotted => 0x01,
            Line::Dashed => 0x02,
        }
    }

    /// Encoding a variant and decoding the code gives the variant back.
    pub proof fn lemma_code_roundtrip(self)
        ensures
            Line::spec_from_u8(self.code()) == self,
    {
    }
}

#[derive(Clone, Copy, Debug, PartialEq, Eq, Structural)]
pub struct ClearAll {
    pub pixel: Pixel,
}

impl ClearAll {
    pub fn new() -> (r: ClearAll)
        ensures
            r.pixel == Pixel::White,
    {
        ClearAll {
            pixel: Pixel::White,
        }
    }

    /// Exact on-wire size of the payload.
    pub open spec fn spec_size() -> usize {
        1
    }

    pub fn size() -> (r: usize)
        ensures
            r == ClearAll::spec_size(),
    {
        1
    }

    /// The bytes this value puts on the wire.
    pub open spec fn wire(self) -> Seq<u8> {
        seq![self.pixel.code()]
    }

    /// Whether `self` is exactly what the payload bytes `s` decode to.
    pub open spec fn decoded(self, s: Seq<u8>) -> bool {
        self == ClearAll::decode(s)
    }

    /// The value a `spec_size()`-byte payload decodes to.
    pub open spec fn decode(s: Seq<u8>) -> ClearAll {
        ClearAll {
            pixel: Pixel::spec_from_u8(s[0]),
        }
    }

    pub fn parse(slice_data: &[u8]) -> (r: Result<ClearAll, &'static str>)
        ensures
            slice_data@.len() == ClearAll::spec_size() ==> (r matches Ok(v) && v == ClearAll::decode(
                slice_data@,
            )),
            slice_data@.len() != ClearAll::spec_size() ==> (r matches Err(_)),
    {
        if slice_data.len() == ClearAll::size() {
            let mut ext: Extractor = Extractor::from_slice(slice_data);
            let pixel = Pixel::from_u8(ext.get_u8());
            Ok(ClearAll { pixel })
        } else {
            Err("Wrong length")
        }
    }

}

impl ClearAll {
    pub fn to_vec(&self) -> (r: Vec<u8>)
        ensures
            r@ == self.wire(),
            r@.len() == ClearAll::spec_size(),
    {
        let mut vec_data: Vec<u8> = Vec::new();
        add_u8(&mut vec_data, self.pixel.to_u8());
        proof {
            self.lemma_wire_len();
            assert(vec_data@ =~= self.wire());
        }
        vec_data
    }

    pub proof fn lemma_wire_len(self)
        ensures
            self.wire().len() == ClearAll::spec_size(),
    {
    }

    /// Decoding the wire image of a value gives the value back.
    pub proof fn lemma_wire_roundtrip(self)
        ensures
            self.wire().len() == ClearAll::spec_size(),
            ClearAll::decode(self.wire()) == self,
    {
        self.pixel.lemma_code_roundtrip();
        assert(self.wire()[0] == seq![self.pixel.code()][0]);
    }
}

#[derive(Clone, Copy, Debug, PartialEq, Eq, Structural)]
pub struct Clear {
    pub x: i16,
    pub y: i16,
    pub width: i16,
    pub height: i16,
    pub pixel: Pixel,
}

impl Clear {
    pub fn new() -> (r: Clear)
        ensures
            r.x == 0,
            r.y == 0,
            r.width == 0,
            r.height == 0,
            r.pixel == Pixel::White,
    {
        Clear {
            x: 0,
            y: 0,
            width: 0,
            height: 0,
            pixel: Pixel::White,
        }
    }

    /// Exact on-wire size of the payload.
    pub open spec fn spec_size() -> usize {
        9
    }

    pub fn size() -> (r: usize)
        ensures
            r == Clear::spec_size(),
    {
        9
    }

    /// The bytes this value puts on the wire.
    pub open spec fn wire(self) -> Seq<u8> {
        spec_i16_to_le_bytes(self.x) + spec_i16_to_le_bytes(self.y) + spec_i16_to_le_bytes(self.width) + spec_i16_to_le_bytes(self.height) + seq![self.pixel.code()]
    }

    /// Whether `self` is exactly what the payload bytes `s` decode to.
    pub open spec fn decoded(self, s: Seq<u8>) -> bool {
        self == Clear::decode(s)
    }

    /// The value a `spec_size()`-byte payload decodes to.
    pub open spec fn decode(s: Seq<u8>) -> Clear {
        Clear {
            x: spec_i16_from_le_bytes(s.subrange(0, 2)),
            y: spec_i16_from_le_bytes(s.subrange(2, 4)),
            width: spec_i16_from_le_bytes(s.subrange(4, 6)),
            height: spec_i16_from_le_bytes(s.subrange(6, 8)),
            pixel: Pixel::spec_from_u8(s[8]),
        }
    }

    pub fn parse(slice_data: &[u8]) -> (r: Result<Clear, &'static str>)
        ensures
            slice_data@.len() == Clear::spec_size() ==> (r matches Ok(v) && v == Clear::decode(
                slice_data@,
            )),
            slice_data@.len() != Clear::spec_size() ==> (r matches Err(_)),
    {
        if slice_data.len() == Clear::size() {
            let mut ext: Extractor = Extractor::from_slice(slice_data);
            let x = ext.get_i16();
            let y = ext.get_i16();
            let width = ext.get_i16();
            let height = ext.get_i16();
            let pixel = Pixel::from_u8(ext.get_u8());
            Ok(Clear { x, y, width, height, pixel })
        } else {
            Err("Wrong length")
        }
    }

}

impl Clear {
    pub fn to_vec(&self) -> (r: Vec<u8>)
        ensures
            r@ == self.wire(),
            r@.len() == Clear::spec_size(),
    {
        let mut vec_data: Vec<u8> = Vec::new();
        add_i16(&mut vec_data, self.x);
        add_i16(&mut vec_data, self.y);
        add_i16(&mut vec_data, self.width);
        add_i16(&mut vec_data, self.height);
        add_u8(&mut vec_data, self.pixel.to_u8());
        proof {
            self.lemma_wire_len();
            assert(vec_data@ =~= self.wire());
        }
        vec_data
    }

    pub proof fn lemma_wire_len(self)
        ensures
            self.wire().len() == Clear::spec_size(),
    {
        lemma_i16_le_bytes_roundtrip(self.x);
        lemma_i16_le_bytes_roundtrip(self.y);
        lemma_i16_le_bytes_roundtrip(self.width);
        lemma_i16_le_bytes_roundtrip(self.height);
    }

    /// Decoding the wire image of a value gives the value back.
    pub proof fn lemma_wire_roundtrip(self)
        ensures
            self.wire().len() == Clear::spec_size(),
            Clear::decode(self.wire()) == self,
    {
        lemma_i16_le_bytes_roundtrip(self.x);
        lemma_i16_le_bytes_roundtrip(self.y);
        lemma_i16_le_bytes_roundtrip(self.width);
        lemma_i16_le_bytes_roundtrip(self.height);
        self.pixel.lemma_code_roundtrip();
        assert(self.wire().subrange(0, 2) =~= spec_i16_to_le_bytes(self.x));
        assert(self.wire().subrange(2, 4) =~= spec_i16_to_le_bytes(self.y));
        assert(self.wire().subrange(4, 6) =~= spec_i16_to_le_bytes(self.width));
        assert(self.wire().subrange(6, 8) =~= spec_i16_to_le_bytes(self.height));
        assert(self.wire()[8] == seq![self.pixel.code()][0]);
    }
}

#[derive(Clone, Copy, Debug, PartialEq, Eq, Structural)]
pub struct Invert {
    pub x: i16,
    pub y: i16,
    pub width: i16,
    pub height: i16,
}

impl Invert {
    pub fn new() -> (r: Invert)
        ensures
            r.x == 0,
            r.y == 0,
            r.width == 0,
            r.height == 0,
    {
        Invert {
            x: 0,
            y: 0,
            width: 0,
            height: 0,
        }
    }

    /// Exact on-wire size of the payload.
    pub open spec fn spec_size() -> usize {
        8
    }

    pub fn size() -> (r: usize)
        ensures
            r == Invert::spec_size(),
    {
        8
    }

    /// The bytes this value puts on the wire.
    pub open spec fn wire(self) -> Seq<u8> {
        spec_i16_to_le_bytes(self.x) + spec_i16_to_le_bytes(self.y) + spec_i16_to_le_bytes(self.width) + spec_i16_to_le_bytes(self.height)
    }

    /// Whether `self` is exactly what the payload bytes `s` decode to.
    pub open spec fn decoded(self, s: Seq<u8>) -> bool {
        self == Invert::decode(s)
    }

    /// The value a `spec_size()`-byte payload decodes to.
    pub open spec fn decode(s: Seq<u8>) -> Invert {
        Invert {
            x: spec_i16_from_le_bytes(s.subrange(0, 2)),
            y: spec_i16_from_le_bytes(s.subrange(2, 4)),
            width: spec_i16_from_le_bytes(s.subrange(4, 6)),
            height: spec_i16_from_le_bytes(s.subrange(6, 8)),
        }
    }

    pub fn parse(slice_data: &[u8]) -> (r: Result<Invert, &'static str>)
        ensures
            slice_data@.len() == Invert::spec_size() ==> (r matches Ok(v) && v == Invert::decode(
                slice_data@,
            )),
            slice_data@.len() != Invert::spec_size() ==> (r matches Err(_)),
    {
        if slice_data.len() == Invert::size() {
            let mut ext: Extractor = Extractor::from_slice(slice_data);
            let x = ext.get_i16();
            let y = ext.get_i16();
            let width = ext.get_i16();
            let height = ext.get_i16();
            Ok(Invert { x, y, width, height })
        } else {
            Err("Wrong length")
        }
    }

}

impl Invert {
    pub fn to_vec(&self) -> (r: Vec<u8>)
        ensures
            r@ == self.wire(),
            r@.len() == Invert::spec_size(),
    {
        let mut vec_data: Vec<u8> = Vec::new();
        add_i16(&mut vec_data, self.x);
        add_i16(&mut vec_data, self.y);
        add_i16(&mut vec_data, self.width);
        add_i16(&mut vec_data, self.height);
        proof {
            self.lemma_wire_len();
            assert(vec_data@ =~= self.wire());
        }
        vec_data
    }

    pub proof fn lemma_wire_len(self)
        ensures
            self.wire().len() == Invert::spec_size(),
    {
        lemma_i16_le_bytes_roundtrip(self.x);
        lemma_i16_le_bytes_roundtrip(self.y);
        lemma_i16_le_bytes_roundtrip(self.width);
        lemma_i16_le_bytes_roundtrip(self.height);
    }

    /// Decoding the wire image of a value gives the value back.
    pub proof fn lemma_wire_roundtrip(self)
        ensures
            self.wire().len() == Invert::spec_size(),
            Invert::decode(self.wire()) == self,
    {
        lemma_i16_le_bytes_roundtrip(self.x);
        lemma_i16_le_bytes_roundtrip(self.y);
        lemma_i16_le_bytes_roundtrip(self.width);
        lemma_i16_le_bytes_roundtrip(self.height);
        assert(self.wire().subrange(0, 2) =~= spec_i16_to_le_bytes(self.x));
        assert(self.wire().subrange(2, 4) =~= spec_i16_to_le_bytes(self.y));
        assert(self.wire().subrange(4, 6) =~= spec_i16_to_le_bytes(self.width));
        assert(self.wire().subrange(6, 8) =~= spec_i16_to_le_bytes(self.height));
    }
}

#[derive(Clone, Copy, Debug, PartialEq, Eq, Structural)]
pub struct DrawPoint {
    pub x: i16,
    pub y: i16,
    pub pixel: Pixel,
}

impl DrawPoint {
    pub fn new() -> (r: DrawPoint)
        ensures
            r.x == 0,
            r.y == 0,
            r.pixel == Pixel::White,
    {
        DrawPoint {
            x: 0,
            y: 0,
            pixel: Pixel::White,
        }
    }

    /// Exact on-wire size of the payload.
    pub open spec fn spec_size() -> usize {
        5
    }

    pub fn size() -> (r: usize)
        ensures
            r == DrawPoint::spec_size(),
    {
        5
    }

    /// The bytes this value puts on the wire.
    pub open spec fn wire(self) -> Seq<u8> {
        spec_i16_to_le_bytes(self.x) + spec_i16_to_le_bytes(self.y) + seq![self.pixel.code()]
    }

    /// Whether `self` is exactly what the payload bytes `s` decode to.
    pub open spec fn decoded(self, s: Seq<u8>) -> bool {
        self == DrawPoint::decode(s)
    }

    /// The value a `spec_size()`-byte payload decodes to.
    pub open spec fn decode(s: Seq<u8>) -> DrawPoint {
        DrawPoint {
            x: spec_i16_from_le_bytes(s.subrange(0, 2)),
            y: spec_i16_from_le_bytes(s.subrange(2, 4)),
            pixel: Pixel::spec_from_u8(s[4]),
        }
    }

    pub fn parse(slice_data: &[u8]) -> (r: Result<DrawPoint, &'static str>)
        ensures
            slice_data@.len() == DrawPoint::spec_size() ==> (r matches Ok(v) && v == DrawPoint::decode(
                slice_data@,
            )),
            slice_data@.len() != DrawPoint::spec_size() ==> (r matches Err(_)),
    {
        if slice_data.len() == DrawPoint::size() {
            let mut ext: Extractor = Extractor::from_slice(slice_data);
            let x = ext.get_i16();
            let y = ext.get_i16();
            let pixel = Pixel::from_u8(ext.get_u8());
            Ok(DrawPoint { x, y, pixel })
        } else {
            Err("Wrong length")
        }
    }

}

impl DrawPoint {
    pub fn to_vec(&self) -> (r: Vec<u8>)
        ensures
            r@ == self.wire(),
            r@.len() == DrawPoint::spec_size(),
    {
        let mut vec_data: Vec<u8> = Vec::new();
        add_i16(&mut vec_data, self.x);
        add_i16(&mut vec_data, self.y);
        add_u8(&mut vec_data, self.pixel.to_u8());
        proof {
            self.lemma_wire_len();
            assert(vec_data@ =~= self.wire());
        }
        vec_data
    }

    pub proof fn lemma_wire_len(self)
        ensures
            self.wire().len() == DrawPoint::spec_size(),
    {
        lemma_i16_le_bytes_roundtrip(self.x);
        lemma_i16_le_bytes_roundtrip(self.y);
    }

    /// Decoding the wire image of a value gives the value back.
    pub proof fn lemma_wire_roundtrip(self)
        ensures
            self.wire().len() == DrawPoint::spec_size(),
            DrawPoint::decode(self.wire()) == self,
    {
        lemma_i16_le_bytes_roundtrip(self.x);
        lemma_i16_le_bytes_roundtrip(self.y);
        self.pixel.lemma_code_roundtrip();
        assert(self.wire().subrange(0, 2) =~= spec_i16_to_le_bytes(self.x));
        assert(self.wire().subrange(2, 4) =~= spec_i16_to_le_bytes(self.y));
        assert(self.wire()[4] == seq![self.pixel.code()][0]);
    }
}

#[derive(Clone, Copy, Debug, PartialEq, Eq, Structural)]
pub struct DrawLine {
    pub x1: i16,
    pub y1: i16,
    pub x2: i16,
    pub y2: i16,
    pub pixel: Pixel,
    pub line: Line,
}

impl DrawLine {
    pub fn new() -> (r: DrawLine)
        ensures
            r.x1 == 0,
            r.y1 == 0,
            r.x2 == 0,
            r.y2 == 0,
            r.pixel == Pixel::White,
            r.line == Line::Solid,
    {
        DrawLine {
            x1: 0,
            y1: 0,
            x2: 0,
            y2: 0,
            pixel: Pixel::White,
            line: Line::Solid,
        }
    }

    /// Exact on-wire size of the payload.
    pub open spec fn spec_size() -> usize {
        10
    }

    pub fn size() -> (r: usize)
        ensures
            r == DrawLine::spec_size(),
    {
        10
    }

    /// The bytes this value puts on the wire.
    pub open spec fn wire(self) -> Seq<u8> {
        spec_i16_to_le_bytes(self.x1) + spec_i16_to_le_bytes(self.y1) + spec_i16_to_le_bytes(self.x2) + spec_i16_to_le_bytes(self.y2) + seq![self.pixel.code()] + seq![self.line.code()]
    }

    /// Whether `self` is exactly what the payload bytes `s` decode to.
    pub open spec fn decoded(self, s: Seq<u8>) -> bool {
        self == DrawLine::decode(s)
    }

    /// The value a `spec_size()`-byte payload decodes to.
    pub open spec fn decode(s: Seq<u8>) -> DrawLine {
        DrawLine {
            x1: spec_i16_from_le_bytes(s.subrange(0, 2)),
            y1: spec_i16_from_le_bytes(s.subrange(2, 4)),
            x2: spec_i16_from_le_bytes(s.subrange(4, 6)),
            y2: spec_i16_from_le_bytes(s.subrange(6, 8)),
            pixel: Pixel::spec_from_u8(s[8]),
            line: Line::spec_from_u8(s[9]),
        }
    }

    pub fn parse(slice_data: &[u8]) -> (r: Result<DrawLine, &'static str>)
        ensures
            slice_data@.len() == DrawLine::spec_size() ==> (r matches Ok(v) && v == DrawLine::decode(
                slice_data@,
            )),
            slice_data@.len() != DrawLine::spec_size() ==> (r matches Err(_)),
    {
        if slice_data.len() == DrawLine::size() {
            let mut ext: Extractor = Extractor::from_slice(slice_data);
            let x1 = ext.get_i16();
            let y1 = ext.get_i16();
            let x2 = ext.get_i16();
            let y2 = ext.get_i16();
            let pixel = Pixel::from_u8(ext.get_u8());
            let line = Line::from_u8(ext.get_u8());
            Ok(DrawLine { x1, y1, x2, y2, pixel, line })
        } else {
            Err("Wrong length")
        }
    }

}

impl DrawLine {
    pub fn to_vec(&self) -> (r: Vec<u8>)
        ensures
            r@ == self.wire(),
            r@.len() == DrawLine::spec_size(),
    {
        let mut vec_data: Vec<u8> = Vec::new();
        add_i16(&mut vec_data, self.x1);
        add_i16(&mut vec_data, self.y1);
        add_i16(&mut vec_data, self.x2);
        add_i16(&mut vec_data, self.y2);
        add_u8(&mut vec_data, self.pixel.to_u8());
        add_u8(&mut vec_data, self.line.to_u8());
        proof {
            self.lemma_wire_len();
            assert(vec_data@ =~= self.wire());
        }
        vec_data
    }

    pub proof fn lemma_wire_len(self)
        ensures
            self.wire().len() == DrawLine::spec_size(),
    {
        lemma_i16_le_bytes_roundtrip(self.x1);
        lemma_i16_le_bytes_roundtrip(self.y1);
        lemma_i16_le_bytes_roundtrip(self.x2);
        lemma_i16_le_bytes_roundtrip(self.y2);
    }

    /// Decoding the wire image of a value gives the value back.
    pub proof fn lemma_wire_roundtrip(self)
        ensures
            self.wire().len() == DrawLine::spec_size(),
            DrawLine::decode(self.wire()) == self,
    {
        lemma_i16_le_bytes_roundtrip(self.x1);
        lemma_i16_le_bytes_roundtrip(self.y1);
        lemma_i16_le_bytes_roundtrip(self.x2);
        lemma_i16_le_bytes_roundtrip(self.y2);
        self.pixel.lemma_code_roundtrip();
        self.line.lemma_code_roundtrip();
        assert(self.wire().subrange(0, 2) =~= spec_i16_to_le_bytes(self.x1));
        assert(self.wire().subrange(2, 4) =~= spec_i16_to_le_bytes(self.y1));
        assert(self.wire().subrange(4, 6) =~= spec_i16_to_le_bytes(self.x2));
        assert(self.wire().subrange(6, 8) =~= spec_i16_to_le_bytes(self.y2));
        assert(self.wire()[8] == seq![self.pixel.code()][0]);
        assert(self.wire()[9] == seq![self.line.code()][0]);
    }
}

#[derive(Clone, Copy, Debug, PartialEq, Eq, Structural)]
pub struct DrawRect {
    pub x: i16,
    pub y: i16,
    pub width: i16,
    pub height: i16,
    pub pixel: Pixel,
    pub fill: bool,
    pub line: Line,
}

impl DrawRect {
    pub fn new() -> (r: DrawRect)
        ensures
            r.x == 0,
            r.y == 0,
            r.width == 0,
            r.height == 0,
            r.pixel == Pixel::White,
            r.fill == false,
            r.line == Line::Solid,
    {
        DrawRect {
            x: 0,
            y: 0,
            width: 0,
            height: 0,
            pixel: Pixel::White,
            fill: false,
            line: Line::Solid,
        }
    }

    /// Exact on-wire size of the payload.
    pub open spec fn spec_size() -> usize {
        11
    }

    pub fn size() -> (r: usize)
        ensures
            r == DrawRect::spec_size(),
    {
        11
    }

    /// The bytes this value puts on the wire.
    pub open spec fn wire(self) -> Seq<u8> {
        spec_i16_to_le_bytes(self.x) + spec_i16_to_le_bytes(self.y) + spec_i16_to_le_bytes(self.width) + spec_i16_to_le_bytes(self.height) + seq![self.pixel.code()] + seq![spec_bool_to_byte(self.fill)] + seq![self.line.code()]
    }

    /// Whether `self` is exactly what the payload bytes `s` decode to.
    pub open spec fn decoded(self, s: Seq<u8>) -> bool {
        self == DrawRect::decode(s)
    }

    /// The value a `spec_size()`-byte payload decodes to.
    pub open spec fn decode(s: Seq<u8>) -> DrawRect {
        DrawRect {
            x: spec_i16_from_le_bytes(s.subrange(0, 2)),
            y: spec_i16_from_le_bytes(s.subrange(2, 4)),
            width: spec_i16_from_le_bytes(s.subrange(4, 6)),
            height: spec_i16_from_le_bytes(s.subrange(6, 8)),
            pixel: Pixel::spec_from_u8(s[8]),
            fill: spec_bool_from_byte(s[9]),
            line: Line::spec_from_u8(s[10]),
        }
    }

    pub fn parse(slice_data: &[u8]) -> (r: Result<DrawRect, &'static str>)
        ensures
            slice_data@.len() == DrawRect::spec_size() ==> (r matches Ok(v) && v == DrawRect::decode(
                slice_data@,
            )),
            slice_data@.len() != DrawRect::spec_size() ==> (r matches Err(_)),
    {
        if slice_data.len() == DrawRect::size() {
            let mut ext: Extractor = Extractor::from_slice(slice_data);
            let x = ext.get_i16();
            let y = ext.get_i16();
            let width = ext.get_i16();
            let height = ext.get_i16();
            let pixel = Pixel::from_u8(ext.get_u8());
            let fill = ext.get_u8() != 0;
            let line = Line::from_u8(ext.get_u8());
            Ok(DrawRect { x, y, width, height, pixel, fill, line })
        } else {
            Err("Wrong length")
        }
    }

}

impl DrawRect {
    pub fn to_vec(&self) -> (r: Vec<u8>)
        ensures
            r@ == self.wire(),
            r@.len() == DrawRect::spec_size(),
    {
        let mut vec_data: Vec<u8> = Vec::new();
        add_i16(&mut vec_data, self.x);
        add_i16(&mut vec_data, self.y);
        add_i16(&mut vec_data, self.width);
        add_i16(&mut vec_data, self.height);
        add_u8(&mut vec_data, self.pixel.to_u8());
        add_u8(&mut vec_data, if self.fill { 1 } else { 0 });
        add_u8(&mut vec_data, self.line.to_u8());
        proof {
            self.lemma_wire_len();
            assert(vec_data@ =~= self.wire());
        }
        vec_data
    }

    pub proof fn lemma_wire_len(self)
        ensures
            self.wire().len() == DrawRect::spec_size(),
    {
        lemma_i16_le_bytes_roundtrip(self.x);
        lemma_i16_le_bytes_roundtrip(self.y);
        lemma_i16_le_bytes_roundtrip(self.width);
        lemma_i16_le_bytes_roundtrip(self.height);
    }

    /// Decoding the wire image of a value gives the value back.
    pub proof fn lemma_wire_roundtrip(self)
        ensures
            self.wire().len() == DrawRect::spec_size(),
            DrawRect::decode(self.wire()) == self,
    {
        lemma_i16_le_bytes_roundtrip(self.x);
        lemma_i16_le_bytes_roundtrip(self.y);
        lemma_i16_le_bytes_roundtrip(self.width);
        lemma_i16_le_bytes_roundtrip(self.height);
        self.pixel.lemma_code_roundtrip();
        self.line.lemma_code_roundtrip();
        assert(self.wire().subrange(0, 2) =~= spec_i16_to_le_bytes(self.x));
        assert(self.wire().subrange(2, 4) =~= spec_i16_to_le_bytes(self.y));
        assert(self.wire().subrange(4, 6) =~= spec_i16_to_le_bytes(self.width));
        assert(self.wire().subrange(6, 8) =~= spec_i16_to_le_bytes(self.height));
        assert(self.wire()[8] == seq![self.pixel.code()][0]);
        assert(self.wire()[9] == seq![spec_bool_to_byte(self.fill)][0]);
        assert(self.wire()[10] == seq![self.line.code()][0]);
    }
}

#[derive(Clone, Copy, Debug, PartialEq, Eq, Structural)]
pub struct DrawCircle {
    pub x: i16,
    pub y: i16,
    pub radius: i16,
    pub pixel: Pixel,
    pub fill: bool,
}

impl DrawCircle {
    pub fn new() -> (r: DrawCircle)
        ensures
            r.x == 0,
            r.y == 0,
            r.radius == 0,
            r.pixel == Pixel::White,
            r.fill == false,
    {
        DrawCircle {
            x: 0,
            y: 0,
            radius: 0,
            pixel: Pixel::White,
            fill: false,
        }
    }

    /// Exact on-wire size of the payload.
    pub open spec fn spec_size() -> usize {
        8
    }

    pub fn size() -> (r: usize)
        ensures
            r == DrawCircle::spec_size(),
    {
        8
    }

    /// The bytes this value puts on the wire.
    pub open spec fn wire(self) -> Seq<u8> {
        spec_i16_to_le_bytes(self.x) + spec_i16_to_le_bytes(self.y) + spec_i16_to_le_bytes(self.radius) + seq![self.pixel.code()] + seq![spec_bool_to_byte(self.fill)]
    }

    /// Whether `self` is exactly what the payload bytes `s` decode to.
    pub open spec fn decoded(self, s: Seq<u8>) -> bool {
        self == DrawCircle::decode(s)
    }

    /// The value a `spec_size()`-byte payload decodes to.
    pub open spec fn decode(s: Seq<u8>) -> DrawCircle {
        DrawCircle {
            x: spec_i16_from_le_bytes(s.subrange(0, 2)),
            y: spec_i16_from_le_bytes(s.subrange(2, 4)),
            radius: spec_i16_from_le_bytes(s.subrange(4, 6)),
            pixel: Pixel::spec_from_u8(s[6]),
            fill: spec_bool_from_byte(s[7]),
        }
    }

    pub fn parse(slice_data: &[u8]) -> (r: Result<DrawCircle, &'static str>)
        ensures
            slice_data@.len() == DrawCircle::spec_size() ==> (r matches Ok(v) && v == DrawCircle::decode(
                slice_data@,
            )),
            slice_data@.len() != DrawCircle::spec_size() ==> (r matches Err(_)),
    {
        if slice_data.len() == DrawCircle::size() {
            let mut ext: Extractor = Extractor::from_slice(slice_data);
            let x = ext.get_i16();
            let y = ext.get_i16();
            let radius = ext.get_i16();
            let pixel = Pixel::from_u8(ext.get_u8());
            let fill = ext.get_u8() != 0;
            Ok(DrawCircle { x, y, radius, pixel, fill })
        } else {
            Err("Wrong length")
        }
    }

}

impl DrawCircle {
    pub fn to_vec(&self) -> (r: Vec<u8>)
        ensures
            r@ == self.wire(),
            r@.len() == DrawCircle::spec_size(),
    {
        let mut vec_data: Vec<u8> = Vec::new();
        add_i16(&mut vec_data, self.x);
        add_i16(&mut vec_data, self.y);
        add_i16(&mut vec_data, self.radius);
        add_u8(&mut vec_data, self.pixel.to_u8());
        add_u8(&mut vec_data, if self.fill { 1 } else { 0 });
        proof {
            self.lemma_wire_len();
            assert(vec_data@ =~= self.wire());
        }
        vec_data
    }

    pub proof fn lemma_wire_len(self)
        ensures
            self.wire().len() == DrawCircle::spec_size(),
    {
        lemma_i16_le_bytes_roundtrip(self.x);
        lemma_i16_le_bytes_roundtrip(self.y);
        lemma_i16_le_bytes_roundtrip(self.radius);
    }

    /// Decoding the wire image of a value gives the value back.
    pub proof fn lemma_wire_roundtrip(self)
        ensures
            self.wire().len() == DrawCircle::spec_size(),
            DrawCircle::decode(self.wire()) == self,
    {
        lemma_i16_le_bytes_roundtrip(self.x);
        lemma_i16_le_bytes_roundtrip(self.y);
        lemma_i16_le_bytes_roundtrip(self.radius);
        self.pixel.lemma_code_roundtrip();
        assert(self.wire().subrange(0, 2) =~= spec_i16_to_le_bytes(self.x));
        assert(self.wire().subrange(2, 4) =~= spec_i16_to_le_bytes(self.y));
        assert(self.wire().subrange(4, 6) =~= spec_i16_to_le_bytes(self.radius));
        assert(self.wire()[6] == seq![self.pixel.code()][0]);
        assert(self.wire()[7] == seq![spec_bool_to_byte(self.fill)][0]);
    }
}

/// Text at a point; the trailing bytes carry the UTF-8 string with no terminator.
#[derive(Clone, Debug)]
pub struct DrawString {
    pub x: i16,
    pub y: i16,
    pub font: Font,
    pub pixel: Pixel,
    pub string: Vec<u8>,
}

impl DrawString {
    pub fn new() -> (r: DrawString)
        ensures
            r.x == 0,
            r.y == 0,
            r.font == Font::LM5x8,
            r.pixel == Pixel::White,
            r.string@.len() == 0,
    {
        DrawString {
            x: 0,
            y: 0,
            font: Font::LM5x8,
            pixel: Pixel::White,
            string: Vec::new(),
        }
    }

    /// Size of the fixed leading part of the payload.
    pub open spec fn spec_size() -> usize {
        6
    }

    pub fn size() -> (r: usize)
        ensures
            r == DrawString::spec_size(),
    {
        6
    }

    /// The bytes this value puts on the wire.
    pub open spec fn wire(self) -> Seq<u8> {
        spec_i16_to_le_bytes(self.x) + spec_i16_to_le_bytes(self.y) + seq![self.font.code()] + seq![self.pixel.code()] + self.string@
    }

    /// Whether `self` is exactly what the payload bytes `s` decode to.
    pub open spec fn decoded(self, s: Seq<u8>) -> bool {
        &&& self.x == spec_i16_from_le_bytes(s.subrange(0, 2))
        &&& self.y == spec_i16_from_le_bytes(s.subrange(2, 4))
        &&& self.font == Font::spec_from_u8(s[4])
        &&& self.pixel == Pixel::spec_from_u8(s[5])
        &&& self.string@ == s.subrange(6, s.len() as int)
    }

    pub fn parse(slice_data: &[u8]) -> (r: Result<DrawString, &'static str>)
        ensures
            slice_data@.len() > DrawString::spec_size() ==> (r matches Ok(v) && {
                &&& v.x == spec_i16_from_le_bytes(slice_data@.subrange(0, 2))
                &&& v.y == spec_i16_from_le_bytes(slice_data@.subrange(2, 4))
                &&& v.font == Font::spec_from_u8(slice_data@[4])
                &&& v.pixel == Pixel::spec_from_u8(slice_data@[5])
                &&& v.string@ == slice_data@.subrange(6, slice_data@.len() as int)
            }),
            slice_data@.len() <= DrawString::spec_size() ==> (r matches Err(_)),
    {
        if slice_data.len() > DrawString::size() {
            let mut ext: Extractor = Extractor::from_slice(slice_data);
            let x = ext.get_i16();
            let y = ext.get_i16();
            let font = Font::from_u8(ext.get_u8());
            let pixel = Pixel::from_u8(ext.get_u8());
            let string: Vec<u8> = slice_to_vec(slice_subrange(
                slice_data,
                DrawString::size(),
                slice_data.len(),
            ));
            Ok(DrawString { x, y, font, pixel, string })
        } else {
            Err("Wrong length")
        }
    }

    /// Total on-wire length of the payload.
    pub fn get_length(&self) -> (r: usize)
        requires
            DrawString::spec_size() + self.string@.len() <= usize::MAX,
        ensures
            r == DrawString::spec_size() + self.string@.len(),
    {
        DrawString::size() + self.string.len()
    }

}

impl DrawString {
    pub fn to_vec(&self) -> (r: Vec<u8>)
        ensures
            r@ == self.wire(),
            r@.len() == DrawString::spec_size() + self.string@.len(),
    {
        let mut vec_data: Vec<u8> = Vec::new();
        add_i16(&mut vec_data, self.x);
        add_i16(&mut vec_data, self.y);
        add_u8(&mut vec_data, self.font.to_u8());
        add_u8(&mut vec_data, self.pixel.to_u8());
        add_slice(&mut vec_data, self.string.as_slice());
        proof {
            self.lemma_wire_len();
            assert(vec_data@ =~= self.wire());
        }
        vec_data
    }

    pub proof fn lemma_wire_len(self)
        ensures
            self.wire().len() == DrawString::spec_size() + self.string@.len(),
    {
        lemma_i16_le_bytes_roundtrip(self.x);
        lemma_i16_le_bytes_roundtrip(self.y);
    }

    /// Decoding the wire image of a value gives the value back.
    pub proof fn lemma_wire_roundtrip(self)
        ensures
            self.wire().len() == DrawString::spec_size() + self.string@.len(),
            spec_i16_from_le_bytes(self.wire().subrange(0, 2)) == self.x,
            spec_i16_from_le_bytes(self.wire().subrange(2, 4)) == self.y,
            Font::spec_from_u8(self.wire()[4]) == self.font,
            Pixel::spec_from_u8(self.wire()[5]) == self.pixel,
            self.wire().subrange(6, self.wire().len() as int) == self.string@,
    {
        lemma_i16_le_bytes_roundtrip(self.x);
        lemma_i16_le_bytes_roundtrip(self.y);
        self.font.lemma_code_roundtrip();
        self.pixel.lemma_code_roundtrip();
        assert(self.wire().subrange(0, 2) =~= spec_i16_to_le_bytes(self.x));
        assert(self.wire().subrange(2, 4) =~= spec_i16_to_le_bytes(self.y));
        assert(self.wire()[4] == seq![self.font.code()][0]);
        assert(self.wire()[5] == seq![self.pixel.code()][0]);
        assert(self.wire().subrange(6, self.wire().len() as int) =~= self.string@);
    }
}

/// Text aligned between two columns; the trailing bytes carry the UTF-8 string.
#[derive(Clone, Debug)]
pub struct DrawStringAlign {
    pub x_start: i16,
    pub x_end: i16,
    pub y: i16,
    pub align: Align,
    pub font: Font,
    pub pixel: Pixel,
    pub string: Vec<u8>,
}

impl DrawStringAlign {
    pub fn new() -> (r: DrawStringAlign)
        ensures
            r.x_start == 0,
            r.x_end == 0,
            r.y == 0,
            r.align == Align::Left,
            r.font == Font::LM5x8,
            r.pixel == Pixel::White,
            r.string@.len() == 0,
    {
        DrawStringAlign {
            x_start: 0,
            x_end: 0,
            y: 0,
            align: Align::Left,
            font: Font::LM5x8,
            pixel: Pixel::White,
            string: Vec::new(),
        }
    }

    /// Size of the fixed leading part of the payload.
    pub open spec fn spec_size() -> usize {
        9
    }

    pub fn size() -> (r: usize)
        ensures
            r == DrawStringAlign::spec_size(),
    {
        9
    }

    /// The bytes this value puts on the wire.
    pub open spec fn wire(self) -> Seq<u8> {
        spec_i16_to_le_bytes(self.x_start) + spec_i16_to_le_bytes(self.x_end) + spec_i16_to_le_bytes(self.y) + seq![self.align.code()] + seq![self.font.code()] + seq![self.pixel.code()] + self.string@
    }

    /// Whether `self` is exactly what the payload bytes `s` decode to.
    pub open spec fn decoded(self, s: Seq<u8>) -> bool {
        &&& self.x_start == spec_i16_from_le_bytes(s.subrange(0, 2))
        &&& self.x_end == spec_i16_from_le_bytes(s.subrange(2, 4))
        &&& self.y == spec_i16_from_le_bytes(s.subrange(4, 6))
        &&& self.align == Align::spec_from_u8(s[6])
        &&& self.font == Font::spec_from_u8(s[7])
        &&& self.pixel == Pixel::spec_from_u8(s[8])
        &&& self.string@ == s.subrange(9, s.len() as int)
    }

    pub fn parse(slice_data: &[u8]) -> (r: Result<DrawStringAlign, &'static str>)
        ensures
            slice_data@.len() > DrawStringAlign::spec_size() ==> (r matches Ok(v) && {
                &&& v.x_start == spec_i16_from_le_bytes(slice_data@.subrange(0, 2))
                &&& v.x_end == spec_i16_from_le_bytes(slice_data@.subrange(2, 4))
                &&& v.y == spec_i16_from_le_bytes(slice_data@.subrange(4, 6))
                &&& v.align == Align::spec_from_u8(slice_data@[6])
                &&& v.font == Font::spec_from_u8(slice_data@[7])
                &&& v.pixel == Pixel::spec_from_u8(slice_data@[8])
                &&& v.string@ == slice_data@.subrange(9, slice_data@.len() as int)
            }),
            slice_data@.len() <= DrawStringAlign::spec_size() ==> (r matches Err(_)),
    {
        if slice_data.len() > DrawStringAlign::size() {
            let mut ext: Extractor = Extractor::from_slice(slice_data);
            let x_start = ext.get_i16();
            let x_end = ext.get_i16();
            let y = ext.get_i16();
            let align = Align::from_u8(ext.get_u8());
            let font = Font::from_u8(ext.get_u8());
            let pixel = Pixel::from_u8(ext.get_u8());
            let string: Vec<u8> = slice_to_vec(slice_subrange(
                slice_data,
                DrawStringAlign::size(),
                slice_data.len(),
            ));
            Ok(DrawStringAlign { x_start, x_end, y, align, font, pixel, string })
        } else {
            Err("Wrong length")
        }
    }

    /// Total on-wire length of the payload.
    pub fn get_length(&self) -> (r: usize)
        requires
            DrawStringAlign::spec_size() + self.string@.len() <= usize::MAX,
        ensures
            r == DrawStringAlign::spec_size() + self.string@.len(),
    {
        DrawStringAlign::size() + self.string.len()
    }

}

impl DrawStringAlign {
    pub fn to_vec(&self) -> (r: Vec<u8>)
        ensures
            r@ == self.wire(),
            r@.len() == DrawStringAlign::spec_size() + self.string@.len(),
    {
        let mut vec_data: Vec<u8> = Vec::new();
        add_i16(&mut vec_data, self.x_start);
        add_i16(&mut vec_data, self.x_end);
        add_i16(&mut vec_data, self.y);
        add_u8(&mut vec_data, self.align.to_u8());
        add_u8(&mut vec_data, self.font.to_u8());
        add_u8(&mut vec_data, self.pixel.to_u8());
        add_slice(&mut vec_data, self.string.as_slice());
        proof {
            self.lemma_wire_len();
            assert(vec_data@ =~= self.wire());
        }
        vec_data
    }

    pub proof fn lemma_wire_len(self)
        ensures
            self.wire().len() == DrawStringAlign::spec_size() + self.string@.len(),
    {
        lemma_i16_le_bytes_roundtrip(self.x_start);
        lemma_i16_le_bytes_roundtrip(self.x_end);
        lemma_i16_le_bytes_roundtrip(self.y);
    }

    /// Decoding the wire image of a value gives the value back.
    pub proof fn lemma_wire_roundtrip(self)
        ensures
            self.wire().len() == DrawStringAlign::spec_size() + self.string@.len(),
            spec_i16_from_le_bytes(self.wire().subrange(0, 2)) == self.x_start,
            spec_i16_from_le_bytes(self.wire().subrange(2, 4)) == self.x_end,
            spec_i16_from_le_bytes(self.wire().subrange(4, 6)) == self.y,
            Align::spec_from_u8(self.wire()[6]) == self.align,
            Font::spec_from_u8(self.wire()[7]) == self.font,
            Pixel::spec_from_u8(self.wire()[8]) == self.pixel,
            self.wire().subrange(9, self.wire().len() as int) == self.string@,
    {
        lemma_i16_le_bytes_roundtrip(self.x_start);
        lemma_i16_le_bytes_roundtrip(self.x_end);
        lemma_i16_le_bytes_roundtrip(self.y);
        self.align.lemma_code_roundtrip();
        self.font.lemma_code_roundtrip();
        self.pixel.lemma_code_roundtrip();
        assert(self.wire().subrange(0, 2) =~= spec_i16_to_le_bytes(self.x_start));
        assert(self.wire().subrange(2, 4) =~= spec_i16_to_le_bytes(self.x_end));
        assert(self.wire().subrange(4, 6) =~= spec_i16_to_le_bytes(self.y));
        assert(self.wire()[6] == seq![self.align.code()][0]);
        assert(self.wire()[7] == seq![self.font.code()][0]);
        assert(self.wire()[8] == seq![self.pixel.code()][0]);
        assert(self.wire().subrange(9, self.wire().len() as int) =~= self.string@);
    }
}

/// A packed 1-bit image; the trailing bytes carry the pixel rows.
#[derive(Clone, Debug)]
pub struct DrawImage {
    pub x: i16,
    pub y: i16,
    pub width: i16,
    pub height: i16,
    pub vec_image: Vec<u8>,
}

impl DrawImage {
    pub fn new() -> (r: DrawImage)
        ensures
            r.x == 0,
            r.y == 0,
            r.width == 0,
            r.height == 0,
            r.vec_image@.len() == 0,
    {
        DrawImage {
            x: 0,
            y: 0,
            width: 0,
            height: 0,
            vec_image: Vec::new(),
        }
    }

    /// Size of the fixed leading part of the payload.
    pub open spec fn spec_size() -> usize {
        8
    }

    pub fn size() -> (r: usize)
        ensures
            r == DrawImage::spec_size(),
    {
        8
    }

    /// The bytes this value puts on the wire.
    pub open spec fn wire(self) -> Seq<u8> {
        spec_i16_to_le_bytes(self.x) + spec_i16_to_le_bytes(self.y) + spec_i16_to_le_bytes(self.width) + spec_i16_to_le_bytes(self.height) + self.vec_image@
    }

    /// Whether `self` is exactly what the payload bytes `s` decode to.
    pub open spec fn decoded(self, s: Seq<u8>) -> bool {
        &&& self.x == spec_i16_from_le_bytes(s.subrange(0, 2))
        &&& self.y == spec_i16_from_le_bytes(s.subrange(2, 4))
        &&& self.width == spec_i16_from_le_bytes(s.subrange(4, 6))
        &&& self.height == spec_i16_from_le_bytes(s.subrange(6, 8))
        &&& self.vec_image@ == s.subrange(8, s.len() as int)
    }

    pub fn parse(slice_data: &[u8]) -> (r: Result<DrawImage, &'static str>)
        ensures
            slice_data@.len() > DrawImage::spec_size() ==> (r matches Ok(v) && {
                &&& v.x == spec_i16_from_le_bytes(slice_data@.subrange(0, 2))
                &&& v.y == spec_i16_from_le_bytes(slice_data@.subrange(2, 4))
                &&& v.width == spec_i16_from_le_bytes(slice_data@.subrange(4, 6))
                &&& v.height == spec_i16_from_le_bytes(slice_data@.subrange(6, 8))
                &&& v.vec_image@ == slice_data@.subrange(8, slice_data@.len() as int)
            }),
            slice_data@.len() <= DrawImage::spec_size() ==> (r matches Err(_)),
    {
        if slice_data.len() > DrawImage::size() {
            let mut ext: Extractor = Extractor::from_slice(slice_data);
            let x = ext.get_i16();
            let y = ext.get_i16();
            let width = ext.get_i16();
            let height = ext.get_i16();
            let vec_image: Vec<u8> = slice_to_vec(slice_subrange(
                slice_data,
                DrawImage::size(),
                slice_data.len(),
            ));
            Ok(DrawImage { x, y, width, height, vec_image })
        } else {
            Err("Wrong length")
        }
    }

    /// Total on-wire length of the payload.
    pub fn get_length(&self) -> (r: usize)
        requires
            DrawImage::spec_size() + self.vec_image@.len() <= usize::MAX,
        ensures
            r == DrawImage::spec_size() + self.vec_image@.len(),
    {
        DrawImage::size() + self.vec_image.len()
    }

}

impl DrawImage {
    pub fn to_vec(&self) -> (r: Vec<u8>)
        ensures
            r@ == self.wire(),
            r@.len() == DrawImage::spec_size() + self.vec_image@.len(),
    {
        let mut vec_data: Vec<u8> = Vec::new();
        add_i16(&mut vec_data, self.x);
        add_i16(&mut vec_data, self.y);
        add_i16(&mut vec_data, self.width);
        add_i16(&mut vec_data, self.height);
        add_slice(&mut vec_data, self.vec_image.as_slice());
        proof {
            self.lemma_wire_len();
            assert(vec_data@ =~= self.wire());
        }
        vec_data
    }

    pub proof fn lemma_wire_len(self)
        ensures
            self.wire().len() == DrawImage::spec_size() + self.vec_image@.len(),
    {
        lemma_i16_le_bytes_roundtrip(self.x);
        lemma_i16_le_bytes_roundtrip(self.y);
        lemma_i16_le_bytes_roundtrip(self.width);
        lemma_i16_le_bytes_roundtrip(self.height);
    }

    /// Decoding the wire image of a value gives the value back.
    pub proof fn lemma_wire_roundtrip(self)
        ensures
            self.wire().len() == DrawImage::spec_size() + self.vec_image@.len(),
            spec_i16_from_le_bytes(self.wire().subrange(0, 2)) == self.x,
            spec_i16_from_le_bytes(self.wire().subrange(2, 4)) == self.y,
            spec_i16_from_le_bytes(self.wire().subrange(4, 6)) == self.width,
            spec_i16_from_le_bytes(self.wire().subrange(6, 8)) == self.height,
            self.wire().subrange(8, self.wire().len() as int) == self.vec_image@,
    {
        lemma_i16_le_bytes_roundtrip(self.x);
        lemma_i16_le_bytes_roundtrip(self.y);
        lemma_i16_le_bytes_roundtrip(self.width);
        lemma_i16_le_bytes_roundtrip(self.height);
        assert(self.wire().subrange(0, 2) =~= spec_i16_to_le_bytes(self.x));
        assert(self.wire().subrange(2, 4) =~= spec_i16_to_le_bytes(self.y));
        assert(self.wire().subrange(4, 6) =~= spec_i16_to_le_bytes(self.width));
        assert(self.wire().subrange(6, 8) =~= spec_i16_to_le_bytes(self.height));
        assert(self.wire().subrange(8, self.wire().len() as int) =~= self.vec_image@);
    }
}

} // verus!
