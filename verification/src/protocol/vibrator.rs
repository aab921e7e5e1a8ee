//! Vibrator payloads: on/off cadence and total time.

use crate::communication::extractor::Extractor;
use crate::communication::serializer::{add_u16, add_u8};
use crate::wire::{lemma_u16_le_bytes_roundtrip};
use vstd::bytes::*;
use vstd::prelude::*;


verus! {

#[derive(Clone, Copy, Debug, PartialEq, Eq, Structural)]
pub enum Mode {
    Stop,
    Instantly,
    Continually,
}

impl Mode {
    /// The wire code of the variant.
    pub open spec fn code(self) -> u8 {
        match self {
            Mode::Stop => 0x00,
            Mode::Instantly => 0x01,
            Mode::Continually => 0x02,
        }
    }

    /// Total decoding: an unknown code falls back to `Mode::Stop`.
    pub open spec fn spec_from_u8(code: u8) -> Mode {
        if code == 0x00 {
            Mode::Stop
        } else if code == 0x01 {
            Mode::Instantly
        } else if code == 0x02 {
            Mode::Continually
        } else {
            Mode::Stop
        }
    }

    /// Whether the code denotes a variant of its own.
    pub open spec fn spec_is_defined(code: u8) -> bool {
        Mode::spec_from_u8(code).code() == code
    }

    pub fn from_u8(data_u8: u8) -> (r: Mode)
        ensures
            r == Mode::spec_from_u8(data_u8),
    {
        if data_u8 == 0x00 {
            Mode::Stop
        } else if data_u8 == 0x01 {
            Mode::Instantly
        } else if data_u8 == 0x02 {
            Mode::Continually
        } else {
            Mode::Stop
        }
    }

    pub fn to_u8(self) -> (r: u8)
        ensures
            r == self.code(),
    {
        match self {
            Mode::Stop => 0x00,
            Mode::Instantly => 0x01,
            Mode::Continually => 0x02,
        }
    }

    /// Encoding a variant and decoding the code gives the variant back.
    pub proof fn lemma_code_roundtrip(self)
        ensures
            Mode::spec_from_u8(self.code()) == self,
    {
    }
}

#[derive(Clone, Copy, Debug, PartialEq, Eq, Structural)]
pub struct Vibrator {
    pub mode: Mode,
    pub on: u16,
    pub off: u16,
    pub time: u16,
}

impl Vibrator {
    pub fn new() -> (r: Vibrator)
        ensures
            r.mode == Mode::Instantly,
            r.on == 0,
            r.off == 0,
            r.time == 0,
    {
        Vibrator {
            mode: Mode::Instantly,
            on: 0,
            off: 0,
            time: 0,
        }
    }

    /// Exact on-wire size of the payload.
    pub open spec fn spec_size() -> usize {
        7
    }

    pub fn size() -> (r: usize)
        ensures
            r == Vibrator::spec_size(),
    {
        7
    }

    /// The bytes this value puts on the wire.
    pub open spec fn wire(self) -> Seq<u8> {
        seq![self.mode.code()] + spec_u16_to_le_bytes(self.on) + spec_u16_to_le_bytes(self.off) + spec_u16_to_le_bytes(self.time)
    }

    /// Whether `self` is exactly what the payload bytes `s` decode to.
    pub open spec fn decoded(self, s: Seq<u8>) -> bool {
        self == Vibrator::decode(s)
    }

    /// The value a `spec_size()`-byte payload decodes to.
    pub open spec fn decode(s: Seq<u8>) -> Vibrator {
        Vibrator {
            mode: Mode::spec_from_u8(s[0]),
            on: spec_u16_from_le_bytes(s.subrange(1, 3)),
            off: spec_u16_from_le_bytes(s.subrange(3, 5)),
            time: spec_u16_from_le_bytes(s.subrange(5, 7)),
        }
    }

    pub fn parse(slice_data: &[u8]) -> (r: Result<Vibrator, &'static str>)
        ensures
            slice_data@.len() == Vibrator::spec_size() ==> (r matches Ok(v) && v == Vibrator::decode(
                slice_data@,
            )),
            slice_data@.len() != Vibrator::spec_size() ==> (r matches Err(_)),
    {
        if slice_data.len() == Vibrator::size() {
            let mut ext: Extractor = Extractor::from_slice(slice_data);
            let mode = Mode::from_u8(ext.get_u8());
            let on = ext.get_u16();
            let off = ext.get_u16();
            let time = ext.get_u16();
            Ok(Vibrator { mode, on, off, time })
        } else {
            Err("Wrong length")
        }
    }

}

impl Vibrator {
    pub fn to_vec(&self) -> (r: Vec<u8>)
        ensures
            r@ == self.wire(),
            r@.len() == Vibrator::spec_size(),
    {
        let mut vec_data: Vec<u8> = Vec::new();
        add_u8(&mut vec_data, self.mode.to_u8());
        add_u16(&mut vec_data, self.on);
        add_u16(&mut vec_data, self.off);
        add_u16(&mut vec_data, self.time);
        proof {
            self.lemma_wire_len();
            assert(vec_data@ =~= self.wire());
        }
        vec_data
    }

    pub proof fn lemma_wire_len(self)
        ensures
            self.wire().len() == Vibrator::spec_size(),
    {
        lemma_u16_le_bytes_roundtrip(self.on);
        lemma_u16_le_bytes_roundtrip(self.off);
        lemma_u16_le_bytes_roundtrip(self.time);
    }

    /// Decoding the wire image of a value gives the value back.
    pub proof fn lemma_wire_roundtrip(self)
        ensures
            self.wire().len() == Vibrator::spec_size(),
            Vibrator::decode(self.wire()) == self,
    {
        self.mode.lemma_code_roundtrip();
        lemma_u16_le_bytes_roundtrip(self.on);
        lemma_u16_le_bytes_roundtrip(self.off);
        lemma_u16_le_bytes_roundtrip(self.time);
        assert(self.wire()[0] == seq![self.mode.code()][0]);
        assert(self.wire().subrange(1, 3) =~= spec_u16_to_le_bytes(self.on));
        assert(self.wire().subrange(3, 5) =~= spec_u16_to_le_bytes(self.off));
        assert(self.wire().subrange(5, 7) =~= spec_u16_to_le_bytes(self.time));
    }
}

} // verus!
