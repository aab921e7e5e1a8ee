//! Button payloads: which buttons and what happened to them.

use crate::communication::extractor::Extractor;
use crate::communication::serializer::{add_u16, add_u8};
use crate::wire::{lemma_u16_le_bytes_roundtrip};
use vstd::bytes::*;
use vstd::prelude::*;


verus! {

#[derive(Clone, Copy, Debug, PartialEq, Eq, Structural)]
pub enum Event {
    Nil,
    Down,
    Press,
    Up,
    EndContinuePress,
}

impl Event {
    /// The wire code of the variant.
    pub open spec fn code(self) -> u8 {
        match self {
            Event::Nil => 0x00,
            Event::Down => 0x01,
            Event::Press => 0x02,
            Event::Up => 0x03,
            Event::EndContinuePress => 0x04,
        }
    }

    /// Total decoding: an unknown code falls back to `Event::Nil`.
    pub open spec fn spec_from_u8(code: u8) -> Event {
        if code == 0x00 {
            Event::Nil
        } else if code == 0x01 {
            Event::Down
        } else if code == 0x02 {
            Event::Press
        } else if code == 0x03 {
            Event::Up
        } else if code == 0x04 {
            Event::EndContinuePress
        } else {
            Event::Nil
        }
    }

    /// Whether the code denotes a variant of its own.
    pub open spec fn spec_is_defined(code: u8) -> bool {
        Event::spec_from_u8(code).code() == code
    }

    pub fn from_u8(data_u8: u8) -> (r: Event)
        ensures
            r == Event::spec_from_u8(data_u8),
    {
        if data_u8 == 0x00 {
            Event::Nil
        } else if data_u8 == 0x01 {
            Event::Down
        } else if data_u8 == 0x02 {
            Event::Press
        } else if data_u8 == 0x03 {
            Event::Up
        } else if data_u8 == 0x04 {
            Event::EndContinuePress
        } else {
            Event::Nil
        }
    }

    pub fn to_u8(self) -> (r: u8)
        ensures
            r == self.code(),
    {
        match self {
            Event::Nil => 0x00,
            Event::Down => 0x01,
            Event::Press => 0x02,
            Event::Up => 0x03,
            Event::EndContinuePress => 0x04,
        }
    }

    /// Encoding a variant and decoding the code gives the variant back.
    pub proof fn lemma_code_roundtrip(self)
        ensures
            Event::spec_from_u8(self.code()) == self,
    {
    }
}

#[derive(Clone, Copy, Debug, PartialEq, Eq, Structural)]
pub struct Button {
    pub button: u16,
    pub event: Event,
}

impl Button {
    pub fn new() -> (r: Button)
        ensures
            r.button == 0,
            r.event == Event::Nil,
    {
        Button {
            button: 0,
            event: Event::Nil,
        }
    }

    /// Exact on-wire size of the payload.
    pub open spec fn spec_size() -> usize {
        3
    }

    pub fn size() -> (r: usize)
        ensures
            r == Button::spec_size(),
    {
        3
    }

    /// The bytes this value puts on the wire.
    pub open spec fn wire(self) -> Seq<u8> {
        spec_u16_to_le_bytes(self.button) + seq![self.event.code()]
    }

    /// Whether `self` is exactly what the payload bytes `s` decode to.
    pub open spec fn decoded(self, s: Seq<u8>) -> bool {
        self == Button::decode(s)
    }

    /// The value a `spec_size()`-byte payload decodes to.
    pub open spec fn decode(s: Seq<u8>) -> Button {
        Button {
            button: spec_u16_from_le_bytes(s.subrange(0, 2)),
            event: Event::spec_from_u8(s[2]),
        }
    }

    pub fn parse(slice_data: &[u8]) -> (r: Result<Button, &'static str>)
        ensures
            slice_data@.len() == Button::spec_size() ==> (r matches Ok(v) && v == Button::decode(
                slice_data@,
            )),
            slice_data@.len() != Button::spec_size() ==> (r matches Err(_)),
    {
        if slice_data.len() == Button::size() {
            let mut ext: Extractor = Extractor::from_slice(slice_data);
            let button = ext.get_u16();
            let event = Event::from_u8(ext.get_u8());
            Ok(Button { button, event })
        } else {
            Err("Wrong length")
        }
    }

}

impl Button {
    pub fn to_vec(&self) -> (r: Vec<u8>)
        ensures
            r@ == self.wire(),
            r@.len() == Button::spec_size(),
    {
        let mut vec_data: Vec<u8> = Vec::new();
        add_u16(&mut vec_data, self.button);
        add_u8(&mut vec_data, self.event.to_u8());
        proof {
            self.lemma_wire_len();
            assert(vec_data@ =~= self.wire());
        }
        vec_data
    }

    pub proof fn lemma_wire_len(self)
        ensures
            self.wire().len() == Button::spec_size(),
    {
        lemma_u16_le_bytes_roundtrip(self.button);
    }

    /// Decoding the wire image of a value gives the value back.
    pub proof fn lemma_wire_roundtrip(self)
        ensures
            self.wire().len() == Button::spec_size(),
            Button::decode(self.wire()) == self,
    {
        lemma_u16_le_bytes_roundtrip(self.button);
        self.event.lemma_code_roundtrip();
        assert(self.wire().subrange(0, 2) =~= spec_u16_to_le_bytes(self.button));
        assert(self.wire()[2] == seq![self.event.code()][0]);
    }
}

} // verus!
