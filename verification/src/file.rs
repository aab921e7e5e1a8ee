//! The firmware-image container: a 16-byte header naming the target model,
//! version, body length and build date, followed by the image body, which the
//! update flow reads out in 16-byte-aligned blocks.
//!
//! Loading the bytes from disk is the host's business; this module takes the
//! file's bytes and does everything after that.

use crate::communication::extractor::Extractor;
use crate::communication::serializer::{add_u16, add_u32, add_u8};
use crate::system::{ModelNumber, Version};
use crate::wire::{lemma_u16_le_bytes_roundtrip, lemma_u32_le_bytes_roundtrip};
use vstd::bytes::*;
use vstd::prelude::*;
use vstd::slice::{slice_subrange, slice_to_vec};

verus! {

/// The 16 bytes in front of a firmware image.
#[derive(Clone, Copy, Debug, PartialEq, Eq, Structural)]
pub struct EncryptedBinaryHeader {
    pub model_number: ModelNumber,
    pub version: Version,
    pub length: u32,
    pub year: u16,
    pub month: u8,
    pub day: u8,
}

impl EncryptedBinaryHeader {
    pub fn new() -> (r: EncryptedBinaryHeader)
        ensures
            r.model_number == ModelNumber::Nil,
            r.version == (Version { build: 1, minor: 1, major: 21 }),
            r.length == 0,
            r.year == 2021,
            r.month == 1,
            r.day == 1,
    {
        EncryptedBinaryHeader {
            model_number: ModelNumber::Nil,
            version: Version { build: 1, minor: 1, major: 21 },
            length: 0,
            year: 2021,
            month: 1,
            day: 1,
        }
    }

    /// Exact on-wire size of the payload.
    pub open spec fn spec_size() -> usize {
        16
    }

    pub fn size() -> (r: usize)
        ensures
            r == EncryptedBinaryHeader::spec_size(),
    {
        16
    }

    /// The bytes this value puts on the wire.
    pub open spec fn wire(self) -> Seq<u8> {
        spec_u32_to_le_bytes(self.model_number.code()) + spec_u32_to_le_bytes(self.version.spec_to_u32()) + spec_u32_to_le_bytes(self.length) + spec_u16_to_le_bytes(self.year) + seq![self.month] + seq![self.day]
    }

    /// Whether `self` is exactly what the payload bytes `s` decode to.
    pub open spec fn decoded(self, s: Seq<u8>) -> bool {
        self == EncryptedBinaryHeader::decode(s)
    }

    /// The value a `spec_size()`-byte payload decodes to.
    pub open spec fn decode(s: Seq<u8>) -> EncryptedBinaryHeader {
        EncryptedBinaryHeader {
            model_number: ModelNumber::spec_from_u32(spec_u32_from_le_bytes(s.subrange(0, 4))),
            version: Version::spec_from_u32(spec_u32_from_le_bytes(s.subrange(4, 8))),
            length: spec_u32_from_le_bytes(s.subrange(8, 12)),
            year: spec_u16_from_le_bytes(s.subrange(12, 14)),
            month: s[14],
            day: s[15],
        }
    }

    pub fn parse(slice_data: &[u8]) -> (r: Result<EncryptedBinaryHeader, &'static str>)
        ensures
            slice_data@.len() == EncryptedBinaryHeader::spec_size() ==> (r matches Ok(v) && v == EncryptedBinaryHeader::decode(
                slice_data@,
            )),
            slice_data@.len() != EncryptedBinaryHeader::spec_size() ==> (r matches Err(_)),
    {
        if slice_data.len() == EncryptedBinaryHeader::size() {
            let mut ext: Extractor = Extractor::from_slice(slice_data);
            let model_number = ModelNumber::from_u32(ext.get_u32());
            let version = Version::from_u32(ext.get_u32());
            let length = ext.get_u32();
            let year = ext.get_u16();
            let month = ext.get_u8();
            let day = ext.get_u8();
            Ok(EncryptedBinaryHeader { model_number, version, length, year, month, day })
        } else {
            Err("Wrong length")
        }
    }

}

impl EncryptedBinaryHeader {
    pub fn to_vec(&self) -> (r: Vec<u8>)
        ensures
            r@ == self.wire(),
            r@.len() == EncryptedBinaryHeader::spec_size(),
    {
        let mut vec_data: Vec<u8> = Vec::new();
        add_u32(&mut vec_data, self.model_number.to_u32());
        add_u32(&mut vec_data, self.version.to_u32());
        add_u32(&mut vec_data, self.length);
        add_u16(&mut vec_data, self.year);
        add_u8(&mut vec_data, self.month);
        add_u8(&mut vec_data, self.day);
        proof {
            self.lemma_wire_len();
            assert(vec_data@ =~= self.wire());
        }
        vec_data
    }

    pub proof fn lemma_wire_len(self)
        ensures
            self.wire().len() == EncryptedBinaryHeader::spec_size(),
    {
        lemma_u32_le_bytes_roundtrip(self.model_number.code());
        lemma_u32_le_bytes_roundtrip(self.version.spec_to_u32());
        lemma_u32_le_bytes_roundtrip(self.length);
        lemma_u16_le_bytes_roundtrip(self.year);
    }

    /// Decoding the wire image of a value gives the value back.
    pub proof fn lemma_wire_roundtrip(self)
        ensures
            self.wire().len() == EncryptedBinaryHeader::spec_size(),
            EncryptedBinaryHeader::decode(self.wire()) == self,
    {
        lemma_u32_le_bytes_roundtrip(self.model_number.code());
        self.model_number.lemma_code_roundtrip();
        lemma_u32_le_bytes_roundtrip(self.version.spec_to_u32());
        self.version.lemma_u32_roundtrip();
        lemma_u32_le_bytes_roundtrip(self.length);
        lemma_u16_le_bytes_roundtrip(self.year);
        assert(self.wire().subrange(0, 4) =~= spec_u32_to_le_bytes(self.model_number.code()));
        assert(self.wire().subrange(4, 8) =~= spec_u32_to_le_bytes(self.version.spec_to_u32()));
        assert(self.wire().subrange(8, 12) =~= spec_u32_to_le_bytes(self.length));
        assert(self.wire().subrange(12, 14) =~= spec_u16_to_le_bytes(self.year));
        assert(self.wire()[14] == seq![self.month][0]);
        assert(self.wire()[15] == seq![self.day][0]);
    }
}


/// A loaded firmware image: its header and the raw file bytes.
#[derive(Clone, Debug)]
pub struct EncryptedBinary {
    pub header: EncryptedBinaryHeader,
    pub data_array: Vec<u8>,
    pub flag_open: bool,
}

impl EncryptedBinary {
    pub fn new() -> (r: EncryptedBinary)
        ensures
            r.data_array@.len() == 0,
            r.flag_open == false,
    {
        EncryptedBinary {
            header: EncryptedBinaryHeader::new(),
            data_array: Vec::new(),
            flag_open: false,
        }
    }

    /// Takes the whole file's bytes; succeeds exactly when they hold at
    /// least a full header (16 bytes, the body may be empty), in which case
    /// the header is decoded from the first 16 bytes.
    pub fn load(&mut self, data: Vec<u8>) -> (r: bool)
        ensures
            final(self).data_array@ == data@,
            r == (data@.len() >= 16),
            final(self).flag_open == r,
            r ==> final(self).header == EncryptedBinaryHeader::decode(data@.subrange(0, 16)),
            !r ==> final(self).header == old(self).header,
    {
        self.data_array = data;
        if self.data_array.len() >= 16 {
            let head = slice_subrange(self.data_array.as_slice(), 0, 16);
            match EncryptedBinaryHeader::parse(head) {
                Ok(header) => {
                    self.header = header;
                    self.flag_open = true;
                    return true;
                },
                _ => {},
            }
        }
        self.flag_open = false;
        false
    }

    /// The bytes of blocks `index_block .. index_block + count_block`, each
    /// block 16 bytes, clipped to the end of the image; `None` when the first
    /// block starts at or past the end.
    pub fn get_data_block(&self, index_block: u16, count_block: u16) -> (r: Option<Vec<u8>>)
        ensures
            ({
                let start = 16 * (index_block as int);
                let end = if start + 16 * (count_block as int) <= self.data_array@.len() {
                    start + 16 * (count_block as int)
                } else {
                    self.data_array@.len() as int
                };
                if start < self.data_array@.len() {
                    r matches Some(v) && v@ == self.data_array@.subrange(start, end)
                } else {
                    r matches None::<Vec<u8>>
                }
            }),
    {
        let index_array: usize = 16 * (index_block as usize);
        let span: usize = 16 * (count_block as usize);
        let index_end: usize = if span <= self.data_array.len() && index_array
            <= self.data_array.len() - span {
            index_array + span
        } else {
            self.data_array.len()
        };
        if index_array < self.data_array.len() {
            Some(slice_to_vec(slice_subrange(
                self.data_array.as_slice(),
                index_array,
                index_end,
            )))
        } else {
            None
        }
    }

    /// Total length of the loaded file.
    pub fn get_length(&self) -> (r: usize)
        ensures
            r == self.data_array@.len(),
    {
        self.data_array.len()
    }
}

} // verus!
