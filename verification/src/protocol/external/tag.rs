//! Vision tag payload: back-to-back detected-tag records.

use crate::communication::extractor::Extractor;
use crate::communication::serializer::{add_i16, add_u16};
use crate::wire::{lemma_i16_le_bytes_roundtrip, lemma_u16_le_bytes_roundtrip, 
    spec_i16_from_le_bytes, spec_i16_to_le_bytes};
use vstd::bytes::*;
use vstd::prelude::*;


verus! {

#[derive(Clone, Copy, Debug, PartialEq, Eq, Structural)]
pub struct TagData {
    pub x: i16,
    pub y: i16,
    pub width: i16,
    pub height: i16,
    pub id: u16,
}

impl TagData {
    pub fn new() -> (r: TagData)
        ensures
            r.x == 0,
            r.y == 0,
            r.width == 0,
            r.height == 0,
            r.id == 0,
    {
        TagData {
            x: 0,
            y: 0,
            width: 0,
            height: 0,
            id: 0,
        }
    }

    /// Exact on-wire size of the payload.
    pub open spec fn spec_size() -> usize {
        10
    }

    pub fn size() -> (r: usize)
        ensures
            r == TagData::spec_size(),
    {
        10
    }

    /// The bytes this value puts on the wire.
    pub open spec fn wire(self) -> Seq<u8> {
        spec_i16_to_le_bytes(self.x) + spec_i16_to_le_bytes(self.y) + spec_i16_to_le_bytes(self.width) + spec_i16_to_le_bytes(self.height) + spec_u16_to_le_bytes(self.id)
    }

    /// Whether `self` is exactly what the payload bytes `s` decode to.
    pub open spec fn decoded(self, s: Seq<u8>) -> bool {
        self == TagData::decode(s)
    }

    /// The value a `spec_size()`-byte payload decodes to.
    pub open spec fn decode(s: Seq<u8>) -> TagData {
        TagData {
            x: spec_i16_from_le_bytes(s.subrange(0, 2)),
            y: spec_i16_from_le_bytes(s.subrange(2, 4)),
            width: spec_i16_from_le_bytes(s.subrange(4, 6)),
            height: spec_i16_from_le_bytes(s.subrange(6, 8)),
            id: spec_u16_from_le_bytes(s.subrange(8, 10)),
        }
    }

    /// Reads one value in place out of a longer payload.
    pub fn read(ext: &mut Extractor) -> (r: TagData)
        requires
            old(ext).wf(),
            old(ext).pos() + TagData::spec_size() <= old(ext).data().len(),
        ensures
            final(ext).wf(),
            final(ext).data() == old(ext).data(),
            final(ext).pos() == old(ext).pos() + TagData::spec_size(),
            r == TagData::decode(old(ext).data().subrange(
                old(ext).pos(),
                old(ext).pos() + TagData::spec_size(),
            )),
    {
        let ghost base = ext.pos();
        let ghost whole = ext.data();
        let x = ext.get_i16();
        let y = ext.get_i16();
        let width = ext.get_i16();
        let height = ext.get_i16();
        let id = ext.get_u16();
        proof {
            assert(whole.subrange(base, base + 10).subrange(0, 2) =~= whole.subrange(
                base + 0,
                base + 2,
            ));
        }
        proof {
            assert(whole.subrange(base, base + 10).subrange(2, 4) =~= whole.subrange(
                base + 2,
                base + 4,
            ));
        }
        proof {
            assert(whole.subrange(base, base + 10).subrange(4, 6) =~= whole.subrange(
                base + 4,
                base + 6,
            ));
        }
        proof {
            assert(whole.subrange(base, base + 10).subrange(6, 8) =~= whole.subrange(
                base + 6,
                base + 8,
            ));
        }
        proof {
            assert(whole.subrange(base, base + 10).subrange(8, 10) =~= whole.subrange(
                base + 8,
                base + 10,
            ));
        }
        TagData { x, y, width, height, id }
    }

}

impl TagData {
    pub fn to_vec(&self) -> (r: Vec<u8>)
        ensures
            r@ == self.wire(),
            r@.len() == TagData::spec_size(),
    {
        let mut vec_data: Vec<u8> = Vec::new();
        add_i16(&mut vec_data, self.x);
        add_i16(&mut vec_data, self.y);
        add_i16(&mut vec_data, self.width);
        add_i16(&mut vec_data, self.height);
        add_u16(&mut vec_data, self.id);
        proof {
            self.lemma_wire_len();
            assert(vec_data@ =~= self.wire());
        }
        vec_data
    }

    pub proof fn lemma_wire_len(self)
        ensures
            self.wire().len() == TagData::spec_size(),
    {
        lemma_i16_le_bytes_roundtrip(self.x);
        lemma_i16_le_bytes_roundtrip(self.y);
        lemma_i16_le_bytes_roundtrip(self.width);
        lemma_i16_le_bytes_roundtrip(self.height);
        lemma_u16_le_bytes_roundtrip(self.id);
    }

    /// Decoding the wire image of a value gives the value back.
    pub proof fn lemma_wire_roundtrip(self)
        ensures
            self.wire().len() == TagData::spec_size(),
            TagData::decode(self.wire()) == self,
    {
        lemma_i16_le_bytes_roundtrip(self.x);
        lemma_i16_le_bytes_roundtrip(self.y);
        lemma_i16_le_bytes_roundtrip(self.width);
        lemma_i16_le_bytes_roundtrip(self.height);
        lemma_u16_le_bytes_roundtrip(self.id);
        assert(self.wire().subrange(0, 2) =~= spec_i16_to_le_bytes(self.x));
        assert(self.wire().subrange(2, 4) =~= spec_i16_to_le_bytes(self.y));
        assert(self.wire().subrange(4, 6) =~= spec_i16_to_le_bytes(self.width));
        assert(self.wire().subrange(6, 8) =~= spec_i16_to_le_bytes(self.height));
        assert(self.wire().subrange(8, 10) =~= spec_u16_to_le_bytes(self.id));
    }
}

impl TagData {
    /// Splits a payload of back-to-back records; the length must be a
    /// non-zero multiple of the record size.
    pub fn parse(slice_data: &[u8]) -> (r: Result<Vec<TagData>, &'static str>)
        ensures
            (slice_data@.len() > 0 && slice_data@.len() % 10 == 0) ==> (r matches Ok(v) && {
                &&& v@.len() == slice_data@.len() / 10
                &&& forall|j: int|
                    0 <= j < v@.len() ==> v@[j] == TagData::decode(
                        slice_data@.subrange(10 * j, 10 * j + 10),
                    )
            }),
            !(slice_data@.len() > 0 && slice_data@.len() % 10 == 0) ==> (r matches Err(_)),
    {
        if slice_data.len() > 0 && slice_data.len() % TagData::size() == 0 {
            let mut ext: Extractor = Extractor::from_slice(slice_data);
            let count = slice_data.len() / TagData::size();
            let mut records: Vec<TagData> = Vec::new();
            let mut i: usize = 0;
            while i < count
                invariant
                    i <= count,
                    count == slice_data@.len() / 10,
                    slice_data@.len() % 10 == 0,
                    ext.wf(),
                    ext.data() == slice_data@,
                    ext.pos() == 10 * i,
                    records@.len() == i,
                    forall|j: int|
                        0 <= j < i ==> records@[j] == TagData::decode(
                            slice_data@.subrange(10 * j, 10 * j + 10),
                        ),
                decreases count - i,
            {
                let record = TagData::read(&mut ext);
                records.push(record);
                i = i + 1;
            }
            Ok(records)
        } else {
            Err("Wrong length")
        }
    }
}

} // verus!
