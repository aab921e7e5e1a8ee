//! Lidar sweep payload: back-to-back angle/distance records.

use crate::communication::extractor::Extractor;
use crate::communication::serializer::{add_u16};
use crate::wire::{lemma_u16_le_bytes_roundtrip};
use vstd::bytes::*;
use vstd::prelude::*;


verus! {

#[derive(Clone, Copy, Debug, PartialEq, Eq, Structural)]
pub struct LidarData {
    pub angle_radian_x1000: u16,
    pub distance_mm: u16,
}

impl LidarData {
    pub fn new() -> (r: LidarData)
        ensures
            r.angle_radian_x1000 == 0,
            r.distance_mm == 0,
    {
        LidarData {
            angle_radian_x1000: 0,
            distance_mm: 0,
        }
    }

    /// Exact on-wire size of the payload.
    pub open spec fn spec_size() -> usize {
        4
    }

    pub fn size() -> (r: usize)
        ensures
            r == LidarData::spec_size(),
    {
        4
    }

    /// The bytes this value puts on the wire.
    pub open spec fn wire(self) -> Seq<u8> {
        spec_u16_to_le_bytes(self.angle_radian_x1000) + spec_u16_to_le_bytes(self.distance_mm)
    }

    /// Whether `self` is exactly what the payload bytes `s` decode to.
    pub open spec fn decoded(self, s: Seq<u8>) -> bool {
        self == LidarData::decode(s)
    }

    /// The value a `spec_size()`-byte payload decodes to.
    pub open spec fn decode(s: Seq<u8>) -> LidarData {
        LidarData {
            angle_radian_x1000: spec_u16_from_le_bytes(s.subrange(0, 2)),
            distance_mm: spec_u16_from_le_bytes(s.subrange(2, 4)),
        }
    }

    /// Reads one value in place out of a longer payload.
    pub fn read(ext: &mut Extractor) -> (r: LidarData)
        requires
            old(ext).wf(),
            old(ext).pos() + LidarData::spec_size() <= old(ext).data().len(),
        ensures
            final(ext).wf(),
            final(ext).data() == old(ext).data(),
            final(ext).pos() == old(ext).pos() + LidarData::spec_size(),
            r == LidarData::decode(old(ext).data().subrange(
                old(ext).pos(),
                old(ext).pos() + LidarData::spec_size(),
            )),
    {
        let ghost base = ext.pos();
        let ghost whole = ext.data();
        let angle_radian_x1000 = ext.get_u16();
        let distance_mm = ext.get_u16();
        proof {
            assert(whole.subrange(base, base + 4).subrange(0, 2) =~= whole.subrange(
                base + 0,
                base + 2,
            ));
        }
        proof {
            assert(whole.subrange(base, base + 4).subrange(2, 4) =~= whole.subrange(
                base + 2,
                base + 4,
            ));
        }
        LidarData { angle_radian_x1000, distance_mm }
    }

}

impl LidarData {
    pub fn to_vec(&self) -> (r: Vec<u8>)
        ensures
            r@ == self.wire(),
            r@.len() == LidarData::spec_size(),
    {
        let mut vec_data: Vec<u8> = Vec::new();
        add_u16(&mut vec_data, self.angle_radian_x1000);
        add_u16(&mut vec_data, self.distance_mm);
        proof {
            self.lemma_wire_len();
            assert(vec_data@ =~= self.wire());
        }
        vec_data
    }

    pub proof fn lemma_wire_len(self)
        ensures
            self.wire().len() == LidarData::spec_size(),
    {
        lemma_u16_le_bytes_roundtrip(self.angle_radian_x1000);
        lemma_u16_le_bytes_roundtrip(self.distance_mm);
    }

    /// Decoding the wire image of a value gives the value back.
    pub proof fn lemma_wire_roundtrip(self)
        ensures
            self.wire().len() == LidarData::spec_size(),
            LidarData::decode(self.wire()) == self,
    {
        lemma_u16_le_bytes_roundtrip(self.angle_radian_x1000);
        lemma_u16_le_bytes_roundtrip(self.distance_mm);
        assert(self.wire().subrange(0, 2) =~= spec_u16_to_le_bytes(self.angle_radian_x1000));
        assert(self.wire().subrange(2, 4) =~= spec_u16_to_le_bytes(self.distance_mm));
    }
}

impl LidarData {
    /// Splits a payload of back-to-back records; the length must be a
    /// non-zero multiple of the record size.
    pub fn parse(slice_data: &[u8]) -> (r: Result<Vec<LidarData>, &'static str>)
        ensures
            (slice_data@.len() > 0 && slice_data@.len() % 4 == 0) ==> (r matches Ok(v) && {
                &&& v@.len() == slice_data@.len() / 4
                &&& forall|j: int|
                    0 <= j < v@.len() ==> v@[j] == LidarData::decode(
                        slice_data@.subrange(4 * j, 4 * j + 4),
                    )
            }),
            !(slice_data@.len() > 0 && slice_data@.len() % 4 == 0) ==> (r matches Err(_)),
    {
        if slice_data.len() > 0 && slice_data.len() % LidarData::size() == 0 {
            let mut ext: Extractor = Extractor::from_slice(slice_data);
            let count = slice_data.len() / LidarData::size();
            let mut records: Vec<LidarData> = Vec::new();
            let mut i: usize = 0;
            while i < count
                invariant
                    i <= count,
                    count == slice_data@.len() / 4,
                    slice_data@.len() % 4 == 0,
                    ext.wf(),
                    ext.data() == slice_data@,
                    ext.pos() == 4 * i,
                    records@.len() == i,
                    forall|j: int|
                        0 <= j < i ==> records@[j] == LidarData::decode(
                            slice_data@.subrange(4 * j, 4 * j + 4),
                        ),
                decreases count - i,
            {
                let record = LidarData::read(&mut ext);
                records.push(record);
                i = i + 1;
            }
            Ok(records)
        } else {
            Err("Wrong length")
        }
    }
}

} // verus!
