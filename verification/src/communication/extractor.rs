//! Cursor-based reader over a byte buffer.
//!
//! Every `get_*` operation reads a fixed-width little-endian value and
//! advances the cursor.  When fewer bytes remain than the operation needs it
//! returns the zero value of the type and leaves the cursor where it was, so
//! a reader can never fault on short input.

use crate::wire::{spec_i16_from_le_bytes, spec_i16s_from_le_bytes, spec_i32_from_le_bytes,
    spec_i64_from_le_bytes, spec_i8_from_byte, spec_i8s_from_bytes};
use vstd::bytes::*;
use vstd::prelude::*;
use vstd::slice::{slice_subrange, slice_to_vec};

verus! {

pub struct Extractor {
    vec_data: Vec<u8>,
    index: usize,
}

impl Extractor {
    /// The bytes the cursor walks over.
    pub closed spec fn data(self) -> Seq<u8> {
        self.vec_data@
    }

    /// The cursor, as an offset into `data()`.
    pub closed spec fn pos(self) -> int {
        self.index as int
    }

    pub open spec fn wf(self) -> bool {
        0 <= self.pos() <= self.data().len()
    }

    pub fn new() -> (r: Extractor)
        ensures
            r.wf(),
            r.data() == Seq::<u8>::empty(),
            r.pos() == 0,
    {
        Extractor { vec_data: Vec::new(), index: 0 }
    }

    pub fn from_vec(source: &Vec<u8>) -> (r: Extractor)
        ensures
            r.wf(),
            r.data() == source@,
            r.pos() == 0,
    {
        Extractor { vec_data: source.clone(), index: 0 }
    }

    pub fn from_slice(source: &[u8]) -> (r: Extractor)
        ensures
            r.wf(),
            r.data() == source@,
            r.pos() == 0,
    {
        Extractor { vec_data: slice_to_vec(source), index: 0 }
    }

    /// How many bytes are left in front of the cursor.
    pub fn check_remain(&self) -> (r: usize)
        requires
            self.wf(),
        ensures
            r == self.data().len() - self.pos(),
    {
        self.vec_data.len() - self.index
    }

    pub fn get_u8(&mut self) -> (value: u8)
        requires
            old(self).wf(),
        ensures
            final(self).wf(),
            final(self).data() == old(self).data(),
            old(self).pos() + 1 <= old(self).data().len() ==> {
                &&& final(self).pos() == old(self).pos() + 1
                &&& value == old(self).data()[old(self).pos()]
            },
            old(self).pos() + 1 > old(self).data().len() ==> {
                &&& final(self).pos() == old(self).pos()
                &&& value == 0
            },
    {
        if self.vec_data.len() - self.index >= 1 {
            let value: u8 = self.vec_data[self.index];
            self.index = self.index + 1;
            value
        } else {
            0
        }
    }

    pub fn get_u16(&mut self) -> (value: u16)
        requires
            old(self).wf(),
        ensures
            final(self).wf(),
            final(self).data() == old(self).data(),
            old(self).pos() + 2 <= old(self).data().len() ==> {
                &&& final(self).pos() == old(self).pos() + 2
                &&& value == spec_u16_from_le_bytes(
                    old(self).data().subrange(old(self).pos(), old(self).pos() + 2),
                )
            },
            old(self).pos() + 2 > old(self).data().len() ==> {
                &&& final(self).pos() == old(self).pos()
                &&& value == 0
            },
    {
        if self.vec_data.len() - self.index >= 2 {
            let sub = slice_subrange(self.vec_data.as_slice(), self.index, self.index + 2);
            let value = u16_from_le_bytes(sub);
            self.index = self.index + 2;
            value
        } else {
            0
        }
    }

    pub fn get_u32(&mut self) -> (value: u32)
        requires
            old(self).wf(),
        ensures
            final(self).wf(),
            final(self).data() == old(self).data(),
            old(self).pos() + 4 <= old(self).data().len() ==> {
                &&& final(self).pos() == old(self).pos() + 4
                &&& value == spec_u32_from_le_bytes(
                    old(self).data().subrange(old(self).pos(), old(self).pos() + 4),
                )
            },
            old(self).pos() + 4 > old(self).data().len() ==> {
                &&& final(self).pos() == old(self).pos()
                &&& value == 0
            },
    {
        if self.vec_data.len() - self.index >= 4 {
            let sub = slice_subrange(self.vec_data.as_slice(), self.index, self.index + 4);
            let value = u32_from_le_bytes(sub);
            self.index = self.index + 4;
            value
        } else {
            0
        }
    }

    pub fn get_u64(&mut self) -> (value: u64)
        requires
            old(self).wf(),
        ensures
            final(self).wf(),
            final(self).data() == old(self).data(),
            old(self).pos() + 8 <= old(self).data().len() ==> {
                &&& final(self).pos() == old(self).pos() + 8
                &&& value == spec_u64_from_le_bytes(
                    old(self).data().subrange(old(self).pos(), old(self).pos() + 8),
                )
            },
            old(self).pos() + 8 > old(self).data().len() ==> {
                &&& final(self).pos() == old(self).pos()
                &&& value == 0
            },
    {
        if self.vec_data.len() - self.index >= 8 {
            let sub = slice_subrange(self.vec_data.as_slice(), self.index, self.index + 8);
            let value = u64_from_le_bytes(sub);
            self.index = self.index + 8;
            value
        } else {
            0
        }
    }

    pub fn get_i8(&mut self) -> (value: i8)
        requires
            old(self).wf(),
        ensures
            final(self).wf(),
            final(self).data() == old(self).data(),
            old(self).pos() + 1 <= old(self).data().len() ==> {
                &&& final(self).pos() == old(self).pos() + 1
                &&& value == spec_i8_from_byte(old(self).data()[old(self).pos()])
            },
            old(self).pos() + 1 > old(self).data().len() ==> {
                &&& final(self).pos() == old(self).pos()
                &&& value == 0
            },
    {
        if self.vec_data.len() - self.index >= 1 {
            let value: i8 = self.vec_data[self.index] as i8;
            self.index = self.index + 1;
            value
        } else {
            0
        }
    }

    pub fn get_i16(&mut self) -> (value: i16)
        requires
            old(self).wf(),
        ensures
            final(self).wf(),
            final(self).data() == old(self).data(),
            old(self).pos() + 2 <= old(self).data().len() ==> {
                &&& final(self).pos() == old(self).pos() + 2
                &&& value == spec_i16_from_le_bytes(
                    old(self).data().subrange(old(self).pos(), old(self).pos() + 2),
                )
            },
            old(self).pos() + 2 > old(self).data().len() ==> {
                &&& final(self).pos() == old(self).pos()
                &&& value == 0
            },
    {
        if self.vec_data.len() - self.index >= 2 {
            let sub = slice_subrange(self.vec_data.as_slice(), self.index, self.index + 2);
            let value = u16_from_le_bytes(sub) as i16;
            self.index = self.index + 2;
            value
        } else {
            0
        }
    }

    pub fn get_i32(&mut self) -> (value: i32)
        requires
            old(self).wf(),
        ensures
            final(self).wf(),
            final(self).data() == old(self).data(),
            old(self).pos() + 4 <= old(self).data().len() ==> {
                &&& final(self).pos() == old(self).pos() + 4
                &&& value == spec_i32_from_le_bytes(
                    old(self).data().subrange(old(self).pos(), old(self).pos() + 4),
                )
            },
            old(self).pos() + 4 > old(self).data().len() ==> {
                &&& final(self).pos() == old(self).pos()
                &&& value == 0
            },
    {
        if self.vec_data.len() - self.index >= 4 {
            let sub = slice_subrange(self.vec_data.as_slice(), self.index, self.index + 4);
            let value = u32_from_le_bytes(sub) as i32;
            self.index = self.index + 4;
            value
        } else {
            0
        }
    }

    pub fn get_i64(&mut self) -> (value: i64)
        requires
            old(self).wf(),
        ensures
            final(self).wf(),
            final(self).data() == old(self).data(),
            old(self).pos() + 8 <= old(self).data().len() ==> {
                &&& final(self).pos() == old(self).pos() + 8
                &&& value == spec_i64_from_le_bytes(
                    old(self).data().subrange(old(self).pos(), old(self).pos() + 8),
                )
            },
            old(self).pos() + 8 > old(self).data().len() ==> {
                &&& final(self).pos() == old(self).pos()
                &&& value == 0
            },
    {
        if self.vec_data.len() - self.index >= 8 {
            let sub = slice_subrange(self.vec_data.as_slice(), self.index, self.index + 8);
            let value = u64_from_le_bytes(sub) as i64;
            self.index = self.index + 8;
            value
        } else {
            0
        }
    }

    /// The next `length` bytes as an owned vector, or an empty vector when
    /// fewer than `length` bytes remain (in which case the cursor stays).
    pub fn get_array(&mut self, length: usize) -> (value: Vec<u8>)
        requires
            old(self).wf(),
        ensures
            final(self).wf(),
            final(self).data() == old(self).data(),
            old(self).pos() + length <= old(self).data().len() ==> {
                &&& final(self).pos() == old(self).pos() + length
                &&& value@ == old(self).data().subrange(
                    old(self).pos(),
                    old(self).pos() + length,
                )
            },
            old(self).pos() + length > old(self).data().len() ==> {
                &&& final(self).pos() == old(self).pos()
                &&& value@ == Seq::<u8>::empty()
            },
    {
        if self.vec_data.len() - self.index >= length {
            let sub = slice_subrange(self.vec_data.as_slice(), self.index, self.index + length);
            let value = slice_to_vec(sub);
            self.index = self.index + length;
            value
        } else {
            Vec::new()
        }
    }

    /// Reads `count` consecutive little-endian i16 values.
    pub fn get_vec_i16(&mut self, count: usize) -> (r: Vec<i16>)
        requires
            old(self).wf(),
            old(self).pos() + 2 * count <= old(self).data().len(),
        ensures
            final(self).wf(),
            final(self).data() == old(self).data(),
            final(self).pos() == old(self).pos() + 2 * count,
            r@ == spec_i16s_from_le_bytes(
                old(self).data().subrange(old(self).pos(), old(self).pos() + 2 * count),
            ),
    {
        let ghost base = self.pos();
        let ghost whole = self.data();
        let mut r: Vec<i16> = Vec::new();
        let mut i: usize = 0;
        while i < count
            invariant
                i <= count,
                self.wf(),
                self.data() == whole,
                base + 2 * count <= whole.len(),
                self.pos() == base + 2 * i,
                r@.len() == i,
                forall|j: int|
                    0 <= j < i ==> r@[j] == spec_i16_from_le_bytes(
                        whole.subrange(base + 2 * j, base + 2 * j + 2),
                    ),
            decreases count - i,
        {
            let value = self.get_i16();
            r.push(value);
            i = i + 1;
        }
        proof {
            let sub = whole.subrange(base, base + 2 * count);
            assert forall|j: int| 0 <= j < count implies spec_i16s_from_le_bytes(sub)[j]
                == r@[j] by {
                assert(sub.subrange(2 * j, 2 * j + 2) =~= whole.subrange(
                    base + 2 * j,
                    base + 2 * j + 2,
                ));
            }
            assert(r@ =~= spec_i16s_from_le_bytes(sub));
        }
        r
    }

    /// Reads `count` consecutive i8 values.
    pub fn get_vec_i8(&mut self, count: usize) -> (r: Vec<i8>)
        requires
            old(self).wf(),
            old(self).pos() + count <= old(self).data().len(),
        ensures
            final(self).wf(),
            final(self).data() == old(self).data(),
            final(self).pos() == old(self).pos() + count,
            r@ == spec_i8s_from_bytes(
                old(self).data().subrange(old(self).pos(), old(self).pos() + count),
            ),
    {
        let ghost base = self.pos();
        let ghost whole = self.data();
        let mut r: Vec<i8> = Vec::new();
        let mut i: usize = 0;
        while i < count
            invariant
                i <= count,
                self.wf(),
                self.data() == whole,
                base + count <= whole.len(),
                self.pos() == base + i,
                r@.len() == i,
                forall|j: int| 0 <= j < i ==> r@[j] == spec_i8_from_byte(whole[base + j]),
            decreases count - i,
        {
            let value = self.get_i8();
            r.push(value);
            i = i + 1;
        }
        proof {
            assert(r@ =~= spec_i8s_from_bytes(whole.subrange(base, base + count)));
        }
        r
    }

    pub fn get_vec_clone(&self) -> (r: Vec<u8>)
        ensures
            r@ == self.data(),
    {
        self.vec_data.clone()
    }
}

} // verus!
