//! Debug telemetry: a sub-header chooses one of three record shapes, each a
//! type discriminant, a page index, an optional timestamp, and then a run of
//! equally sized little-endian values filling the rest of the payload.
//!
//! A value is held as the raw bits of its wire window, zero-extended to u64;
//! how to interpret those bits (signed, float) is named by `data_type` and
//! left to the consumer.

use crate::communication::extractor::Extractor;
use crate::communication::serializer::{add_u16, add_u32, add_u64, add_u8};
use crate::wire::{lemma_u16_le_bytes_roundtrip, lemma_u32_le_bytes_roundtrip,
    lemma_u64_le_bytes_roundtrip};
use vstd::bytes::*;
use vstd::prelude::*;

verus! {

/// How many bytes one value of the given kind occupies on the wire.
pub open spec fn spec_unit_size(data_type: DataType) -> int {
    match data_type {
        DataType::U8 => 1,
        DataType::S8 => 1,
        DataType::U16 => 2,
        DataType::S16 => 2,
        DataType::U32 => 4,
        DataType::S32 => 4,
        DataType::U64 => 8,
        DataType::S64 => 8,
        DataType::F32 => 4,
        DataType::F64 => 8,
    }
}

/// The j-th value of a run starting at `base`, as zero-extended raw bits.
pub open spec fn spec_unit_from(data_type: DataType, s: Seq<u8>, base: int, j: int) -> u64 {
    let o = base + spec_unit_size(data_type) * j;
    if spec_unit_size(data_type) == 1 {
        s[o] as u64
    } else if spec_unit_size(data_type) == 2 {
        spec_u16_from_le_bytes(s.subrange(o, o + 2)) as u64
    } else if spec_unit_size(data_type) == 4 {
        spec_u32_from_le_bytes(s.subrange(o, o + 4)) as u64
    } else {
        spec_u64_from_le_bytes(s.subrange(o, o + 8))
    }
}

/// One value as its wire window, truncated to the unit size.
pub open spec fn spec_unit_wire(data_type: DataType, value: u64) -> Seq<u8> {
    if spec_unit_size(data_type) == 1 {
        seq![value as u8]
    } else if spec_unit_size(data_type) == 2 {
        spec_u16_to_le_bytes(value as u16)
    } else if spec_unit_size(data_type) == 4 {
        spec_u32_to_le_bytes(value as u32)
    } else {
        spec_u64_to_le_bytes(value)
    }
}

/// A whole run of values on the wire, in order.
pub open spec fn spec_values_wire(data_type: DataType, values: Seq<u64>) -> Seq<u8>
    decreases values.len(),
{
    if values.len() == 0 {
        Seq::<u8>::empty()
    } else {
        spec_values_wire(data_type, values.drop_last()) + spec_unit_wire(
            data_type,
            values.last(),
        )
    }
}

/// The first value that does not fit in one wire window of the given kind.
pub open spec fn spec_unit_bound(data_type: DataType) -> nat {
    if spec_unit_size(data_type) == 1 {
        0x100
    } else if spec_unit_size(data_type) == 2 {
        0x10000
    } else if spec_unit_size(data_type) == 4 {
        0x100000000
    } else {
        0x10000000000000000
    }
}

/// Whether every value fits its wire window.
pub open spec fn spec_values_fit(data_type: DataType, values: Seq<u64>) -> bool {
    forall|j: int| 0 <= j < values.len() ==> (values[j] as nat) < spec_unit_bound(data_type)
}

pub proof fn lemma_unit_wire_len(data_type: DataType, value: u64)
    ensures
        spec_unit_wire(data_type, value).len() == spec_unit_size(data_type),
{
    if spec_unit_size(data_type) == 2 {
        lemma_u16_le_bytes_roundtrip(value as u16);
    } else if spec_unit_size(data_type) == 4 {
        lemma_u32_le_bytes_roundtrip(value as u32);
    } else if spec_unit_size(data_type) == 8 {
        lemma_u64_le_bytes_roundtrip(value);
    }
}

pub proof fn lemma_values_wire_len(data_type: DataType, values: Seq<u64>)
    ensures
        spec_values_wire(data_type, values).len() == spec_unit_size(data_type) * values.len(),
    decreases values.len(),
{
    if values.len() > 0 {
        lemma_values_wire_len(data_type, values.drop_last());
        lemma_unit_wire_len(data_type, values.last());
        let u = spec_unit_size(data_type);
        let n = values.len() as int;
        assert(u * (n - 1) + u == u * n) by (nonlinear_arith);
    }
}

/// Decoding the run's wire image gives every value back, provided each fits
/// its window.
pub proof fn lemma_values_wire_roundtrip(data_type: DataType, values: Seq<u64>)
    requires
        spec_values_fit(data_type, values),
    ensures
        spec_values_wire(data_type, values).len() == spec_unit_size(data_type) * values.len(),
        forall|j: int|
            0 <= j < values.len() ==> spec_unit_from(
                data_type,
                spec_values_wire(data_type, values),
                0,
                j,
            ) == values[j],
    decreases values.len(),
{
    lemma_values_wire_len(data_type, values);
    if values.len() > 0 {
        let u = spec_unit_size(data_type);
        let n = values.len() as int;
        let w = spec_values_wire(data_type, values);
        let w0 = spec_values_wire(data_type, values.drop_last());
        let v = values.last();
        assert(spec_values_fit(data_type, values.drop_last()));
        lemma_values_wire_roundtrip(data_type, values.drop_last());
        lemma_unit_wire_len(data_type, v);
        assert forall|j: int| 0 <= j < n implies spec_unit_from(data_type, w, 0, j)
            == values[j] by {
            if j < n - 1 {
                assert(0 <= j < values.drop_last().len());
                assert(spec_unit_from(data_type, w0, 0, j) == values.drop_last()[j]);
                assert(values.drop_last()[j] == values[j]);
                assert(0 <= u * j && u * j + u <= u * (n - 1)) by (nonlinear_arith)
                    requires
                        0 <= j && j < n - 1 && 1 <= u,
                ;
                if u == 1 {
                    assert(w[u * j] == w0[u * j]);
                } else {
                    assert(w.subrange(u * j, u * j + u) =~= w0.subrange(u * j, u * j + u));
                }
            } else {
                assert(w.subrange(u * (n - 1), u * (n - 1) + u) =~= spec_unit_wire(data_type, v));
                assert((values[n - 1] as nat) < spec_unit_bound(data_type));
                if u == 1 {
                    assert(w[u * (n - 1)] == (v as u8));
                    assert((v as u8) as u64 == v);
                } else if u == 2 {
                    lemma_u16_le_bytes_roundtrip(v as u16);
                    assert((v as u16) as u64 == v);
                } else if u == 4 {
                    lemma_u32_le_bytes_roundtrip(v as u32);
                    assert((v as u32) as u64 == v);
                } else {
                    lemma_u64_le_bytes_roundtrip(v);
                }
            }
        }
    }
}


#[derive(Clone, Copy, Debug, PartialEq, Eq, Structural)]
pub enum HeaderType {
    Monitor0,
    Monitor4,
    Monitor8,
}

impl HeaderType {
    /// The wire code of the variant.
    pub open spec fn code(self) -> u8 {
        match self {
            HeaderType::Monitor0 => 0x00,
            HeaderType::Monitor4 => 0x01,
            HeaderType::Monitor8 => 0x02,
        }
    }

    /// Total decoding: an unknown code falls back to `HeaderType::Monitor0`.
    pub open spec fn spec_from_u8(code: u8) -> HeaderType {
        if code == 0x00 {
            HeaderType::Monitor0
        } else if code == 0x01 {
            HeaderType::Monitor4
        } else if code == 0x02 {
            HeaderType::Monitor8
        } else {
            HeaderType::Monitor0
        }
    }

    /// Whether the code denotes a variant of its own.
    pub open spec fn spec_is_defined(code: u8) -> bool {
        HeaderType::spec_from_u8(code).code() == code
    }

    pub fn from_u8(data_u8: u8) -> (r: HeaderType)
        ensures
            r == HeaderType::spec_from_u8(data_u8),
    {
        if data_u8 == 0x00 {
            HeaderType::Monitor0
        } else if data_u8 == 0x01 {
            HeaderType::Monitor4
        } else if data_u8 == 0x02 {
            HeaderType::Monitor8
        } else {
            HeaderType::Monitor0
        }
    }

    pub fn to_u8(self) -> (r: u8)
        ensures
            r == self.code(),
    {
        match self {
            HeaderType::Monitor0 => 0x00,
            HeaderType::Monitor4 => 0x01,
            HeaderType::Monitor8 => 0x02,
        }
    }

    /// Encoding a variant and decoding the code gives the variant back.
    pub proof fn lemma_code_roundtrip(self)
        ensures
            HeaderType::spec_from_u8(self.code()) == self,
    {
    }
}

#[derive(Clone, Copy, Debug, PartialEq, Eq, Structural)]
pub enum DataType {
    U8,
    S8,
    U16,
    S16,
    U32,
    S32,
    U64,
    S64,
    F32,
    F64,
}

impl DataType {
    /// The wire code of the variant.
    pub open spec fn code(self) -> u8 {
        match self {
            DataType::U8 => 0x00,
            DataType::S8 => 0x01,
            DataType::U16 => 0x02,
            DataType::S16 => 0x03,
            DataType::U32 => 0x04,
            DataType::S32 => 0x05,
            DataType::U64 => 0x06,
            DataType::S64 => 0x07,
            DataType::F32 => 0x08,
            DataType::F64 => 0x09,
        }
    }

    /// Total decoding: an unknown code falls back to `DataType::U8`.
    pub open spec fn spec_from_u8(code: u8) -> DataType {
        if code == 0x00 {
            DataType::U8
        } else if code == 0x01 {
            DataType::S8
        } else if code == 0x02 {
            DataType::U16
        } else if code == 0x03 {
            DataType::S16
        } else if code == 0x04 {
            DataType::U32
        } else if code == 0x05 {
            DataType::S32
        } else if code == 0x06 {
            DataType::U64
        } else if code == 0x07 {
            DataType::S64
        } else if code == 0x08 {
            DataType::F32
        } else if code == 0x09 {
            DataType::F64
        } else {
            DataType::U8
        }
    }

    /// Whether the code denotes a variant of its own.
    pub open spec fn spec_is_defined(code: u8) -> bool {
        DataType::spec_from_u8(code).code() == code
    }

    pub fn from_u8(data_u8: u8) -> (r: DataType)
        ensures
            r == DataType::spec_from_u8(data_u8),
    {
        if data_u8 == 0x00 {
            DataType::U8
        } else if data_u8 == 0x01 {
            DataType::S8
        } else if data_u8 == 0x02 {
            DataType::U16
        } else if data_u8 == 0x03 {
            DataType::S16
        } else if data_u8 == 0x04 {
            DataType::U32
        } else if data_u8 == 0x05 {
            DataType::S32
        } else if data_u8 == 0x06 {
            DataType::U64
        } else if data_u8 == 0x07 {
            DataType::S64
        } else if data_u8 == 0x08 {
            DataType::F32
        } else if data_u8 == 0x09 {
            DataType::F64
        } else {
            DataType::U8
        }
    }

    pub fn to_u8(self) -> (r: u8)
        ensures
            r == self.code(),
    {
        match self {
            DataType::U8 => 0x00,
            DataType::S8 => 0x01,
            DataType::U16 => 0x02,
            DataType::S16 => 0x03,
            DataType::U32 => 0x04,
            DataType::S32 => 0x05,
            DataType::U64 => 0x06,
            DataType::S64 => 0x07,
            DataType::F32 => 0x08,
            DataType::F64 => 0x09,
        }
    }

    /// Encoding a variant and decoding the code gives the variant back.
    pub proof fn lemma_code_roundtrip(self)
        ensures
            DataType::spec_from_u8(self.code()) == self,
    {
    }
}

/// The one-byte sub-header in front of every monitor payload.
#[derive(Clone, Copy, Debug, PartialEq, Eq, Structural)]
pub struct MonitorType {
    pub header_type: HeaderType,
}

impl MonitorType {
    pub fn new() -> (r: MonitorType)
        ensures
            r.header_type == HeaderType::Monitor4,
    {
        MonitorType {
            header_type: HeaderType::Monitor4,
        }
    }

    /// Exact on-wire size of the payload.
    pub open spec fn spec_size() -> usize {
        1
    }

    pub fn size() -> (r: usize)
        ensures
            r == MonitorType::spec_size(),
    {
        1
    }

    /// The bytes this value puts on the wire.
    pub open spec fn wire(self) -> Seq<u8> {
        seq![self.header_type.code()]
    }

    /// Whether `self` is exactly what the payload bytes `s` decode to.
    pub open spec fn decoded(self, s: Seq<u8>) -> bool {
        self == MonitorType::decode(s)
    }

    /// The value a `spec_size()`-byte payload decodes to.
    pub open spec fn decode(s: Seq<u8>) -> MonitorType {
        MonitorType {
            header_type: HeaderType::spec_from_u8(s[0]),
        }
    }

    pub fn parse(slice_data: &[u8]) -> (r: Result<MonitorType, &'static str>)
        ensures
            slice_data@.len() == MonitorType::spec_size() ==> (r matches Ok(v) && v == MonitorType::decode(
                slice_data@,
            )),
            slice_data@.len() != MonitorType::spec_size() ==> (r matches Err(_)),
    {
        if slice_data.len() == MonitorType::size() {
            let mut ext: Extractor = Extractor::from_slice(slice_data);
            let header_type = HeaderType::from_u8(ext.get_u8());
            Ok(MonitorType { header_type })
        } else {
            Err("Wrong length")
        }
    }

}

impl MonitorType {
    pub fn to_vec(&self) -> (r: Vec<u8>)
        ensures
            r@ == self.wire(),
            r@.len() == MonitorType::spec_size(),
    {
        let mut vec_data: Vec<u8> = Vec::new();
        add_u8(&mut vec_data, self.header_type.to_u8());
        proof {
            self.lemma_wire_len();
            assert(vec_data@ =~= self.wire());
        }
        vec_data
    }

    pub proof fn lemma_wire_len(self)
        ensures
            self.wire().len() == MonitorType::spec_size(),
    {
    }

    /// Decoding the wire image of a value gives the value back.
    pub proof fn lemma_wire_roundtrip(self)
        ensures
            self.wire().len() == MonitorType::spec_size(),
            MonitorType::decode(self.wire()) == self,
    {
        self.header_type.lemma_code_roundtrip();
        assert(self.wire()[0] == seq![self.header_type.code()][0]);
    }
}


/// A plain run of values.
#[derive(Clone, Debug)]
pub struct Monitor0 {
    pub data_type: DataType,
    pub index: u8,
    pub vec_value: Vec<u64>,
}

impl Monitor0 {
    pub fn new() -> (r: Monitor0)
        ensures
            r.data_type == DataType::U8,
            r.index == 0,
            r.vec_value@.len() == 0,
    {
        Monitor0 {  data_type: DataType::U8, index: 0, vec_value: Vec::new() }
    }

    /// Size of the fixed leading part of the payload.
    pub open spec fn spec_size() -> usize {
        2
    }

    pub fn size() -> (r: usize)
        ensures
            r == Monitor0::spec_size(),
    {
        2
    }

    /// The bytes this value puts on the wire.
    pub open spec fn wire(self) -> Seq<u8> {
         seq![self.data_type.code(), self.index] + spec_values_wire(
            self.data_type,
            self.vec_value@,
        )
    }

    /// Whether every held value fits its wire window.
    pub open spec fn wf(self) -> bool {
        spec_values_fit(self.data_type, self.vec_value@)
    }

    /// Whether `self` is exactly what the payload bytes `s` decode to.
    pub open spec fn decoded(self, s: Seq<u8>) -> bool {
        &&& s.len() >= Monitor0::spec_size()
        &&& self.data_type == DataType::spec_from_u8(s[0])
        &&& self.index == s[1]
        &&& self.vec_value@.len() == (s.len() - Monitor0::spec_size()) as int / spec_unit_size(
            self.data_type,
        )
        &&& forall|j: int|
            0 <= j < self.vec_value@.len() ==> self.vec_value@[j] == spec_unit_from(
                self.data_type,
                s,
                Monitor0::spec_size() as int,
                j,
            )
    }

    pub fn parse(slice_data: &[u8]) -> (r: Result<Monitor0, &'static str>)
        ensures
            slice_data@.len() >= Monitor0::spec_size() ==> (r matches Ok(v) && {
                &&& v.data_type == DataType::spec_from_u8(slice_data@[0])
                &&& v.index == slice_data@[1]
                &&& v.vec_value@.len() == (slice_data@.len() - 2) as int / spec_unit_size(
                    v.data_type,
                )
                &&& forall|j: int|
                    0 <= j < v.vec_value@.len() ==> v.vec_value@[j] == spec_unit_from(
                        v.data_type,
                        slice_data@,
                        2,
                        j,
                    )
            }),
            slice_data@.len() < Monitor0::spec_size() ==> (r matches Err(_)),
    {
        if slice_data.len() >= Monitor0::size() {
            let mut ext: Extractor = Extractor::from_slice(slice_data);
            let data_type = DataType::from_u8(ext.get_u8());
            let index = ext.get_u8();
            let unit: usize = match data_type {
                DataType::U8 => 1,
                DataType::S8 => 1,
                DataType::U16 => 2,
                DataType::S16 => 2,
                DataType::U32 => 4,
                DataType::S32 => 4,
                DataType::U64 => 8,
                DataType::S64 => 8,
                DataType::F32 => 4,
                DataType::F64 => 8,
            };
            let mut vec_value: Vec<u64> = Vec::new();
            let ghost total = slice_data@.len() as int;
            while ext.check_remain() >= unit
                invariant
                    unit == spec_unit_size(data_type),
                    1 <= unit <= 8,
                    ext.wf(),
                    ext.data() == slice_data@,
                    total == slice_data@.len() as int,
                    total >= 2,
                    ext.pos() == 2 + unit * vec_value@.len(),
                    forall|j: int|
                        0 <= j < vec_value@.len() ==> vec_value@[j] == spec_unit_from(
                            data_type,
                            slice_data@,
                            2,
                            j,
                        ),
                decreases slice_data@.len() - ext.pos(),
            {
                let ghost n0 = vec_value@.len() as int;
                let value: u64 = match data_type {
                    DataType::U8 => ext.get_u8() as u64,
                    DataType::S8 => ext.get_u8() as u64,
                    DataType::U16 => ext.get_u16() as u64,
                    DataType::S16 => ext.get_u16() as u64,
                    DataType::U32 => ext.get_u32() as u64,
                    DataType::S32 => ext.get_u32() as u64,
                    DataType::U64 => ext.get_u64(),
                    DataType::S64 => ext.get_u64(),
                    DataType::F32 => ext.get_u32() as u64,
                    DataType::F64 => ext.get_u64(),
                };
                vec_value.push(value);
                proof {
                    assert(unit * (n0 + 1) == unit * n0 + unit) by (nonlinear_arith);
                }
            }
            proof {
                let n = vec_value@.len() as int;
                vstd::arithmetic::div_mod::lemma_fundamental_div_mod_converse(
                    total - 2,
                    unit as int,
                    n,
                    total - 2 - unit * n,
                );
            }
            Ok(Monitor0 {  data_type, index, vec_value })
        } else {
            Err("Wrong length")
        }
    }

    /// Total on-wire length of the payload.
    pub fn get_length(&self) -> (r: usize)
        requires
            Monitor0::spec_size() + self.vec_value@.len() * spec_unit_size(self.data_type)
                <= usize::MAX,
        ensures
            r == Monitor0::spec_size() + self.vec_value@.len() * spec_unit_size(self.data_type),
    {
        let unit: usize = match self.data_type {
            DataType::U8 => 1,
            DataType::S8 => 1,
            DataType::U16 => 2,
            DataType::S16 => 2,
            DataType::U32 => 4,
            DataType::S32 => 4,
            DataType::U64 => 8,
            DataType::S64 => 8,
            DataType::F32 => 4,
            DataType::F64 => 8,
        };
        2 + self.vec_value.len() * unit
    }

    pub fn to_vec(&self) -> (r: Vec<u8>)
        ensures
            r@ == self.wire(),
    {
        let mut vec_data: Vec<u8> = Vec::new();
        add_u8(&mut vec_data, self.data_type.to_u8());
        add_u8(&mut vec_data, self.index);
        proof {
            assert(vec_data@.len() == 2);
        }
        let ghost fixed = vec_data@;
        let mut i: usize = 0;
        while i < self.vec_value.len()
            invariant
                i <= self.vec_value@.len(),
                fixed.len() == 2,
                vec_data@ == fixed + spec_values_wire(self.data_type, self.vec_value@.subrange(
                    0,
                    i as int,
                )),
            decreases self.vec_value@.len() - i,
        {
            let value = self.vec_value[i];
            match self.data_type {
                DataType::U8 => add_u8(&mut vec_data, value as u8),
                DataType::S8 => add_u8(&mut vec_data, value as u8),
                DataType::U16 => add_u16(&mut vec_data, value as u16),
                DataType::S16 => add_u16(&mut vec_data, value as u16),
                DataType::U32 => add_u32(&mut vec_data, value as u32),
                DataType::S32 => add_u32(&mut vec_data, value as u32),
                DataType::U64 => add_u64(&mut vec_data, value),
                DataType::S64 => add_u64(&mut vec_data, value),
                DataType::F32 => add_u32(&mut vec_data, value as u32),
                DataType::F64 => add_u64(&mut vec_data, value),
            };
            proof {
                let vs = self.vec_value@.subrange(0, i as int + 1);
                assert(vs.drop_last() =~= self.vec_value@.subrange(0, i as int));
                assert(vs.last() == self.vec_value@[i as int]);
            }
            i = i + 1;
        }
        proof {
            assert(self.vec_value@.subrange(0, self.vec_value@.len() as int) =~= self.vec_value@);
            assert(vec_data@ =~= self.wire());
        }
        vec_data
    }

    /// Decoding the wire image of a well-formed value gives every field back.
    pub proof fn lemma_wire_roundtrip(self)
        requires
            self.wf(),
        ensures
            self.wire().len() == Monitor0::spec_size() + spec_unit_size(self.data_type)
                * self.vec_value@.len(),
            DataType::spec_from_u8(self.wire()[0]) == self.data_type,
            self.wire()[1] == self.index,
            forall|j: int|
                0 <= j < self.vec_value@.len() ==> spec_unit_from(
                    self.data_type,
                    self.wire(),
                    2,
                    j,
                ) == self.vec_value@[j],
    {
        let u = spec_unit_size(self.data_type);
        let w = self.wire();
        let vw = spec_values_wire(self.data_type, self.vec_value@);
        self.data_type.lemma_code_roundtrip();
        lemma_values_wire_roundtrip(self.data_type, self.vec_value@);
        assert forall|j: int| 0 <= j < self.vec_value@.len() implies spec_unit_from(
            self.data_type,
            w,
            2,
            j,
        ) == self.vec_value@[j] by {
            if u == 1 {
                assert(w[2 + u * j] == vw[u * j]);
            } else {
                assert(w.subrange(2 + u * j, 2 + u * j + u) =~= vw.subrange(
                    u * j,
                    u * j + u,
                ));
            }
        }
    }
}


/// A run of values stamped with the sender's 32-bit millisecond clock.
#[derive(Clone, Debug)]
pub struct Monitor4 {
    pub system_time: u32,
    pub data_type: DataType,
    pub index: u8,
    pub vec_value: Vec<u64>,
}

impl Monitor4 {
    pub fn new() -> (r: Monitor4)
        ensures
            r.system_time == 0,
            r.data_type == DataType::U8,
            r.index == 0,
            r.vec_value@.len() == 0,
    {
        Monitor4 { system_time: 0,  data_type: DataType::U8, index: 0, vec_value: Vec::new() }
    }

    /// Size of the fixed leading part of the payload.
    pub open spec fn spec_size() -> usize {
        6
    }

    pub fn size() -> (r: usize)
        ensures
            r == Monitor4::spec_size(),
    {
        6
    }

    /// The bytes this value puts on the wire.
    pub open spec fn wire(self) -> Seq<u8> {
        spec_u32_to_le_bytes(self.system_time) + seq![self.data_type.code(), self.index] + spec_values_wire(
            self.data_type,
            self.vec_value@,
        )
    }

    /// Whether every held value fits its wire window.
    pub open spec fn wf(self) -> bool {
        spec_values_fit(self.data_type, self.vec_value@)
    }

    /// Whether `self` is exactly what the payload bytes `s` decode to.
    pub open spec fn decoded(self, s: Seq<u8>) -> bool {
        &&& s.len() >= Monitor4::spec_size()
&&& self.system_time == spec_u32_from_le_bytes(s.subrange(0, 4))
                &&& self.data_type == DataType::spec_from_u8(s[4])
        &&& self.index == s[5]
        &&& self.vec_value@.len() == (s.len() - Monitor4::spec_size()) as int / spec_unit_size(
            self.data_type,
        )
        &&& forall|j: int|
            0 <= j < self.vec_value@.len() ==> self.vec_value@[j] == spec_unit_from(
                self.data_type,
                s,
                Monitor4::spec_size() as int,
                j,
            )
    }

    pub fn parse(slice_data: &[u8]) -> (r: Result<Monitor4, &'static str>)
        ensures
            slice_data@.len() >= Monitor4::spec_size() ==> (r matches Ok(v) && {
                &&& v.system_time == spec_u32_from_le_bytes(slice_data@.subrange(0, 4))
                &&& v.data_type == DataType::spec_from_u8(slice_data@[4])
                &&& v.index == slice_data@[5]
                &&& v.vec_value@.len() == (slice_data@.len() - 6) as int / spec_unit_size(
                    v.data_type,
                )
                &&& forall|j: int|
                    0 <= j < v.vec_value@.len() ==> v.vec_value@[j] == spec_unit_from(
                        v.data_type,
                        slice_data@,
                        6,
                        j,
                    )
            }),
            slice_data@.len() < Monitor4::spec_size() ==> (r matches Err(_)),
    {
        if slice_data.len() >= Monitor4::size() {
            let mut ext: Extractor = Extractor::from_slice(slice_data);
            let system_time = ext.get_u32();
            let data_type = DataType::from_u8(ext.get_u8());
            let index = ext.get_u8();
            let unit: usize = match data_type {
                DataType::U8 => 1,
                DataType::S8 => 1,
                DataType::U16 => 2,
                DataType::S16 => 2,
                DataType::U32 => 4,
                DataType::S32 => 4,
                DataType::U64 => 8,
                DataType::S64 => 8,
                DataType::F32 => 4,
                DataType::F64 => 8,
            };
            let mut vec_value: Vec<u64> = Vec::new();
            let ghost total = slice_data@.len() as int;
            while ext.check_remain() >= unit
                invariant
                    unit == spec_unit_size(data_type),
                    1 <= unit <= 8,
                    ext.wf(),
                    ext.data() == slice_data@,
                    total == slice_data@.len() as int,
                    total >= 6,
                    ext.pos() == 6 + unit * vec_value@.len(),
                    forall|j: int|
                        0 <= j < vec_value@.len() ==> vec_value@[j] == spec_unit_from(
                            data_type,
                            slice_data@,
                            6,
                            j,
                        ),
                decreases slice_data@.len() - ext.pos(),
            {
                let ghost n0 = vec_value@.len() as int;
                let value: u64 = match data_type {
                    DataType::U8 => ext.get_u8() as u64,
                    DataType::S8 => ext.get_u8() as u64,
                    DataType::U16 => ext.get_u16() as u64,
                    DataType::S16 => ext.get_u16() as u64,
                    DataType::U32 => ext.get_u32() as u64,
                    DataType::S32 => ext.get_u32() as u64,
                    DataType::U64 => ext.get_u64(),
                    DataType::S64 => ext.get_u64(),
                    DataType::F32 => ext.get_u32() as u64,
                    DataType::F64 => ext.get_u64(),
                };
                vec_value.push(value);
                proof {
                    assert(unit * (n0 + 1) == unit * n0 + unit) by (nonlinear_arith);
                }
            }
            proof {
                let n = vec_value@.len() as int;
                vstd::arithmetic::div_mod::lemma_fundamental_div_mod_converse(
                    total - 6,
                    unit as int,
                    n,
                    total - 6 - unit * n,
                );
            }
            Ok(Monitor4 { system_time,  data_type, index, vec_value })
        } else {
            Err("Wrong length")
        }
    }

    /// Total on-wire length of the payload.
    pub fn get_length(&self) -> (r: usize)
        requires
            Monitor4::spec_size() + self.vec_value@.len() * spec_unit_size(self.data_type)
                <= usize::MAX,
        ensures
            r == Monitor4::spec_size() + self.vec_value@.len() * spec_unit_size(self.data_type),
    {
        let unit: usize = match self.data_type {
            DataType::U8 => 1,
            DataType::S8 => 1,
            DataType::U16 => 2,
            DataType::S16 => 2,
            DataType::U32 => 4,
            DataType::S32 => 4,
            DataType::U64 => 8,
            DataType::S64 => 8,
            DataType::F32 => 4,
            DataType::F64 => 8,
        };
        6 + self.vec_value.len() * unit
    }

    pub fn to_vec(&self) -> (r: Vec<u8>)
        ensures
            r@ == self.wire(),
    {
        let mut vec_data: Vec<u8> = Vec::new();
        add_u32(&mut vec_data, self.system_time);
        add_u8(&mut vec_data, self.data_type.to_u8());
        add_u8(&mut vec_data, self.index);
        proof {
            lemma_u32_le_bytes_roundtrip(self.system_time);
        }
        let ghost fixed = vec_data@;
        let mut i: usize = 0;
        while i < self.vec_value.len()
            invariant
                i <= self.vec_value@.len(),
                fixed.len() == 6,
                vec_data@ == fixed + spec_values_wire(self.data_type, self.vec_value@.subrange(
                    0,
                    i as int,
                )),
            decreases self.vec_value@.len() - i,
        {
            let value = self.vec_value[i];
            match self.data_type {
                DataType::U8 => add_u8(&mut vec_data, value as u8),
                DataType::S8 => add_u8(&mut vec_data, value as u8),
                DataType::U16 => add_u16(&mut vec_data, value as u16),
                DataType::S16 => add_u16(&mut vec_data, value as u16),
                DataType::U32 => add_u32(&mut vec_data, value as u32),
                DataType::S32 => add_u32(&mut vec_data, value as u32),
                DataType::U64 => add_u64(&mut vec_data, value),
                DataType::S64 => add_u64(&mut vec_data, value),
                DataType::F32 => add_u32(&mut vec_data, value as u32),
                DataType::F64 => add_u64(&mut vec_data, value),
            };
            proof {
                let vs = self.vec_value@.subrange(0, i as int + 1);
                assert(vs.drop_last() =~= self.vec_value@.subrange(0, i as int));
                assert(vs.last() == self.vec_value@[i as int]);
            }
            i = i + 1;
        }
        proof {
            assert(self.vec_value@.subrange(0, self.vec_value@.len() as int) =~= self.vec_value@);
            assert(vec_data@ =~= self.wire());
        }
        vec_data
    }

    /// Decoding the wire image of a well-formed value gives every field back.
    pub proof fn lemma_wire_roundtrip(self)
        requires
            self.wf(),
        ensures
            self.wire().len() == Monitor4::spec_size() + spec_unit_size(self.data_type)
                * self.vec_value@.len(),
            spec_u32_from_le_bytes(self.wire().subrange(0, 4)) == self.system_time,
            DataType::spec_from_u8(self.wire()[4]) == self.data_type,
            self.wire()[5] == self.index,
            forall|j: int|
                0 <= j < self.vec_value@.len() ==> spec_unit_from(
                    self.data_type,
                    self.wire(),
                    6,
                    j,
                ) == self.vec_value@[j],
    {
        let u = spec_unit_size(self.data_type);
        let w = self.wire();
        let vw = spec_values_wire(self.data_type, self.vec_value@);
        lemma_u32_le_bytes_roundtrip(self.system_time);
        assert(w.subrange(0, 4) =~= spec_u32_to_le_bytes(self.system_time));
        self.data_type.lemma_code_roundtrip();
        lemma_values_wire_roundtrip(self.data_type, self.vec_value@);
        assert forall|j: int| 0 <= j < self.vec_value@.len() implies spec_unit_from(
            self.data_type,
            w,
            6,
            j,
        ) == self.vec_value@[j] by {
            if u == 1 {
                assert(w[6 + u * j] == vw[u * j]);
            } else {
                assert(w.subrange(6 + u * j, 6 + u * j + u) =~= vw.subrange(
                    u * j,
                    u * j + u,
                ));
            }
        }
    }
}


/// A run of values stamped with the sender's 64-bit microsecond clock.
#[derive(Clone, Debug)]
pub struct Monitor8 {
    pub system_time: u64,
    pub data_type: DataType,
    pub index: u8,
    pub vec_value: Vec<u64>,
}

impl Monitor8 {
    pub fn new() -> (r: Monitor8)
        ensures
            r.system_time == 0,
            r.data_type == DataType::U8,
            r.index == 0,
            r.vec_value@.len() == 0,
    {
        Monitor8 { system_time: 0,  data_type: DataType::U8, index: 0, vec_value: Vec::new() }
    }

    /// Size of the fixed leading part of the payload.
    pub open spec fn spec_size() -> usize {
        10
    }

    pub fn size() -> (r: usize)
        ensures
            r == Monitor8::spec_size(),
    {
        10
    }

    /// The bytes this value puts on the wire.
    pub open spec fn wire(self) -> Seq<u8> {
        spec_u64_to_le_bytes(self.system_time) + seq![self.data_type.code(), self.index] + spec_values_wire(
            self.data_type,
            self.vec_value@,
        )
    }

    /// Whether every held value fits its wire window.
    pub open spec fn wf(self) -> bool {
        spec_values_fit(self.data_type, self.vec_value@)
    }

    /// Whether `self` is exactly what the payload bytes `s` decode to.
    pub open spec fn decoded(self, s: Seq<u8>) -> bool {
        &&& s.len() >= Monitor8::spec_size()
&&& self.system_time == spec_u64_from_le_bytes(s.subrange(0, 8))
                &&& self.data_type == DataType::spec_from_u8(s[8])
        &&& self.index == s[9]
        &&& self.vec_value@.len() == (s.len() - Monitor8::spec_size()) as int / spec_unit_size(
            self.data_type,
        )
        &&& forall|j: int|
            0 <= j < self.vec_value@.len() ==> self.vec_value@[j] == spec_unit_from(
                self.data_type,
                s,
                Monitor8::spec_size() as int,
                j,
            )
    }

    pub fn parse(slice_data: &[u8]) -> (r: Result<Monitor8, &'static str>)
        ensures
            slice_data@.len() >= Monitor8::spec_size() ==> (r matches Ok(v) && {
                &&& v.system_time == spec_u64_from_le_bytes(slice_data@.subrange(0, 8))
                &&& v.data_type == DataType::spec_from_u8(slice_data@[8])
                &&& v.index == slice_data@[9]
                &&& v.vec_value@.len() == (slice_data@.len() - 10) as int / spec_unit_size(
                    v.data_type,
                )
                &&& forall|j: int|
                    0 <= j < v.vec_value@.len() ==> v.vec_value@[j] == spec_unit_from(
                        v.data_type,
                        slice_data@,
                        10,
                        j,
                    )
            }),
            slice_data@.len() < Monitor8::spec_size() ==> (r matches Err(_)),
    {
        if slice_data.len() >= Monitor8::size() {
            let mut ext: Extractor = Extractor::from_slice(slice_data);
            let system_time = ext.get_u64();
            let data_type = DataType::from_u8(ext.get_u8());
            let index = ext.get_u8();
            let unit: usize = match data_type {
                DataType::U8 => 1,
                DataType::S8 => 1,
                DataType::U16 => 2,
                DataType::S16 => 2,
                DataType::U32 => 4,
                DataType::S32 => 4,
                DataType::U64 => 8,
                DataType::S64 => 8,
                DataType::F32 => 4,
                DataType::F64 => 8,
            };
            let mut vec_value: Vec<u64> = Vec::new();
            let ghost total = slice_data@.len() as int;
            while ext.check_remain() >= unit
                invariant
                    unit == spec_unit_size(data_type),
                    1 <= unit <= 8,
                    ext.wf(),
                    ext.data() == slice_data@,
                    total == slice_data@.len() as int,
                    total >= 10,
                    ext.pos() == 10 + unit * vec_value@.len(),
                    forall|j: int|
                        0 <= j < vec_value@.len() ==> vec_value@[j] == spec_unit_from(
                            data_type,
                            slice_data@,
                            10,
                            j,
                        ),
                decreases slice_data@.len() - ext.pos(),
            {
                let ghost n0 = vec_value@.len() as int;
                let value: u64 = match data_type {
                    DataType::U8 => ext.get_u8() as u64,
                    DataType::S8 => ext.get_u8() as u64,
                    DataType::U16 => ext.get_u16() as u64,
                    DataType::S16 => ext.get_u16() as u64,
                    DataType::U32 => ext.get_u32() as u64,
                    DataType::S32 => ext.get_u32() as u64,
                    DataType::U64 => ext.get_u64(),
                    DataType::S64 => ext.get_u64(),
                    DataType::F32 => ext.get_u32() as u64,
                    DataType::F64 => ext.get_u64(),
                };
                vec_value.push(value);
                proof {
                    assert(unit * (n0 + 1) == unit * n0 + unit) by (nonlinear_arith);
                }
            }
            proof {
                let n = vec_value@.len() as int;
                vstd::arithmetic::div_mod::lemma_fundamental_div_mod_converse(
                    total - 10,
                    unit as int,
                    n,
                    total - 10 - unit * n,
                );
            }
            Ok(Monitor8 { system_time,  data_type, index, vec_value })
        } else {
            Err("Wrong length")
        }
    }

    /// Total on-wire length of the payload.
    pub fn get_length(&self) -> (r: usize)
        requires
            Monitor8::spec_size() + self.vec_value@.len() * spec_unit_size(self.data_type)
                <= usize::MAX,
        ensures
            r == Monitor8::spec_size() + self.vec_value@.len() * spec_unit_size(self.data_type),
    {
        let unit: usize = match self.data_type {
            DataType::U8 => 1,
            DataType::S8 => 1,
            DataType::U16 => 2,
            DataType::S16 => 2,
            DataType::U32 => 4,
            DataType::S32 => 4,
            DataType::U64 => 8,
            DataType::S64 => 8,
            DataType::F32 => 4,
            DataType::F64 => 8,
        };
        10 + self.vec_value.len() * unit
    }

    pub fn to_vec(&self) -> (r: Vec<u8>)
        ensures
            r@ == self.wire(),
    {
        let mut vec_data: Vec<u8> = Vec::new();
        add_u64(&mut vec_data, self.system_time);
        add_u8(&mut vec_data, self.data_type.to_u8());
        add_u8(&mut vec_data, self.index);
        proof {
            lemma_u64_le_bytes_roundtrip(self.system_time);
        }
        let ghost fixed = vec_data@;
        let mut i: usize = 0;
        while i < self.vec_value.len()
            invariant
                i <= self.vec_value@.len(),
                fixed.len() == 10,
                vec_data@ == fixed + spec_values_wire(self.data_type, self.vec_value@.subrange(
                    0,
                    i as int,
                )),
            decreases self.vec_value@.len() - i,
        {
            let value = self.vec_value[i];
            match self.data_type {
                DataType::U8 => add_u8(&mut vec_data, value as u8),
                DataType::S8 => add_u8(&mut vec_data, value as u8),
                DataType::U16 => add_u16(&mut vec_data, value as u16),
                DataType::S16 => add_u16(&mut vec_data, value as u16),
                DataType::U32 => add_u32(&mut vec_data, value as u32),
                DataType::S32 => add_u32(&mut vec_data, value as u32),
                DataType::U64 => add_u64(&mut vec_data, value),
                DataType::S64 => add_u64(&mut vec_data, value),
                DataType::F32 => add_u32(&mut vec_data, value as u32),
                DataType::F64 => add_u64(&mut vec_data, value),
            };
            proof {
                let vs = self.vec_value@.subrange(0, i as int + 1);
                assert(vs.drop_last() =~= self.vec_value@.subrange(0, i as int));
                assert(vs.last() == self.vec_value@[i as int]);
            }
            i = i + 1;
        }
        proof {
            assert(self.vec_value@.subrange(0, self.vec_value@.len() as int) =~= self.vec_value@);
            assert(vec_data@ =~= self.wire());
        }
        vec_data
    }

    /// Decoding the wire image of a well-formed value gives every field back.
    pub proof fn lemma_wire_roundtrip(self)
        requires
            self.wf(),
        ensures
            self.wire().len() == Monitor8::spec_size() + spec_unit_size(self.data_type)
                * self.vec_value@.len(),
            spec_u64_from_le_bytes(self.wire().subrange(0, 8)) == self.system_time,
            DataType::spec_from_u8(self.wire()[8]) == self.data_type,
            self.wire()[9] == self.index,
            forall|j: int|
                0 <= j < self.vec_value@.len() ==> spec_unit_from(
                    self.data_type,
                    self.wire(),
                    10,
                    j,
                ) == self.vec_value@[j],
    {
        let u = spec_unit_size(self.data_type);
        let w = self.wire();
        let vw = spec_values_wire(self.data_type, self.vec_value@);
        lemma_u64_le_bytes_roundtrip(self.system_time);
        assert(w.subrange(0, 8) =~= spec_u64_to_le_bytes(self.system_time));
        self.data_type.lemma_code_roundtrip();
        lemma_values_wire_roundtrip(self.data_type, self.vec_value@);
        assert forall|j: int| 0 <= j < self.vec_value@.len() implies spec_unit_from(
            self.data_type,
            w,
            10,
            j,
        ) == self.vec_value@[j] by {
            if u == 1 {
                assert(w[10 + u * j] == vw[u * j]);
            } else {
                assert(w.subrange(10 + u * j, 10 + u * j + u) =~= vw.subrange(
                    u * j,
                    u * j + u,
                ));
            }
        }
    }
}

} // verus!
