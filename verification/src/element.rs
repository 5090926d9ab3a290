//! The closed element-kind set and the tagged buffer and scalar types.
//!
//! A buffer holds elements of exactly one kind; every access is dispatched
//! over the tag, so a mismatched kind is always detected and never
//! reinterpreted. The two wide float kinds are carried as their IEEE 754 bit
//! patterns, the form in which they cross the boundary.

use vstd::prelude::*;

verus! {

/// Closed tag identifying a buffer's homogeneous element representation.
///
/// The set covers every kind the engine distinguishes; kinds without a
/// construction path here (half floats, complex and sub-byte kinds) still
/// carry their tag so that dispatch stays exhaustive.
#[derive(Debug, Clone, Copy, PartialEq, Eq, Structural)]
pub enum TensorElementType {
    /// 32-bit IEEE float, carried as its bit pattern in a `u32`.
    Float32,
    /// Unsigned 8-bit integer.
    Uint8,
    /// Signed 8-bit integer.
    Int8,
    /// Unsigned 16-bit integer.
    Uint16,
    /// Signed 16-bit integer.
    Int16,
    /// Signed 32-bit integer.
    Int32,
    /// Signed 64-bit integer.
    Int64,
    /// UTF-8 string.
    Utf8String,
    /// Boolean.
    Bool,
    /// 16-bit IEEE float.
    Float16,
    /// 64-bit IEEE float, carried as its bit pattern in a `u64`.
    Float64,
    /// Unsigned 32-bit integer.
    Uint32,
    /// Unsigned 64-bit integer.
    Uint64,
    /// Brain 16-bit float.
    Bfloat16,
    /// Complex number of two 32-bit floats.
    Complex64,
    /// Complex number of two 64-bit floats.
    Complex128,
    /// 8-bit float with 4 exponent and 3 mantissa bits.
    Float8E4M3FN,
    /// 8-bit float with 4 exponent and 3 mantissa bits, no negative zero.
    Float8E4M3FNUZ,
    /// 8-bit float with 5 exponent and 2 mantissa bits.
    Float8E5M2,
    /// 8-bit float with 5 exponent and 2 mantissa bits, no negative zero.
    Float8E5M2FNUZ,
    /// 4-bit unsigned integer.
    Uint4,
    /// 4-bit signed integer.
    Int4,
    /// The undefined sentinel.
    Undefined,
}

/// An owned homogeneous buffer, tagged with its element kind.
///
/// Float values are held as bit patterns (`u32` for 32-bit, `u64` for 64-bit
/// floats): the tag, not the carrier type, names the element kind.
#[derive(Debug)]
pub enum TensorData {
    Float32(Vec<u32>),
    Float64(Vec<u64>),
    Int8(Vec<i8>),
    Uint8(Vec<u8>),
    Int16(Vec<i16>),
    Uint16(Vec<u16>),
    Int32(Vec<i32>),
    Uint32(Vec<u32>),
    Int64(Vec<i64>),
    Uint64(Vec<u64>),
    Bool(Vec<bool>),
    Utf8String(Vec<String>),
}

/// One element value, tagged with its kind as a buffer is.
#[derive(Debug, Clone, PartialEq, Eq)]
pub enum Scalar {
    Float32(u32),
    Float64(u64),
    Int8(i8),
    Uint8(u8),
    Int16(i16),
    Uint16(u16),
    Int32(i32),
    Uint32(u32),
    Int64(i64),
    Uint64(u64),
    Bool(bool),
    Utf8String(String),
}

/// The mathematical contents of a buffer: a sequence of plain values under
/// the same kind tag.
pub ghost enum BufferModel {
    Float32(Seq<u32>),
    Float64(Seq<u64>),
    Int8(Seq<i8>),
    Uint8(Seq<u8>),
    Int16(Seq<i16>),
    Uint16(Seq<u16>),
    Int32(Seq<i32>),
    Uint32(Seq<u32>),
    Int64(Seq<i64>),
    Uint64(Seq<u64>),
    Bool(Seq<bool>),
    Utf8String(Seq<Seq<char>>),
}

/// The mathematical value of one element.
pub ghost enum ScalarModel {
    Float32(u32),
    Float64(u64),
    Int8(i8),
    Uint8(u8),
    Int16(i16),
    Uint16(u16),
    Int32(i32),
    Uint32(u32),
    Int64(i64),
    Uint64(u64),
    Bool(bool),
    Utf8String(Seq<char>),
}

impl View for TensorData {
    type V = BufferModel;

    open spec fn view(&self) -> BufferModel {
        match self {
            TensorData::Float32(v) => BufferModel::Float32(v@),
            TensorData::Float64(v) => BufferModel::Float64(v@),
            TensorData::Int8(v) => BufferModel::Int8(v@),
            TensorData::Uint8(v) => BufferModel::Uint8(v@),
            TensorData::Int16(v) => BufferModel::Int16(v@),
            TensorData::Uint16(v) => BufferModel::Uint16(v@),
            TensorData::Int32(v) => BufferModel::Int32(v@),
            TensorData::Uint32(v) => BufferModel::Uint32(v@),
            TensorData::Int64(v) => BufferModel::Int64(v@),
            TensorData::Uint64(v) => BufferModel::Uint64(v@),
            TensorData::Bool(v) => BufferModel::Bool(v@),
            TensorData::Utf8String(v) => BufferModel::Utf8String(v.deep_view()),
        }
    }
}

impl View for Scalar {
    type V = ScalarModel;

    open spec fn view(&self) -> ScalarModel {
        match self {
            Scalar::Float32(x) => ScalarModel::Float32(*x),
            Scalar::Float64(x) => ScalarModel::Float64(*x),
            Scalar::Int8(x) => ScalarModel::Int8(*x),
            Scalar::Uint8(x) => ScalarModel::Uint8(*x),
            Scalar::Int16(x) => ScalarModel::Int16(*x),
            Scalar::Uint16(x) => ScalarModel::Uint16(*x),
            Scalar::Int32(x) => ScalarModel::Int32(*x),
            Scalar::Uint32(x) => ScalarModel::Uint32(*x),
            Scalar::Int64(x) => ScalarModel::Int64(*x),
            Scalar::Uint64(x) => ScalarModel::Uint64(*x),
            Scalar::Bool(x) => ScalarModel::Bool(*x),
            Scalar::Utf8String(x) => ScalarModel::Utf8String(x@),
        }
    }
}

impl BufferModel {
    /// The element kind a buffer is tagged with.
    pub open spec fn kind(self) -> TensorElementType {
        match self {
            BufferModel::Float32(_) => TensorElementType::Float32,
            BufferModel::Float64(_) => TensorElementType::Float64,
            BufferModel::Int8(_) => TensorElementType::Int8,
            BufferModel::Uint8(_) => TensorElementType::Uint8,
            BufferModel::Int16(_) => TensorElementType::Int16,
            BufferModel::Uint16(_) => TensorElementType::Uint16,
            BufferModel::Int32(_) => TensorElementType::Int32,
            BufferModel::Uint32(_) => TensorElementType::Uint32,
            BufferModel::Int64(_) => TensorElementType::Int64,
            BufferModel::Uint64(_) => TensorElementType::Uint64,
            BufferModel::Bool(_) => TensorElementType::Bool,
            BufferModel::Utf8String(_) => TensorElementType::Utf8String,
        }
    }

    /// How many elements the buffer holds.
    pub open spec fn len(self) -> nat {
        match self {
            BufferModel::Float32(s) => s.len(),
            BufferModel::Float64(s) => s.len(),
            BufferModel::Int8(s) => s.len(),
            BufferModel::Uint8(s) => s.len(),
            BufferModel::Int16(s) => s.len(),
            BufferModel::Uint16(s) => s.len(),
            BufferModel::Int32(s) => s.len(),
            BufferModel::Uint32(s) => s.len(),
            BufferModel::Int64(s) => s.len(),
            BufferModel::Uint64(s) => s.len(),
            BufferModel::Bool(s) => s.len(),
            BufferModel::Utf8String(s) => s.len(),
        }
    }

    /// The element at `i`, as a tagged scalar.
    pub open spec fn index(self, i: int) -> ScalarModel
        recommends
            0 <= i < self.len(),
    {
        match self {
            BufferModel::Float32(s) => ScalarModel::Float32(s[i]),
            BufferModel::Float64(s) => ScalarModel::Float64(s[i]),
            BufferModel::Int8(s) => ScalarModel::Int8(s[i]),
            BufferModel::Uint8(s) => ScalarModel::Uint8(s[i]),
            BufferModel::Int16(s) => ScalarModel::Int16(s[i]),
            BufferModel::Uint16(s) => ScalarModel::Uint16(s[i]),
            BufferModel::Int32(s) => ScalarModel::Int32(s[i]),
            BufferModel::Uint32(s) => ScalarModel::Uint32(s[i]),
            BufferModel::Int64(s) => ScalarModel::Int64(s[i]),
            BufferModel::Uint64(s) => ScalarModel::Uint64(s[i]),
            BufferModel::Bool(s) => ScalarModel::Bool(s[i]),
            BufferModel::Utf8String(s) => ScalarModel::Utf8String(s[i]),
        }
    }

    /// The buffer with the element at `i` replaced by `v`, meaningful when
    /// the kinds agree; a mismatched kind leaves the buffer unchanged.
    pub open spec fn update(self, i: int, v: ScalarModel) -> BufferModel
        recommends
            0 <= i < self.len(),
            v.kind() == self.kind(),
    {
        match (self, v) {
            (BufferModel::Float32(s), ScalarModel::Float32(x)) => BufferModel::Float32(
                s.update(i, x),
            ),
            (BufferModel::Float64(s), ScalarModel::Float64(x)) => BufferModel::Float64(
                s.update(i, x),
            ),
            (BufferModel::Int8(s), ScalarModel::Int8(x)) => BufferModel::Int8(s.update(i, x)),
            (BufferModel::Uint8(s), ScalarModel::Uint8(x)) => BufferModel::Uint8(s.update(i, x)),
            (BufferModel::Int16(s), ScalarModel::Int16(x)) => BufferModel::Int16(s.update(i, x)),
            (BufferModel::Uint16(s), ScalarModel::Uint16(x)) => BufferModel::Uint16(s.update(i, x)),
            (BufferModel::Int32(s), ScalarModel::Int32(x)) => BufferModel::Int32(s.update(i, x)),
            (BufferModel::Uint32(s), ScalarModel::Uint32(x)) => BufferModel::Uint32(s.update(i, x)),
            (BufferModel::Int64(s), ScalarModel::Int64(x)) => BufferModel::Int64(s.update(i, x)),
            (BufferModel::Uint64(s), ScalarModel::Uint64(x)) => BufferModel::Uint64(s.update(i, x)),
            (BufferModel::Bool(s), ScalarModel::Bool(x)) => BufferModel::Bool(s.update(i, x)),
            (BufferModel::Utf8String(s), ScalarModel::Utf8String(x)) => BufferModel::Utf8String(
                s.update(i, x),
            ),
            (_, _) => self,
        }
    }
}

impl ScalarModel {
    /// The element kind a scalar is tagged with.
    pub open spec fn kind(self) -> TensorElementType {
        match self {
            ScalarModel::Float32(_) => TensorElementType::Float32,
            ScalarModel::Float64(_) => TensorElementType::Float64,
            ScalarModel::Int8(_) => TensorElementType::Int8,
            ScalarModel::Uint8(_) => TensorElementType::Uint8,
            ScalarModel::Int16(_) => TensorElementType::Int16,
            ScalarModel::Uint16(_) => TensorElementType::Uint16,
            ScalarModel::Int32(_) => TensorElementType::Int32,
            ScalarModel::Uint32(_) => TensorElementType::Uint32,
            ScalarModel::Int64(_) => TensorElementType::Int64,
            ScalarModel::Uint64(_) => TensorElementType::Uint64,
            ScalarModel::Bool(_) => TensorElementType::Bool,
            ScalarModel::Utf8String(_) => TensorElementType::Utf8String,
        }
    }
}

impl TensorData {
    /// The element kind of the buffer.
    pub fn kind(&self) -> (k: TensorElementType)
        ensures
            k == self@.kind(),
    {
        match self {
            TensorData::Float32(_) => TensorElementType::Float32,
            TensorData::Float64(_) => TensorElementType::Float64,
            TensorData::Int8(_) => TensorElementType::Int8,
            TensorData::Uint8(_) => TensorElementType::Uint8,
            TensorData::Int16(_) => TensorElementType::Int16,
            TensorData::Uint16(_) => TensorElementType::Uint16,
            TensorData::Int32(_) => TensorElementType::Int32,
            TensorData::Uint32(_) => TensorElementType::Uint32,
            TensorData::Int64(_) => TensorElementType::Int64,
            TensorData::Uint64(_) => TensorElementType::Uint64,
            TensorData::Bool(_) => TensorElementType::Bool,
            TensorData::Utf8String(_) => TensorElementType::Utf8String,
        }
    }

    /// How many elements the buffer holds.
    pub fn len(&self) -> (n: usize)
        ensures
            n == self@.len(),
    {
        match self {
            TensorData::Float32(v) => v.len(),
            TensorData::Float64(v) => v.len(),
            TensorData::Int8(v) => v.len(),
            TensorData::Uint8(v) => v.len(),
            TensorData::Int16(v) => v.len(),
            TensorData::Uint16(v) => v.len(),
            TensorData::Int32(v) => v.len(),
            TensorData::Uint32(v) => v.len(),
            TensorData::Int64(v) => v.len(),
            TensorData::Uint64(v) => v.len(),
            TensorData::Bool(v) => v.len(),
            TensorData::Utf8String(v) => v.len(),
        }
    }

    /// An independently owned buffer with the same contents.
    pub fn duplicate(&self) -> (r: TensorData)
        ensures
            r@ == self@,
    {
        match self {
            TensorData::Float32(v) => TensorData::Float32(v.clone()),
            TensorData::Float64(v) => TensorData::Float64(v.clone()),
            TensorData::Int8(v) => TensorData::Int8(v.clone()),
            TensorData::Uint8(v) => TensorData::Uint8(v.clone()),
            TensorData::Int16(v) => TensorData::Int16(v.clone()),
            TensorData::Uint16(v) => TensorData::Uint16(v.clone()),
            TensorData::Int32(v) => TensorData::Int32(v.clone()),
            TensorData::Uint32(v) => TensorData::Uint32(v.clone()),
            TensorData::Int64(v) => TensorData::Int64(v.clone()),
            TensorData::Uint64(v) => TensorData::Uint64(v.clone()),
            TensorData::Bool(v) => TensorData::Bool(v.clone()),
            TensorData::Utf8String(v) => {
                let copy = v.clone();
                proof {
                    assert(copy.deep_view() =~= v.deep_view());
                }
                TensorData::Utf8String(copy)
            },
        }
    }
}

impl Scalar {
    /// The element kind of the scalar.
    pub fn kind(&self) -> (k: TensorElementType)
        ensures
            k == self@.kind(),
    {
        match self {
            Scalar::Float32(_) => TensorElementType::Float32,
            Scalar::Float64(_) => TensorElementType::Float64,
            Scalar::Int8(_) => TensorElementType::Int8,
            Scalar::Uint8(_) => TensorElementType::Uint8,
            Scalar::Int16(_) => TensorElementType::Int16,
            Scalar::Uint16(_) => TensorElementType::Uint16,
            Scalar::Int32(_) => TensorElementType::Int32,
            Scalar::Uint32(_) => TensorElementType::Uint32,
            Scalar::Int64(_) => TensorElementType::Int64,
            Scalar::Uint64(_) => TensorElementType::Uint64,
            Scalar::Bool(_) => TensorElementType::Bool,
            Scalar::Utf8String(_) => TensorElementType::Utf8String,
        }
    }
}

} // verus!
