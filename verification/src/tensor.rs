//! The typed tensor store: an owned, kind-tagged buffer with its resolved
//! shape and a construction-time mutability flag.
//!
//! A tensor built from caller data of a numeric kind is mutable; a string
//! tensor, or one wrapped around an engine-computed value, never is. Element
//! access is dispatched over the kind tag and fails with a typed error rather
//! than reinterpreting the buffer.

use vstd::prelude::*;

use crate::element::{BufferModel, Scalar, ScalarModel, TensorData, TensorElementType};
use crate::errors::TensorError;
use crate::shape::{
    dims_product, known_product, lemma_dims_product_zero, lemma_fully_specified,
    lemma_known_product_zero, lemma_resolved_wf, prefix_products_fit, resolve_shape, shape_ok,
    spec_resolve_error, spec_resolved, wildcard_product_nonzero,
};

verus! {

/// The mathematical value of a tensor: its contents, its dimensions and its
/// mutability.
pub ghost struct TensorModel {
    pub data: BufferModel,
    pub shape: Seq<i64>,
    pub mutable: bool,
}

/// An owned homogeneous buffer together with its resolved shape and the
/// construction-time mutability flag.
#[derive(Debug)]
pub struct TensorImpl {
    data: TensorData,
    shape: Vec<i64>,
    mutable: bool,
}

impl View for TensorImpl {
    type V = TensorModel;

    closed spec fn view(&self) -> TensorModel {
        TensorModel { data: self.data@, shape: self.shape@, mutable: self.mutable }
    }
}

/// Well-formedness of a tensor: non-negative dimensions whose product is the
/// buffer length (a zero dimension forcing an empty buffer), and no mutable
/// string buffer.
pub open spec fn tensor_wf(m: TensorModel) -> bool {
    &&& forall|i: int| 0 <= i < m.shape.len() ==> m.shape[i] >= 0
    &&& dims_product(m.shape) == m.data.len()
    &&& (m.mutable ==> m.data.kind() != TensorElementType::Utf8String)
}

/// The shape specification as a sequence, when one was given.
pub open spec fn shape_view(shape: Option<Vec<i64>>) -> Option<Seq<i64>> {
    match shape {
        Some(v) => Some(v@),
        None => None,
    }
}

/// What constructing a tensor from flat data yields: without a shape, one
/// flat dimension; with one, the resolved dimensions or the resolution
/// error. Numeric kinds come out mutable, the string kind immutable.
pub open spec fn spec_from_array(shape: Option<Seq<i64>>, data: BufferModel) -> Result<
    TensorModel,
    TensorError,
> {
    let len = data.len();
    let mutable = data.kind() != TensorElementType::Utf8String;
    match shape {
        None => Ok(TensorModel { data, shape: seq![len as i64], mutable }),
        Some(s) => if shape_ok(s, len as int) {
            Ok(TensorModel { data, shape: spec_resolved(s, len as int), mutable })
        } else {
            Err(spec_resolve_error(s, len as usize))
        },
    }
}

/// What every flat construction requires: a length the dimension type can
/// hold, a running product that stays representable, and no wildcard paired
/// with a zero dimension.
pub open spec fn from_array_pre(shape: Option<Vec<i64>>, len: nat) -> bool {
    &&& len <= i64::MAX as nat
    &&& (shape_view(shape) matches Some(s) ==> prefix_products_fit(s))
    &&& (shape_view(shape) matches Some(s) ==> wildcard_product_nonzero(s))
}

/// What every flat construction ensures: the outcome of [`spec_from_array`],
/// and well-formedness of the tensor on success.
pub open spec fn from_array_post(
    r: Result<TensorImpl, TensorError>,
    shape: Option<Vec<i64>>,
    data: BufferModel,
) -> bool {
    &&& (spec_from_array(shape_view(shape), data) matches Ok(m) ==> (r matches Ok(t) && t@ == m
        && tensor_wf(t@)))
    &&& (spec_from_array(shape_view(shape), data) matches Err(e) ==> r == Err::<
        TensorImpl,
        TensorError,
    >(e))
}

/// What writing one element yields: the buffer with that element replaced,
/// or the error — an immutable tensor, a mismatched kind and an out-of-range
/// index are refused in that order.
pub open spec fn spec_set_index(m: TensorModel, index: usize, value: ScalarModel) -> Result<
    TensorModel,
    TensorError,
> {
    if !m.mutable {
        Err(TensorError::NotMutable)
    } else if value.kind() != m.data.kind() {
        Err(TensorError::TypeError)
    } else if index >= m.data.len() {
        Err(TensorError::IndexError(index))
    } else {
        Ok(TensorModel { data: m.data.update(index as int, value), shape: m.shape, mutable: true })
    }
}

impl TensorImpl {
    /// Builds a tensor from flat caller data and an optional shape: the shape
    /// is resolved, a zero dimension demands empty data, and the tensor is
    /// mutable exactly for the numeric kinds.
    pub fn from_array(shape: Option<Vec<i64>>, data: TensorData) -> (r: Result<
        TensorImpl,
        TensorError,
    >)
        requires
            from_array_pre(shape, data@.len()),
        ensures
            from_array_post(r, shape, data@),
    {
        let ghost shape_spec = shape_view(shape);
        let kind = data.kind();
        let len = data.len();
        let resolved = match resolve_shape(shape, len) {
            Ok(v) => v,
            Err(e) => {
                return Err(e);
            },
        };
        if kind != TensorElementType::Utf8String {
            let mut has_zero = false;
            let mut i: usize = 0;
            while i < resolved.len()
                invariant
                    i <= resolved@.len(),
                    has_zero <==> exists|k: int| 0 <= k < i && resolved@[k] == 0,
                decreases resolved@.len() - i,
            {
                if resolved[i] == 0 {
                    has_zero = true;
                }
                i = i + 1;
            }
            if has_zero && len != 0 {
                proof {
                    let k = choose|k: int| 0 <= k < resolved@.len() && resolved@[k] == 0;
                    if let Some(s) = shape_spec {
                        lemma_resolved_wf(s, len as int);
                    }
                    lemma_dims_product_zero(resolved@, k);
                    assert(false);
                }
                return Err(TensorError::NonEmptyDataForZeroDim);
            }
        }
        let mutable = kind != TensorElementType::Utf8String;
        proof {
            if let Some(s) = shape_spec {
                lemma_resolved_wf(s, len as int);
            } else {
                assert(resolved@.drop_last() =~= Seq::<i64>::empty());
                assert(dims_product(Seq::<i64>::empty()) == 1);
                assert(resolved@.last() == len as i64);
                assert(dims_product(resolved@) == len as int);
            }
        }
        Ok(TensorImpl { data, shape: resolved, mutable })
    }

    /// Wraps values computed by the engine: the kind comes from the buffer's
    /// own tag and the tensor is never mutable. The engine hands over a shape
    /// consistent with the buffer; the caller restates that consistency.
    pub fn from_computed(shape: Vec<i64>, data: TensorData) -> (t: TensorImpl)
        requires
            forall|i: int| 0 <= i < shape@.len() ==> shape@[i] >= 0,
            dims_product(shape@) == data@.len(),
        ensures
            t@ == (TensorModel { data: data@, shape: shape@, mutable: false }),
            tensor_wf(t@),
    {
        TensorImpl { data, shape, mutable: false }
    }

    /// Whether this tensor's underlying data is mutable.
    pub fn is_mutable(&self) -> (m: bool)
        ensures
            m == self@.mutable,
    {
        self.mutable
    }

    /// The element kind of the tensor.
    pub fn dtype(&self) -> (k: TensorElementType)
        ensures
            k == self@.data.kind(),
    {
        self.data.kind()
    }

    /// The resolved shape of the tensor.
    pub fn shape(&self) -> (r: Vec<i64>)
        ensures
            r@ == self@.shape,
    {
        let r = self.shape.clone();
        proof {
            assert(r@ =~= self.shape@);
        }
        r
    }

    /// A copy of this tensor: same contents, shape, kind and mutability, in
    /// an independently owned buffer.
    pub fn clone(&self) -> (t: TensorImpl)
        ensures
            t@ == self@,
    {
        let shape = self.shape.clone();
        proof {
            assert(shape@ =~= self.shape@);
        }
        TensorImpl { data: self.data.duplicate(), shape, mutable: self.mutable }
    }

    /// The element at `index`, as a tagged scalar.
    pub fn get_index(&self, index: usize) -> (r: Result<Scalar, TensorError>)
        ensures
            index < self@.data.len() ==> (r matches Ok(v) && v@ == self@.data.index(index as int)),
            index >= self@.data.len() ==> r == Err::<Scalar, TensorError>(
                TensorError::IndexError(index),
            ),
    {
        match &self.data {
            TensorData::Float32(v) => if index < v.len() {
                Ok(Scalar::Float32(v[index]))
            } else {
                Err(TensorError::IndexError(index))
            },
            TensorData::Float64(v) => if index < v.len() {
                Ok(Scalar::Float64(v[index]))
            } else {
                Err(TensorError::IndexError(index))
            },
            TensorData::Int8(v) => if index < v.len() {
                Ok(Scalar::Int8(v[index]))
            } else {
                Err(TensorError::IndexError(index))
            },
            TensorData::Uint8(v) => if index < v.len() {
                Ok(Scalar::Uint8(v[index]))
            } else {
                Err(TensorError::IndexError(index))
            },
            TensorData::Int16(v) => if index < v.len() {
                Ok(Scalar::Int16(v[index]))
            } else {
                Err(TensorError::IndexError(index))
            },
            TensorData::Uint16(v) => if index < v.len() {
                Ok(Scalar::Uint16(v[index]))
            } else {
                Err(TensorError::IndexError(index))
            },
            TensorData::Int32(v) => if index < v.len() {
                Ok(Scalar::Int32(v[index]))
            } else {
                Err(TensorError::IndexError(index))
            },
            TensorData::Uint32(v) => if index < v.len() {
                Ok(Scalar::Uint32(v[index]))
            } else {
                Err(TensorError::IndexError(index))
            },
            TensorData::Int64(v) => if index < v.len() {
                Ok(Scalar::Int64(v[index]))
            } else {
                Err(TensorError::IndexError(index))
            },
            TensorData::Uint64(v) => if index < v.len() {
                Ok(Scalar::Uint64(v[index]))
            } else {
                Err(TensorError::IndexError(index))
            },
            TensorData::Bool(v) => if index < v.len() {
                Ok(Scalar::Bool(v[index]))
            } else {
                Err(TensorError::IndexError(index))
            },
            TensorData::Utf8String(v) => if index < v.len() {
                let s = v[index].clone();
                proof {
                    assert(v.deep_view()[index as int] == v@[index as int]@);
                }
                Ok(Scalar::Utf8String(s))
            } else {
                Err(TensorError::IndexError(index))
            },
        }
    }

    /// Writes one element in place: refused on an immutable tensor, on a
    /// mismatched element kind, and on an out-of-range index, in that order.
    pub fn set_index(&mut self, index: usize, value: Scalar) -> (r: Result<(), TensorError>)
        requires
            tensor_wf(old(self)@),
        ensures
            tensor_wf(final(self)@),
            spec_set_index(old(self)@, index, value@) matches Ok(m) ==> (r is Ok && final(self)@
                == m),
            spec_set_index(old(self)@, index, value@) matches Err(e) ==> (r == Err::<
                (),
                TensorError,
            >(e) && final(self)@ == old(self)@),
    {
        if !self.mutable {
            return Err(TensorError::NotMutable);
        }
        if value.kind() != self.data.kind() {
            return Err(TensorError::TypeError);
        }
        if index >= self.data.len() {
            return Err(TensorError::IndexError(index));
        }
        let mut data = TensorData::Bool(Vec::new());
        core::mem::swap(&mut data, &mut self.data);
        let written = match (data, value) {
            (TensorData::Float32(mut v), Scalar::Float32(x)) => {
                v[index] = x;
                TensorData::Float32(v)
            },
            (TensorData::Float64(mut v), Scalar::Float64(x)) => {
                v[index] = x;
                TensorData::Float64(v)
            },
            (TensorData::Int8(mut v), Scalar::Int8(x)) => {
                v[index] = x;
                TensorData::Int8(v)
            },
            (TensorData::Uint8(mut v), Scalar::Uint8(x)) => {
                v[index] = x;
                TensorData::Uint8(v)
            },
            (TensorData::Int16(mut v), Scalar::Int16(x)) => {
                v[index] = x;
                TensorData::Int16(v)
            },
            (TensorData::Uint16(mut v), Scalar::Uint16(x)) => {
                v[index] = x;
                TensorData::Uint16(v)
            },
            (TensorData::Int32(mut v), Scalar::Int32(x)) => {
                v[index] = x;
                TensorData::Int32(v)
            },
            (TensorData::Uint32(mut v), Scalar::Uint32(x)) => {
                v[index] = x;
                TensorData::Uint32(v)
            },
            (TensorData::Int64(mut v), Scalar::Int64(x)) => {
                v[index] = x;
                TensorData::Int64(v)
            },
            (TensorData::Uint64(mut v), Scalar::Uint64(x)) => {
                v[index] = x;
                TensorData::Uint64(v)
            },
            (TensorData::Bool(mut v), Scalar::Bool(x)) => {
                v[index] = x;
                TensorData::Bool(v)
            },
            (d, _) => {
                proof {
                    assert(false);
                }
                d
            },
        };
        self.data = written;
        Ok(())
    }
}

impl TensorImpl {
    /// Resolves an optional shape against flat data: the shape of the tensor
    /// the data would build, with `-1` and `0` handled as [`resolve_shape`]
    /// says, or a one-dimensional shape when none was provided.
    pub fn parse_shape<T>(shape: Option<Vec<i64>>, data: &Vec<T>) -> (r: Result<
        Vec<i64>,
        TensorError,
    >)
        requires
            data@.len() as int <= i64::MAX as int,
            shape matches Some(s) ==> prefix_products_fit(s@),
            shape matches Some(s) ==> wildcard_product_nonzero(s@),
        ensures
            shape is None ==> (r matches Ok(v) && v@ == seq![data@.len() as i64]),
            shape matches Some(s) ==> (r is Ok <==> shape_ok(s@, data@.len() as int)),
            shape matches Some(s) ==> r matches Ok(v) ==> v@ == spec_resolved(
                s@,
                data@.len() as int,
            ),
            shape matches Some(s) ==> r matches Err(e) ==> e == spec_resolve_error(
                s@,
                data@.len() as usize,
            ),
    {
        resolve_shape(shape, data.len())
    }

    /// Builds a mutable 32-bit float tensor; the data are IEEE bit patterns.
    pub fn from_array_f32(shape: Option<Vec<i64>>, data: Vec<u32>) -> (r: Result<
        TensorImpl,
        TensorError,
    >)
        requires
            from_array_pre(shape, data@.len()),
        ensures
            from_array_post(r, shape, BufferModel::Float32(data@)),
    {
        TensorImpl::from_array(shape, TensorData::Float32(data))
    }

    /// Builds a mutable 64-bit float tensor; the data are IEEE bit patterns.
    pub fn from_array_f64(shape: Option<Vec<i64>>, data: Vec<u64>) -> (r: Result<
        TensorImpl,
        TensorError,
    >)
        requires
            from_array_pre(shape, data@.len()),
        ensures
            from_array_post(r, shape, BufferModel::Float64(data@)),
    {
        TensorImpl::from_array(shape, TensorData::Float64(data))
    }

    /// Builds a mutable signed 8-bit tensor.
    pub fn from_array_i8(shape: Option<Vec<i64>>, data: Vec<i8>) -> (r: Result<
        TensorImpl,
        TensorError,
    >)
        requires
            from_array_pre(shape, data@.len()),
        ensures
            from_array_post(r, shape, BufferModel::Int8(data@)),
    {
        TensorImpl::from_array(shape, TensorData::Int8(data))
    }

    /// Builds a mutable unsigned 8-bit tensor.
    pub fn from_array_u8(shape: Option<Vec<i64>>, data: Vec<u8>) -> (r: Result<
        TensorImpl,
        TensorError,
    >)
        requires
            from_array_pre(shape, data@.len()),
        ensures
            from_array_post(r, shape, BufferModel::Uint8(data@)),
    {
        TensorImpl::from_array(shape, TensorData::Uint8(data))
    }

    /// Builds a mutable signed 16-bit tensor.
    pub fn from_array_i16(shape: Option<Vec<i64>>, data: Vec<i16>) -> (r: Result<
        TensorImpl,
        TensorError,
    >)
        requires
            from_array_pre(shape, data@.len()),
        ensures
            from_array_post(r, shape, BufferModel::Int16(data@)),
    {
        TensorImpl::from_array(shape, TensorData::Int16(data))
    }

    /// Builds a mutable unsigned 16-bit tensor.
    pub fn from_array_u16(shape: Option<Vec<i64>>, data: Vec<u16>) -> (r: Result<
        TensorImpl,
        TensorError,
    >)
        requires
            from_array_pre(shape, data@.len()),
        ensures
            from_array_post(r, shape, BufferModel::Uint16(data@)),
    {
        TensorImpl::from_array(shape, TensorData::Uint16(data))
    }

    /// Builds a mutable signed 32-bit tensor.
    pub fn from_array_i32(shape: Option<Vec<i64>>, data: Vec<i32>) -> (r: Result<
        TensorImpl,
        TensorError,
    >)
        requires
            from_array_pre(shape, data@.len()),
        ensures
            from_array_post(r, shape, BufferModel::Int32(data@)),
    {
        TensorImpl::from_array(shape, TensorData::Int32(data))
    }

    /// Builds a mutable unsigned 32-bit tensor.
    pub fn from_array_u32(shape: Option<Vec<i64>>, data: Vec<u32>) -> (r: Result<
        TensorImpl,
        TensorError,
    >)
        requires
            from_array_pre(shape, data@.len()),
        ensures
            from_array_post(r, shape, BufferModel::Uint32(data@)),
    {
        TensorImpl::from_array(shape, TensorData::Uint32(data))
    }

    /// Builds a mutable signed 64-bit tensor.
    pub fn from_array_i64(shape: Option<Vec<i64>>, data: Vec<i64>) -> (r: Result<
        TensorImpl,
        TensorError,
    >)
        requires
            from_array_pre(shape, data@.len()),
        ensures
            from_array_post(r, shape, BufferModel::Int64(data@)),
    {
        TensorImpl::from_array(shape, TensorData::Int64(data))
    }

    /// Builds a mutable unsigned 64-bit tensor.
    pub fn from_array_u64(shape: Option<Vec<i64>>, data: Vec<u64>) -> (r: Result<
        TensorImpl,
        TensorError,
    >)
        requires
            from_array_pre(shape, data@.len()),
        ensures
            from_array_post(r, shape, BufferModel::Uint64(data@)),
    {
        TensorImpl::from_array(shape, TensorData::Uint64(data))
    }

    /// Builds a mutable boolean tensor.
    pub fn from_array_bool(shape: Option<Vec<i64>>, data: Vec<bool>) -> (r: Result<
        TensorImpl,
        TensorError,
    >)
        requires
            from_array_pre(shape, data@.len()),
        ensures
            from_array_post(r, shape, BufferModel::Bool(data@)),
    {
        TensorImpl::from_array(shape, TensorData::Bool(data))
    }

    /// Builds a string tensor, which is never mutable through this layer.
    pub fn from_array_string(shape: Option<Vec<i64>>, data: Vec<String>) -> (r: Result<
        TensorImpl,
        TensorError,
    >)
        requires
            from_array_pre(shape, data@.len()),
        ensures
            from_array_post(r, shape, BufferModel::Utf8String(data.deep_view())),
    {
        TensorImpl::from_array(shape, TensorData::Utf8String(data))
    }

    /// The whole buffer, copied out with its kind tag.
    pub fn get_data(&self) -> (r: TensorData)
        ensures
            r@ == self@.data,
    {
        self.data.duplicate()
    }

    /// The 32-bit float buffer, copied out as bit patterns, or a type error
    /// on a buffer of any other kind.
    pub fn get_data_f32(&mut self) -> (r: Result<Vec<u32>, TensorError>)
        ensures
            *final(self) == *old(self),
            old(self)@.data matches BufferModel::Float32(s) ==> (r matches Ok(v) && v@ == s),
            old(self)@.data.kind() != TensorElementType::Float32 ==> r == Err::<
                Vec<u32>,
                TensorError,
            >(TensorError::TypeError),
    {
        match &self.data {
            TensorData::Float32(v) => {
                let copy = v.clone();
                proof {
                    assert(copy@ =~= v@);
                }
                Ok(copy)
            },
            _ => Err(TensorError::TypeError),
        }
    }

    /// The 32-bit float buffer copied out of a mutable borrow; like
    /// [`Self::get_data_f32`], it hands back a materialized copy, never a
    /// live alias.
    pub fn get_data_mut_f32(&mut self) -> (r: Result<Vec<u32>, TensorError>)
        ensures
            *final(self) == *old(self),
            old(self)@.data matches BufferModel::Float32(s) ==> (r matches Ok(v) && v@ == s),
            old(self)@.data.kind() != TensorElementType::Float32 ==> r == Err::<
                Vec<u32>,
                TensorError,
            >(TensorError::TypeError),
    {
        self.get_data_f32()
    }

    /// One 32-bit float element, as its bit pattern.
    pub fn get_index_f32(&mut self, index: usize) -> (r: Result<u32, TensorError>)
        ensures
            *final(self) == *old(self),
            old(self)@.data.kind() != TensorElementType::Float32 ==> r == Err::<
                u32,
                TensorError,
            >(TensorError::TypeError),
            old(self)@.data matches BufferModel::Float32(s) ==> ((index < s.len() ==> (
            r matches Ok(x) && x == s[index as int])) && (index >= s.len() ==> r == Err::<
                u32,
                TensorError,
            >(TensorError::IndexError(index)))),
    {
        match &self.data {
            TensorData::Float32(v) => if index < v.len() {
                Ok(v[index])
            } else {
                Err(TensorError::IndexError(index))
            },
            _ => Err(TensorError::TypeError),
        }
    }

    /// Writes one 32-bit float element, given as its bit pattern.
    pub fn set_index_f32(&mut self, index: usize, value: u32) -> (r: Result<(), TensorError>)
        requires
            tensor_wf(old(self)@),
        ensures
            tensor_wf(final(self)@),
            spec_set_index(old(self)@, index, ScalarModel::Float32(value)) matches Ok(m) ==> (
            r is Ok && final(self)@ == m),
            spec_set_index(old(self)@, index, ScalarModel::Float32(value)) matches Err(e) ==> (r
                == Err::<(), TensorError>(e) && final(self)@ == old(self)@),
    {
        self.set_index(index, Scalar::Float32(value))
    }

    /// The string buffer, copied out, or a type error on a buffer of any
    /// other kind.
    pub fn get_data_string(&mut self) -> (r: Result<Vec<String>, TensorError>)
        ensures
            *final(self) == *old(self),
            old(self)@.data matches BufferModel::Utf8String(s) ==> (r matches Ok(v)
                && v.deep_view() == s),
            old(self)@.data.kind() != TensorElementType::Utf8String ==> r == Err::<
                Vec<String>,
                TensorError,
            >(TensorError::TypeError),
    {
        match &self.data {
            TensorData::Utf8String(v) => {
                let copy = v.clone();
                proof {
                    assert(copy.deep_view() =~= v.deep_view());
                }
                Ok(copy)
            },
            _ => Err(TensorError::TypeError),
        }
    }

    /// One string element, copied out.
    pub fn get_index_string(&mut self, index: usize) -> (r: Result<String, TensorError>)
        ensures
            *final(self) == *old(self),
            old(self)@.data.kind() != TensorElementType::Utf8String ==> r == Err::<
                String,
                TensorError,
            >(TensorError::TypeError),
            old(self)@.data matches BufferModel::Utf8String(s) ==> ((index < s.len() ==> (
            r matches Ok(x) && x@ == s[index as int])) && (index >= s.len() ==> r == Err::<
                String,
                TensorError,
            >(TensorError::IndexError(index)))),
    {
        match &self.data {
            TensorData::Utf8String(v) => if index < v.len() {
                let s = v[index].clone();
                proof {
                    assert(v.deep_view()[index as int] == v@[index as int]@);
                }
                Ok(s)
            } else {
                Err(TensorError::IndexError(index))
            },
            _ => Err(TensorError::TypeError),
        }
    }
}


/// Per-kind element access: each operation projects the tagged dispatch
/// of [`TensorImpl::get_index`] and [`TensorImpl::set_index`] onto one
/// element kind, failing with a type error on any other kind.
impl TensorImpl {
    /// The 64-bit float buffer, copied out, or a type error on a buffer of any
    /// other kind.
    pub fn get_data_f64(&mut self) -> (r: Result<Vec<u64>, TensorError>)
        ensures
            *final(self) == *old(self),
            old(self)@.data matches BufferModel::Float64(s) ==> (r matches Ok(v) && v@ == s),
            old(self)@.data.kind() != TensorElementType::Float64 ==> r == Err::<
                Vec<u64>,
                TensorError,
            >(TensorError::TypeError),
    {
        match &self.data {
            TensorData::Float64(v) => {
                let copy = v.clone();
                proof {
                    assert(copy@ =~= v@);
                }
                Ok(copy)
            },
            _ => Err(TensorError::TypeError),
        }
    }

    /// The 64-bit float buffer copied out of a mutable borrow; a materialized
    /// copy, never a live alias.
    pub fn get_data_mut_f64(&mut self) -> (r: Result<Vec<u64>, TensorError>)
        ensures
            *final(self) == *old(self),
            old(self)@.data matches BufferModel::Float64(s) ==> (r matches Ok(v) && v@ == s),
            old(self)@.data.kind() != TensorElementType::Float64 ==> r == Err::<
                Vec<u64>,
                TensorError,
            >(TensorError::TypeError),
    {
        self.get_data_f64()
    }

    /// One 64-bit float element.
    pub fn get_index_f64(&mut self, index: usize) -> (r: Result<u64, TensorError>)
        ensures
            *final(self) == *old(self),
            old(self)@.data.kind() != TensorElementType::Float64 ==> r == Err::<
                u64,
                TensorError,
            >(TensorError::TypeError),
            old(self)@.data matches BufferModel::Float64(s) ==> ((index < s.len() ==> (
            r matches Ok(x) && x == s[index as int])) && (index >= s.len() ==> r == Err::<
                u64,
                TensorError,
            >(TensorError::IndexError(index)))),
    {
        match &self.data {
            TensorData::Float64(v) => if index < v.len() {
                Ok(v[index])
            } else {
                Err(TensorError::IndexError(index))
            },
            _ => Err(TensorError::TypeError),
        }
    }

    /// Writes one 64-bit float element.
    pub fn set_index_f64(&mut self, index: usize, value: u64) -> (r: Result<(), TensorError>)
        requires
            tensor_wf(old(self)@),
        ensures
            tensor_wf(final(self)@),
            spec_set_index(old(self)@, index, ScalarModel::Float64(value)) matches Ok(m) ==> (
            r is Ok && final(self)@ == m),
            spec_set_index(old(self)@, index, ScalarModel::Float64(value)) matches Err(e) ==> (r
                == Err::<(), TensorError>(e) && final(self)@ == old(self)@),
    {
        self.set_index(index, Scalar::Float64(value))
    }

    /// The signed 8-bit buffer, copied out, or a type error on a buffer of any
    /// other kind.
    pub fn get_data_i8(&mut self) -> (r: Result<Vec<i8>, TensorError>)
        ensures
            *final(self) == *old(self),
            old(self)@.data matches BufferModel::Int8(s) ==> (r matches Ok(v) && v@ == s),
            old(self)@.data.kind() != TensorElementType::Int8 ==> r == Err::<
                Vec<i8>,
                TensorError,
            >(TensorError::TypeError),
    {
        match &self.data {
            TensorData::Int8(v) => {
                let copy = v.clone();
                proof {
                    assert(copy@ =~= v@);
                }
                Ok(copy)
            },
            _ => Err(TensorError::TypeError),
        }
    }

    /// The signed 8-bit buffer copied out of a mutable borrow; a materialized
    /// copy, never a live alias.
    pub fn get_data_mut_i8(&mut self) -> (r: Result<Vec<i8>, TensorError>)
        ensures
            *final(self) == *old(self),
            old(self)@.data matches BufferModel::Int8(s) ==> (r matches Ok(v) && v@ == s),
            old(self)@.data.kind() != TensorElementType::Int8 ==> r == Err::<
                Vec<i8>,
                TensorError,
            >(TensorError::TypeError),
    {
        self.get_data_i8()
    }

    /// One signed 8-bit element.
    pub fn get_index_i8(&mut self, index: usize) -> (r: Result<i8, TensorError>)
        ensures
            *final(self) == *old(self),
            old(self)@.data.kind() != TensorElementType::Int8 ==> r == Err::<
                i8,
                TensorError,
            >(TensorError::TypeError),
            old(self)@.data matches BufferModel::Int8(s) ==> ((index < s.len() ==> (
            r matches Ok(x) && x == s[index as int])) && (index >= s.len() ==> r == Err::<
                i8,
                TensorError,
            >(TensorError::IndexError(index)))),
    {
        match &self.data {
            TensorData::Int8(v) => if index < v.len() {
                Ok(v[index])
            } else {
                Err(TensorError::IndexError(index))
            },
            _ => Err(TensorError::TypeError),
        }
    }

    /// Writes one signed 8-bit element.
    pub fn set_index_i8(&mut self, index: usize, value: i8) -> (r: Result<(), TensorError>)
        requires
            tensor_wf(old(self)@),
        ensures
            tensor_wf(final(self)@),
            spec_set_index(old(self)@, index, ScalarModel::Int8(value)) matches Ok(m) ==> (
            r is Ok && final(self)@ == m),
            spec_set_index(old(self)@, index, ScalarModel::Int8(value)) matches Err(e) ==> (r
                == Err::<(), TensorError>(e) && final(self)@ == old(self)@),
    {
        self.set_index(index, Scalar::Int8(value))
    }

    /// The unsigned 8-bit buffer, copied out, or a type error on a buffer of any
    /// other kind.
    pub fn get_data_u8(&mut self) -> (r: Result<Vec<u8>, TensorError>)
        ensures
            *final(self) == *old(self),
            old(self)@.data matches BufferModel::Uint8(s) ==> (r matches Ok(v) && v@ == s),
            old(self)@.data.kind() != TensorElementType::Uint8 ==> r == Err::<
                Vec<u8>,
                TensorError,
            >(TensorError::TypeError),
    {
        match &self.data {
            TensorData::Uint8(v) => {
                let copy = v.clone();
                proof {
                    assert(copy@ =~= v@);
                }
                Ok(copy)
            },
            _ => Err(TensorError::TypeError),
        }
    }

    /// The unsigned 8-bit buffer copied out of a mutable borrow; a materialized
    /// copy, never a live alias.
    pub fn get_data_mut_u8(&mut self) -> (r: Result<Vec<u8>, TensorError>)
        ensures
            *final(self) == *old(self),
            old(self)@.data matches BufferModel::Uint8(s) ==> (r matches Ok(v) && v@ == s),
            old(self)@.data.kind() != TensorElementType::Uint8 ==> r == Err::<
                Vec<u8>,
                TensorError,
            >(TensorError::TypeError),
    {
        self.get_data_u8()
    }

    /// One unsigned 8-bit element.
    pub fn get_index_u8(&mut self, index: usize) -> (r: Result<u8, TensorError>)
        ensures
            *final(self) == *old(self),
            old(self)@.data.kind() != TensorElementType::Uint8 ==> r == Err::<
                u8,
                TensorError,
            >(TensorError::TypeError),
            old(self)@.data matches BufferModel::Uint8(s) ==> ((index < s.len() ==> (
            r matches Ok(x) && x == s[index as int])) && (index >= s.len() ==> r == Err::<
                u8,
                TensorError,
            >(TensorError::IndexError(index)))),
    {
        match &self.data {
            TensorData::Uint8(v) => if index < v.len() {
                Ok(v[index])
            } else {
                Err(TensorError::IndexError(index))
            },
            _ => Err(TensorError::TypeError),
        }
    }

    /// Writes one unsigned 8-bit element.
    pub fn set_index_u8(&mut self, index: usize, value: u8) -> (r: Result<(), TensorError>)
        requires
            tensor_wf(old(self)@),
        ensures
            tensor_wf(final(self)@),
            spec_set_index(old(self)@, index, ScalarModel::Uint8(value)) matches Ok(m) ==> (
            r is Ok && final(self)@ == m),
            spec_set_index(old(self)@, index, ScalarModel::Uint8(value)) matches Err(e) ==> (r
                == Err::<(), TensorError>(e) && final(self)@ == old(self)@),
    {
        self.set_index(index, Scalar::Uint8(value))
    }

    /// The signed 16-bit buffer, copied out, or a type error on a buffer of any
    /// other kind.
    pub fn get_data_i16(&mut self) -> (r: Result<Vec<i16>, TensorError>)
        ensures
            *final(self) == *old(self),
            old(self)@.data matches BufferModel::Int16(s) ==> (r matches Ok(v) && v@ == s),
            old(self)@.data.kind() != TensorElementType::Int16 ==> r == Err::<
                Vec<i16>,
                TensorError,
            >(TensorError::TypeError),
    {
        match &self.data {
            TensorData::Int16(v) => {
                let copy = v.clone();
                proof {
                    assert(copy@ =~= v@);
                }
                Ok(copy)
            },
            _ => Err(TensorError::TypeError),
        }
    }

    /// The signed 16-bit buffer copied out of a mutable borrow; a materialized
    /// copy, never a live alias.
    pub fn get_data_mut_i16(&mut self) -> (r: Result<Vec<i16>, TensorError>)
        ensures
            *final(self) == *old(self),
            old(self)@.data matches BufferModel::Int16(s) ==> (r matches Ok(v) && v@ == s),
            old(self)@.data.kind() != TensorElementType::Int16 ==> r == Err::<
                Vec<i16>,
                TensorError,
            >(TensorError::TypeError),
    {
        self.get_data_i16()
    }

    /// One signed 16-bit element.
    pub fn get_index_i16(&mut self, index: usize) -> (r: Result<i16, TensorError>)
        ensures
            *final(self) == *old(self),
            old(self)@.data.kind() != TensorElementType::Int16 ==> r == Err::<
                i16,
                TensorError,
            >(TensorError::TypeError),
            old(self)@.data matches BufferModel::Int16(s) ==> ((index < s.len() ==> (
            r matches Ok(x) && x == s[index as int])) && (index >= s.len() ==> r == Err::<
                i16,
                TensorError,
            >(TensorError::IndexError(index)))),
    {
        match &self.data {
            TensorData::Int16(v) => if index < v.len() {
                Ok(v[index])
            } else {
                Err(TensorError::IndexError(index))
            },
            _ => Err(TensorError::TypeError),
        }
    }

    /// Writes one signed 16-bit element.
    pub fn set_index_i16(&mut self, index: usize, value: i16) -> (r: Result<(), TensorError>)
        requires
            tensor_wf(old(self)@),
        ensures
            tensor_wf(final(self)@),
            spec_set_index(old(self)@, index, ScalarModel::Int16(value)) matches Ok(m) ==> (
            r is Ok && final(self)@ == m),
            spec_set_index(old(self)@, index, ScalarModel::Int16(value)) matches Err(e) ==> (r
                == Err::<(), TensorError>(e) && final(self)@ == old(self)@),
    {
        self.set_index(index, Scalar::Int16(value))
    }

    /// The unsigned 16-bit buffer, copied out, or a type error on a buffer of any
    /// other kind.
    pub fn get_data_u16(&mut self) -> (r: Result<Vec<u16>, TensorError>)
        ensures
            *final(self) == *old(self),
            old(self)@.data matches BufferModel::Uint16(s) ==> (r matches Ok(v) && v@ == s),
            old(self)@.data.kind() != TensorElementType::Uint16 ==> r == Err::<
                Vec<u16>,
                TensorError,
            >(TensorError::TypeError),
    {
        match &self.data {
            TensorData::Uint16(v) => {
                let copy = v.clone();
                proof {
                    assert(copy@ =~= v@);
                }
                Ok(copy)
            },
            _ => Err(TensorError::TypeError),
        }
    }

    /// The unsigned 16-bit buffer copied out of a mutable borrow; a materialized
    /// copy, never a live alias.
    pub fn get_data_mut_u16(&mut self) -> (r: Result<Vec<u16>, TensorError>)
        ensures
            *final(self) == *old(self),
            old(self)@.data matches BufferModel::Uint16(s) ==> (r matches Ok(v) && v@ == s),
            old(self)@.data.kind() != TensorElementType::Uint16 ==> r == Err::<
                Vec<u16>,
                TensorError,
            >(TensorError::TypeError),
    {
        self.get_data_u16()
    }

    /// One unsigned 16-bit element.
    pub fn get_index_u16(&mut self, index: usize) -> (r: Result<u16, TensorError>)
        ensures
            *final(self) == *old(self),
            old(self)@.data.kind() != TensorElementType::Uint16 ==> r == Err::<
                u16,
                TensorError,
            >(TensorError::TypeError),
            old(self)@.data matches BufferModel::Uint16(s) ==> ((index < s.len() ==> (
            r matches Ok(x) && x == s[index as int])) && (index >= s.len() ==> r == Err::<
                u16,
                TensorError,
            >(TensorError::IndexError(index)))),
    {
        match &self.data {
            TensorData::Uint16(v) => if index < v.len() {
                Ok(v[index])
            } else {
                Err(TensorError::IndexError(index))
            },
            _ => Err(TensorError::TypeError),
        }
    }

    /// Writes one unsigned 16-bit element.
    pub fn set_index_u16(&mut self, index: usize, value: u16) -> (r: Result<(), TensorError>)
        requires
            tensor_wf(old(self)@),
        ensures
            tensor_wf(final(self)@),
            spec_set_index(old(self)@, index, ScalarModel::Uint16(value)) matches Ok(m) ==> (
            r is Ok && final(self)@ == m),
            spec_set_index(old(self)@, index, ScalarModel::Uint16(value)) matches Err(e) ==> (r
                == Err::<(), TensorError>(e) && final(self)@ == old(self)@),
    {
        self.set_index(index, Scalar::Uint16(value))
    }

    /// The signed 32-bit buffer, copied out, or a type error on a buffer of any
    /// other kind.
    pub fn get_data_i32(&mut self) -> (r: Result<Vec<i32>, TensorError>)
        ensures
            *final(self) == *old(self),
            old(self)@.data matches BufferModel::Int32(s) ==> (r matches Ok(v) && v@ == s),
            old(self)@.data.kind() != TensorElementType::Int32 ==> r == Err::<
                Vec<i32>,
                TensorError,
            >(TensorError::TypeError),
    {
        match &self.data {
            TensorData::Int32(v) => {
                let copy = v.clone();
                proof {
                    assert(copy@ =~= v@);
                }
                Ok(copy)
            },
            _ => Err(TensorError::TypeError),
        }
    }

    /// The signed 32-bit buffer copied out of a mutable borrow; a materialized
    /// copy, never a live alias.
    pub fn get_data_mut_i32(&mut self) -> (r: Result<Vec<i32>, TensorError>)
        ensures
            *final(self) == *old(self),
            old(self)@.data matches BufferModel::Int32(s) ==> (r matches Ok(v) && v@ == s),
            old(self)@.data.kind() != TensorElementType::Int32 ==> r == Err::<
                Vec<i32>,
                TensorError,
            >(TensorError::TypeError),
    {
        self.get_data_i32()
    }

    /// One signed 32-bit element.
    pub fn get_index_i32(&mut self, index: usize) -> (r: Result<i32, TensorError>)
        ensures
            *final(self) == *old(self),
            old(self)@.data.kind() != TensorElementType::Int32 ==> r == Err::<
                i32,
                TensorError,
            >(TensorError::TypeError),
            old(self)@.data matches BufferModel::Int32(s) ==> ((index < s.len() ==> (
            r matches Ok(x) && x == s[index as int])) && (index >= s.len() ==> r == Err::<
                i32,
                TensorError,
            >(TensorError::IndexError(index)))),
    {
        match &self.data {
            TensorData::Int32(v) => if index < v.len() {
                Ok(v[index])
            } else {
                Err(TensorError::IndexError(index))
            },
            _ => Err(TensorError::TypeError),
        }
    }

    /// Writes one signed 32-bit element.
    pub fn set_index_i32(&mut self, index: usize, value: i32) -> (r: Result<(), TensorError>)
        requires
            tensor_wf(old(self)@),
        ensures
            tensor_wf(final(self)@),
            spec_set_index(old(self)@, index, ScalarModel::Int32(value)) matches Ok(m) ==> (
            r is Ok && final(self)@ == m),
            spec_set_index(old(self)@, index, ScalarModel::Int32(value)) matches Err(e) ==> (r
                == Err::<(), TensorError>(e) && final(self)@ == old(self)@),
    {
        self.set_index(index, Scalar::Int32(value))
    }

    /// The unsigned 32-bit buffer, copied out, or a type error on a buffer of any
    /// other kind.
    pub fn get_data_u32(&mut self) -> (r: Result<Vec<u32>, TensorError>)
        ensures
            *final(self) == *old(self),
            old(self)@.data matches BufferModel::Uint32(s) ==> (r matches Ok(v) && v@ == s),
            old(self)@.data.kind() != TensorElementType::Uint32 ==> r == Err::<
                Vec<u32>,
                TensorError,
            >(TensorError::TypeError),
    {
        match &self.data {
            TensorData::Uint32(v) => {
                let copy = v.clone();
                proof {
                    assert(copy@ =~= v@);
                }
                Ok(copy)
            },
            _ => Err(TensorError::TypeError),
        }
    }

    /// The unsigned 32-bit buffer copied out of a mutable borrow; a materialized
    /// copy, never a live alias.
    pub fn get_data_mut_u32(&mut self) -> (r: Result<Vec<u32>, TensorError>)
        ensures
            *final(self) == *old(self),
            old(self)@.data matches BufferModel::Uint32(s) ==> (r matches Ok(v) && v@ == s),
            old(self)@.data.kind() != TensorElementType::Uint32 ==> r == Err::<
                Vec<u32>,
                TensorError,
            >(TensorError::TypeError),
    {
        self.get_data_u32()
    }

    /// One unsigned 32-bit element.
    pub fn get_index_u32(&mut self, index: usize) -> (r: Result<u32, TensorError>)
        ensures
            *final(self) == *old(self),
            old(self)@.data.kind() != TensorElementType::Uint32 ==> r == Err::<
                u32,
                TensorError,
            >(TensorError::TypeError),
            old(self)@.data matches BufferModel::Uint32(s) ==> ((index < s.len() ==> (
            r matches Ok(x) && x == s[index as int])) && (index >= s.len() ==> r == Err::<
                u32,
                TensorError,
            >(TensorError::IndexError(index)))),
    {
        match &self.data {
            TensorData::Uint32(v) => if index < v.len() {
                Ok(v[index])
            } else {
                Err(TensorError::IndexError(index))
            },
            _ => Err(TensorError::TypeError),
        }
    }

    /// Writes one unsigned 32-bit element.
    pub fn set_index_u32(&mut self, index: usize, value: u32) -> (r: Result<(), TensorError>)
        requires
            tensor_wf(old(self)@),
        ensures
            tensor_wf(final(self)@),
            spec_set_index(old(self)@, index, ScalarModel::Uint32(value)) matches Ok(m) ==> (
            r is Ok && final(self)@ == m),
            spec_set_index(old(self)@, index, ScalarModel::Uint32(value)) matches Err(e) ==> (r
                == Err::<(), TensorError>(e) && final(self)@ == old(self)@),
    {
        self.set_index(index, Scalar::Uint32(value))
    }

    /// The signed 64-bit buffer, copied out, or a type error on a buffer of any
    /// other kind.
    pub fn get_data_i64(&mut self) -> (r: Result<Vec<i64>, TensorError>)
        ensures
            *final(self) == *old(self),
            old(self)@.data matches BufferModel::Int64(s) ==> (r matches Ok(v) && v@ == s),
            old(self)@.data.kind() != TensorElementType::Int64 ==> r == Err::<
                Vec<i64>,
                TensorError,
            >(TensorError::TypeError),
    {
        match &self.data {
            TensorData::Int64(v) => {
                let copy = v.clone();
                proof {
                    assert(copy@ =~= v@);
                }
                Ok(copy)
            },
            _ => Err(TensorError::TypeError),
        }
    }

    /// The signed 64-bit buffer copied out of a mutable borrow; a materialized
    /// copy, never a live alias.
    pub fn get_data_mut_i64(&mut self) -> (r: Result<Vec<i64>, TensorError>)
        ensures
            *final(self) == *old(self),
            old(self)@.data matches BufferModel::Int64(s) ==> (r matches Ok(v) && v@ == s),
            old(self)@.data.kind() != TensorElementType::Int64 ==> r == Err::<
                Vec<i64>,
                TensorError,
            >(TensorError::TypeError),
    {
        self.get_data_i64()
    }

    /// One signed 64-bit element.
    pub fn get_index_i64(&mut self, index: usize) -> (r: Result<i64, TensorError>)
        ensures
            *final(self) == *old(self),
            old(self)@.data.kind() != TensorElementType::Int64 ==> r == Err::<
                i64,
                TensorError,
            >(TensorError::TypeError),
            old(self)@.data matches BufferModel::Int64(s) ==> ((index < s.len() ==> (
            r matches Ok(x) && x == s[index as int])) && (index >= s.len() ==> r == Err::<
                i64,
                TensorError,
            >(TensorError::IndexError(index)))),
    {
        match &self.data {
            TensorData::Int64(v) => if index < v.len() {
                Ok(v[index])
            } else {
                Err(TensorError::IndexError(index))
            },
            _ => Err(TensorError::TypeError),
        }
    }

    /// Writes one signed 64-bit element.
    pub fn set_index_i64(&mut self, index: usize, value: i64) -> (r: Result<(), TensorError>)
        requires
            tensor_wf(old(self)@),
        ensures
            tensor_wf(final(self)@),
            spec_set_index(old(self)@, index, ScalarModel::Int64(value)) matches Ok(m) ==> (
            r is Ok && final(self)@ == m),
            spec_set_index(old(self)@, index, ScalarModel::Int64(value)) matches Err(e) ==> (r
                == Err::<(), TensorError>(e) && final(self)@ == old(self)@),
    {
        self.set_index(index, Scalar::Int64(value))
    }

    /// The unsigned 64-bit buffer, copied out, or a type error on a buffer of any
    /// other kind.
    pub fn get_data_u64(&mut self) -> (r: Result<Vec<u64>, TensorError>)
        ensures
            *final(self) == *old(self),
            old(self)@.data matches BufferModel::Uint64(s) ==> (r matches Ok(v) && v@ == s),
            old(self)@.data.kind() != TensorElementType::Uint64 ==> r == Err::<
                Vec<u64>,
                TensorError,
            >(TensorError::TypeError),
    {
        match &self.data {
            TensorData::Uint64(v) => {
                let copy = v.clone();
                proof {
                    assert(copy@ =~= v@);
                }
                Ok(copy)
            },
            _ => Err(TensorError::TypeError),
        }
    }

    /// The unsigned 64-bit buffer copied out of a mutable borrow; a materialized
    /// copy, never a live alias.
    pub fn get_data_mut_u64(&mut self) -> (r: Result<Vec<u64>, TensorError>)
        ensures
            *final(self) == *old(self),
            old(self)@.data matches BufferModel::Uint64(s) ==> (r matches Ok(v) && v@ == s),
            old(self)@.data.kind() != TensorElementType::Uint64 ==> r == Err::<
                Vec<u64>,
                TensorError,
            >(TensorError::TypeError),
    {
        self.get_data_u64()
    }

    /// One unsigned 64-bit element.
    pub fn get_index_u64(&mut self, index: usize) -> (r: Result<u64, TensorError>)
        ensures
            *final(self) == *old(self),
            old(self)@.data.kind() != TensorElementType::Uint64 ==> r == Err::<
                u64,
                TensorError,
            >(TensorError::TypeError),
            old(self)@.data matches BufferModel::Uint64(s) ==> ((index < s.len() ==> (
            r matches Ok(x) && x == s[index as int])) && (index >= s.len() ==> r == Err::<
                u64,
                TensorError,
            >(TensorError::IndexError(index)))),
    {
        match &self.data {
            TensorData::Uint64(v) => if index < v.len() {
                Ok(v[index])
            } else {
                Err(TensorError::IndexError(index))
            },
            _ => Err(TensorError::TypeError),
        }
    }

    /// Writes one unsigned 64-bit element.
    pub fn set_index_u64(&mut self, index: usize, value: u64) -> (r: Result<(), TensorError>)
        requires
            tensor_wf(old(self)@),
        ensures
            tensor_wf(final(self)@),
            spec_set_index(old(self)@, index, ScalarModel::Uint64(value)) matches Ok(m) ==> (
            r is Ok && final(self)@ == m),
            spec_set_index(old(self)@, index, ScalarModel::Uint64(value)) matches Err(e) ==> (r
                == Err::<(), TensorError>(e) && final(self)@ == old(self)@),
    {
        self.set_index(index, Scalar::Uint64(value))
    }

    /// The boolean buffer, copied out, or a type error on a buffer of any
    /// other kind.
    pub fn get_data_bool(&mut self) -> (r: Result<Vec<bool>, TensorError>)
        ensures
            *final(self) == *old(self),
            old(self)@.data matches BufferModel::Bool(s) ==> (r matches Ok(v) && v@ == s),
            old(self)@.data.kind() != TensorElementType::Bool ==> r == Err::<
                Vec<bool>,
                TensorError,
            >(TensorError::TypeError),
    {
        match &self.data {
            TensorData::Bool(v) => {
                let copy = v.clone();
                proof {
                    assert(copy@ =~= v@);
                }
                Ok(copy)
            },
            _ => Err(TensorError::TypeError),
        }
    }

    /// The boolean buffer copied out of a mutable borrow; a materialized
    /// copy, never a live alias.
    pub fn get_data_mut_bool(&mut self) -> (r: Result<Vec<bool>, TensorError>)
        ensures
            *final(self) == *old(self),
            old(self)@.data matches BufferModel::Bool(s) ==> (r matches Ok(v) && v@ == s),
            old(self)@.data.kind() != TensorElementType::Bool ==> r == Err::<
                Vec<bool>,
                TensorError,
            >(TensorError::TypeError),
    {
        self.get_data_bool()
    }

    /// One boolean element.
    pub fn get_index_bool(&mut self, index: usize) -> (r: Result<bool, TensorError>)
        ensures
            *final(self) == *old(self),
            old(self)@.data.kind() != TensorElementType::Bool ==> r == Err::<
                bool,
                TensorError,
            >(TensorError::TypeError),
            old(self)@.data matches BufferModel::Bool(s) ==> ((index < s.len() ==> (
            r matches Ok(x) && x == s[index as int])) && (index >= s.len() ==> r == Err::<
                bool,
                TensorError,
            >(TensorError::IndexError(index)))),
    {
        match &self.data {
            TensorData::Bool(v) => if index < v.len() {
                Ok(v[index])
            } else {
                Err(TensorError::IndexError(index))
            },
            _ => Err(TensorError::TypeError),
        }
    }

    /// Writes one boolean element.
    pub fn set_index_bool(&mut self, index: usize, value: bool) -> (r: Result<(), TensorError>)
        requires
            tensor_wf(old(self)@),
        ensures
            tensor_wf(final(self)@),
            spec_set_index(old(self)@, index, ScalarModel::Bool(value)) matches Ok(m) ==> (
            r is Ok && final(self)@ == m),
            spec_set_index(old(self)@, index, ScalarModel::Bool(value)) matches Err(e) ==> (r
                == Err::<(), TensorError>(e) && final(self)@ == old(self)@),
    {
        self.set_index(index, Scalar::Bool(value))
    }
}

/// A lease on a buffer whose automatic destruction has been suspended: the
/// raw address of the leaked allocation and its element count. Exactly one
/// matching reclaim call must consume it; the layer cannot check that.
#[derive(Debug)]
pub struct ArrayPointer {
    pub data: usize,
    pub length: usize,
}

/// Relies on Vec::into_boxed_slice and Box::leak: the buffer's memory is
/// released from ownership at exactly its length, survives the call, and is
/// described by the returned address and element count.
#[verifier::external_body]
fn leak_buffer(v: Vec<u32>) -> (r: (usize, usize))
    ensures
        r.1 == v@.len(),
{
    let len = v.len();
    let leaked = Box::leak(v.into_boxed_slice());
    (leaked.as_mut_ptr() as usize, len)
}

impl TensorImpl {
    /// Exports the 32-bit float contents for a foreign caller: a copy of the
    /// buffer is leaked and handed out as an address and element count. The
    /// host must reclaim the lease exactly once; the tensor itself stays
    /// intact and owned.
    pub fn get_data_f32_pointer(&mut self) -> (r: Result<ArrayPointer, TensorError>)
        ensures
            *final(self) == *old(self),
            old(self)@.data.kind() == TensorElementType::Float32 ==> (r matches Ok(p) && p.length
                == old(self)@.data.len()),
            old(self)@.data.kind() != TensorElementType::Float32 ==> r == Err::<
                ArrayPointer,
                TensorError,
            >(TensorError::TypeError),
    {
        match &self.data {
            TensorData::Float32(v) => {
                let copy = v.clone();
                proof {
                    assert(copy@ =~= v@);
                }
                let (data, length) = leak_buffer(copy);
                Ok(ArrayPointer { data, length })
            },
            _ => Err(TensorError::TypeError),
        }
    }
}

/// A numeric construction against a fully specified shape holding a zero
/// dimension fails on non-empty data, and succeeds on empty data with the
/// requested shape and a mutable tensor.
pub proof fn lemma_zero_dimension(shape: Seq<i64>, data: BufferModel, j: int)
    requires
        data.kind() != TensorElementType::Utf8String,
        forall|i: int| 0 <= i < shape.len() ==> shape[i] >= 0,
        0 <= j < shape.len(),
        shape[j] == 0,
        data.len() <= usize::MAX as nat,
    ensures
        data.len() != 0 ==> spec_from_array(Some(shape), data) is Err,
        data.len() == 0 ==> (spec_from_array(Some(shape), data) matches Ok(m) && m.shape == shape
            && m.mutable),
{
    lemma_fully_specified(shape, data.len() as usize);
    lemma_known_product_zero(shape);
    assert(known_product(shape) == 0) by {
        assert(0 <= j < shape.len() && shape[j] == 0);
    }
}

/// A tensor built from string data is never mutable, so a write to it at any
/// index and with any value is refused as not mutable.
pub proof fn lemma_string_tensor_immutable(
    shape: Option<Seq<i64>>,
    data: BufferModel,
    index: usize,
    value: ScalarModel,
)
    requires
        data.kind() == TensorElementType::Utf8String,
        spec_from_array(shape, data) matches Ok(m),
    ensures
        spec_from_array(shape, data) matches Ok(m) ==> spec_set_index(m, index, value) == Err::<
            TensorModel,
            TensorError,
        >(TensorError::NotMutable),
{
}

} // verus!
