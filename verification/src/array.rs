//! Columnar arrays and builders: append-only construction of immutable typed
//! columns. A builder is the only mutable path to a column, and its concrete
//! variant must match the column's declared kind exactly.

use vstd::prelude::*;

use crate::scalar::{
    clone_scalar, datum_view, datum_view_seq, scalar_view, Datum, DatumVal, Decimal, F32Bits,
    F64Bits, Interval, ScalarImpl, ScalarVal, StructValue,
};
use crate::types::{DataType, DataTypeKind, RwError};

verus! {

broadcast use vstd::std_specs::vec::group_vec_axioms, vstd::seq::group_seq_axioms;

/// A mutable, append-only staging buffer for a column of one primitive
/// native representation.
#[derive(Debug, PartialEq)]
pub struct PrimitiveArrayBuilder<T> {
    pub data: Vec<Option<T>>,
}

/// An immutable column of values of one primitive native representation,
/// with a per-element null indicator.
#[derive(Debug, PartialEq)]
pub struct PrimitiveArray<T> {
    pub data: Vec<Option<T>>,
}

impl<T> View for PrimitiveArrayBuilder<T> {
    type V = Seq<Option<T>>;

    open spec fn view(&self) -> Seq<Option<T>> {
        self.data@
    }
}

impl<T> View for PrimitiveArray<T> {
    type V = Seq<Option<T>>;

    open spec fn view(&self) -> Seq<Option<T>> {
        self.data@
    }
}

impl<T> PrimitiveArrayBuilder<T> {
    /// An empty builder; the capacity is a hint only.
    pub fn new(capacity: usize) -> (r: Result<PrimitiveArrayBuilder<T>, RwError>)
        ensures
            r is Ok,
            r matches Ok(b) ==> b@ == Seq::<Option<T>>::empty(),
    {
        let r = PrimitiveArrayBuilder { data: Vec::new() };
        proof {
            assert(r@ =~= Seq::<Option<T>>::empty());
        }
        Ok(r)
    }

    /// Appends one optional value, growing the column by one.
    pub fn append(&mut self, v: Option<T>) -> (r: Result<(), RwError>)
        ensures
            r is Ok,
            final(self)@ == old(self)@.push(v),
    {
        self.data.push(v);
        Ok(())
    }

    /// The number of values appended so far.
    pub fn len(&self) -> (r: usize)
        ensures
            r == self@.len(),
    {
        self.data.len()
    }

    /// Finalizes the builder into an immutable column.
    pub fn finish(self) -> (r: PrimitiveArray<T>)
        ensures
            r@ == self@,
    {
        PrimitiveArray { data: self.data }
    }
}

impl<T> PrimitiveArray<T> {
    /// An immutable column holding exactly the given values.
    pub fn from_vec(data: Vec<Option<T>>) -> (r: PrimitiveArray<T>)
        ensures
            r@ == data@,
    {
        PrimitiveArray { data }
    }

    /// The number of values in the column.
    pub fn len(&self) -> (r: usize)
        ensures
            r == self@.len(),
    {
        self.data.len()
    }

    /// The values of the column, in order.
    pub fn values(&self) -> (r: &Vec<Option<T>>)
        ensures
            r@ == self@,
    {
        &self.data
    }
}

pub type BoolArrayBuilder = PrimitiveArrayBuilder<bool>;

pub type I16ArrayBuilder = PrimitiveArrayBuilder<i16>;

pub type I32ArrayBuilder = PrimitiveArrayBuilder<i32>;

pub type I64ArrayBuilder = PrimitiveArrayBuilder<i64>;

pub type I64Array = PrimitiveArray<i64>;

pub type I32Array = PrimitiveArray<i32>;

/// A builder for a column of strings.
#[derive(Debug, PartialEq)]
pub struct Utf8ArrayBuilder {
    pub data: Vec<Option<String>>,
}

/// An immutable column of strings.
#[derive(Debug, PartialEq)]
pub struct Utf8Array {
    pub data: Vec<Option<String>>,
}

/// A builder for a column of struct values.
#[derive(Debug, PartialEq)]
pub struct StructArrayBuilder {
    pub data: Vec<Option<StructValue>>,
}

/// An immutable column of struct values.
#[derive(Debug, PartialEq)]
pub struct StructArray {
    pub data: Vec<Option<StructValue>>,
}

/// The abstraction of a string column element.
pub open spec fn utf8_elem_view(v: Option<String>) -> DatumVal {
    match v {
        None => None,
        Some(s) => Some(ScalarVal::Utf8(s@)),
    }
}

/// The abstraction of a struct column element.
pub open spec fn struct_elem_view(v: Option<StructValue>) -> DatumVal {
    match v {
        None => None,
        Some(sv) => Some(ScalarVal::Struct(datum_view_seq(sv.fields@))),
    }
}

/// A polymorphic column builder: one variant per data type kind.
#[derive(Debug, PartialEq)]
pub enum ArrayBuilderImpl {
    Bool(PrimitiveArrayBuilder<bool>),
    Int16(PrimitiveArrayBuilder<i16>),
    Int32(PrimitiveArrayBuilder<i32>),
    Int64(PrimitiveArrayBuilder<i64>),
    Float32(PrimitiveArrayBuilder<F32Bits>),
    Float64(PrimitiveArrayBuilder<F64Bits>),
    Decimal(PrimitiveArrayBuilder<Decimal>),
    Date(PrimitiveArrayBuilder<i32>),
    Utf8(Utf8ArrayBuilder),
    Interval(PrimitiveArrayBuilder<Interval>),
    Struct(StructArrayBuilder),
}

/// A polymorphic immutable column: one variant per data type kind.
#[derive(Debug, PartialEq)]
pub enum ArrayImpl {
    Bool(PrimitiveArray<bool>),
    Int16(PrimitiveArray<i16>),
    Int32(PrimitiveArray<i32>),
    Int64(PrimitiveArray<i64>),
    Float32(PrimitiveArray<F32Bits>),
    Float64(PrimitiveArray<F64Bits>),
    Decimal(PrimitiveArray<Decimal>),
    Date(PrimitiveArray<i32>),
    Utf8(Utf8Array),
    Interval(PrimitiveArray<Interval>),
    Struct(StructArray),
}

/// The declared kind of a builder's column.
pub open spec fn builder_kind(b: ArrayBuilderImpl) -> DataTypeKind {
    match b {
        ArrayBuilderImpl::Bool(_) => DataTypeKind::Boolean,
        ArrayBuilderImpl::Int16(_) => DataTypeKind::Int16,
        ArrayBuilderImpl::Int32(_) => DataTypeKind::Int32,
        ArrayBuilderImpl::Int64(_) => DataTypeKind::Int64,
        ArrayBuilderImpl::Float32(_) => DataTypeKind::Float32,
        ArrayBuilderImpl::Float64(_) => DataTypeKind::Float64,
        ArrayBuilderImpl::Decimal(_) => DataTypeKind::Decimal,
        ArrayBuilderImpl::Date(_) => DataTypeKind::Date,
        ArrayBuilderImpl::Utf8(_) => DataTypeKind::Varchar,
        ArrayBuilderImpl::Interval(_) => DataTypeKind::Interval,
        ArrayBuilderImpl::Struct(_) => DataTypeKind::Struct,
    }
}

/// The abstraction of a builder's accumulated column, as a sequence of datum
/// values.
pub open spec fn builder_view(b: ArrayBuilderImpl) -> Seq<DatumVal> {
    match b {
        ArrayBuilderImpl::Bool(p) => p@.map_values(|v: Option<bool>| match v {
            None => None,
            Some(x) => Some(ScalarVal::Bool(x)),
        }),
        ArrayBuilderImpl::Int16(p) => p@.map_values(|v: Option<i16>| match v {
            None => None,
            Some(x) => Some(ScalarVal::Int16(x)),
        }),
        ArrayBuilderImpl::Int32(p) => p@.map_values(|v: Option<i32>| match v {
            None => None,
            Some(x) => Some(ScalarVal::Int32(x)),
        }),
        ArrayBuilderImpl::Int64(p) => p@.map_values(|v: Option<i64>| match v {
            None => None,
            Some(x) => Some(ScalarVal::Int64(x)),
        }),
        ArrayBuilderImpl::Float32(p) => p@.map_values(|v: Option<F32Bits>| match v {
            None => None,
            Some(x) => Some(ScalarVal::Float32(x)),
        }),
        ArrayBuilderImpl::Float64(p) => p@.map_values(|v: Option<F64Bits>| match v {
            None => None,
            Some(x) => Some(ScalarVal::Float64(x)),
        }),
        ArrayBuilderImpl::Decimal(p) => p@.map_values(|v: Option<Decimal>| match v {
            None => None,
            Some(x) => Some(ScalarVal::Decimal(x)),
        }),
        ArrayBuilderImpl::Date(p) => p@.map_values(|v: Option<i32>| match v {
            None => None,
            Some(x) => Some(ScalarVal::Date(x)),
        }),
        ArrayBuilderImpl::Utf8(u) => u.data@.map_values(|v: Option<String>| utf8_elem_view(v)),
        ArrayBuilderImpl::Interval(p) => p@.map_values(|v: Option<Interval>| match v {
            None => None,
            Some(x) => Some(ScalarVal::Interval(x)),
        }),
        ArrayBuilderImpl::Struct(s) => s.data@.map_values(
            |v: Option<StructValue>| struct_elem_view(v),
        ),
    }
}

/// The declared kind of a column.
pub open spec fn array_kind(a: ArrayImpl) -> DataTypeKind {
    match a {
        ArrayImpl::Bool(_) => DataTypeKind::Boolean,
        ArrayImpl::Int16(_) => DataTypeKind::Int16,
        ArrayImpl::Int32(_) => DataTypeKind::Int32,
        ArrayImpl::Int64(_) => DataTypeKind::Int64,
        ArrayImpl::Float32(_) => DataTypeKind::Float32,
        ArrayImpl::Float64(_) => DataTypeKind::Float64,
        ArrayImpl::Decimal(_) => DataTypeKind::Decimal,
        ArrayImpl::Date(_) => DataTypeKind::Date,
        ArrayImpl::Utf8(_) => DataTypeKind::Varchar,
        ArrayImpl::Interval(_) => DataTypeKind::Interval,
        ArrayImpl::Struct(_) => DataTypeKind::Struct,
    }
}

/// The abstraction of a column, as a sequence of datum values.
pub open spec fn array_view(a: ArrayImpl) -> Seq<DatumVal> {
    match a {
        ArrayImpl::Bool(p) => p@.map_values(|v: Option<bool>| match v {
            None => None,
            Some(x) => Some(ScalarVal::Bool(x)),
        }),
        ArrayImpl::Int16(p) => p@.map_values(|v: Option<i16>| match v {
            None => None,
            Some(x) => Some(ScalarVal::Int16(x)),
        }),
        ArrayImpl::Int32(p) => p@.map_values(|v: Option<i32>| match v {
            None => None,
            Some(x) => Some(ScalarVal::Int32(x)),
        }),
        ArrayImpl::Int64(p) => p@.map_values(|v: Option<i64>| match v {
            None => None,
            Some(x) => Some(ScalarVal::Int64(x)),
        }),
        ArrayImpl::Float32(p) => p@.map_values(|v: Option<F32Bits>| match v {
            None => None,
            Some(x) => Some(ScalarVal::Float32(x)),
        }),
        ArrayImpl::Float64(p) => p@.map_values(|v: Option<F64Bits>| match v {
            None => None,
            Some(x) => Some(ScalarVal::Float64(x)),
        }),
        ArrayImpl::Decimal(p) => p@.map_values(|v: Option<Decimal>| match v {
            None => None,
            Some(x) => Some(ScalarVal::Decimal(x)),
        }),
        ArrayImpl::Date(p) => p@.map_values(|v: Option<i32>| match v {
            None => None,
            Some(x) => Some(ScalarVal::Date(x)),
        }),
        ArrayImpl::Utf8(u) => u.data@.map_values(|v: Option<String>| utf8_elem_view(v)),
        ArrayImpl::Interval(p) => p@.map_values(|v: Option<Interval>| match v {
            None => None,
            Some(x) => Some(ScalarVal::Interval(x)),
        }),
        ArrayImpl::Struct(s) => s.data@.map_values(|v: Option<StructValue>| struct_elem_view(v)),
    }
}

/// The kind of a scalar value's tag.
pub open spec fn scalar_kind(v: ScalarVal) -> DataTypeKind {
    match v {
        ScalarVal::Bool(_) => DataTypeKind::Boolean,
        ScalarVal::Int16(_) => DataTypeKind::Int16,
        ScalarVal::Int32(_) => DataTypeKind::Int32,
        ScalarVal::Int64(_) => DataTypeKind::Int64,
        ScalarVal::Float32(_) => DataTypeKind::Float32,
        ScalarVal::Float64(_) => DataTypeKind::Float64,
        ScalarVal::Decimal(_) => DataTypeKind::Decimal,
        ScalarVal::Date(_) => DataTypeKind::Date,
        ScalarVal::Utf8(_) => DataTypeKind::Varchar,
        ScalarVal::Interval(_) => DataTypeKind::Interval,
        ScalarVal::Struct(_) => DataTypeKind::Struct,
    }
}

/// Whether a datum's tag is consistent with a builder kind; NULL always is.
pub open spec fn datum_fits_kind(d: DatumVal, k: DataTypeKind) -> bool {
    match d {
        None => true,
        Some(v) => scalar_kind(v) == k,
    }
}

impl ArrayBuilderImpl {
    /// Appends one datum; the datum's scalar tag must match the builder's
    /// variant, a mismatch being a fatal contract breach with the planner.
    pub fn append_datum(&mut self, d: &Datum) -> (r: Result<(), RwError>)
        requires
            datum_fits_kind(datum_view(*d), builder_kind(*old(self))),
        ensures
            r is Ok,
            builder_kind(*final(self)) == builder_kind(*old(self)),
            builder_view(*final(self)) == builder_view(*old(self)).push(datum_view(*d)),
    {
        let r = match self {
            ArrayBuilderImpl::Bool(b) => match d {
                None => b.append(None),
                Some(ScalarImpl::Bool(x)) => b.append(Some(*x)),
                _ => vstd::pervasive::unreached(),
            },
            ArrayBuilderImpl::Int16(b) => match d {
                None => b.append(None),
                Some(ScalarImpl::Int16(x)) => b.append(Some(*x)),
                _ => vstd::pervasive::unreached(),
            },
            ArrayBuilderImpl::Int32(b) => match d {
                None => b.append(None),
                Some(ScalarImpl::Int32(x)) => b.append(Some(*x)),
                _ => vstd::pervasive::unreached(),
            },
            ArrayBuilderImpl::Int64(b) => match d {
                None => b.append(None),
                Some(ScalarImpl::Int64(x)) => b.append(Some(*x)),
                _ => vstd::pervasive::unreached(),
            },
            ArrayBuilderImpl::Float32(b) => match d {
                None => b.append(None),
                Some(ScalarImpl::Float32(x)) => b.append(Some(*x)),
                _ => vstd::pervasive::unreached(),
            },
            ArrayBuilderImpl::Float64(b) => match d {
                None => b.append(None),
                Some(ScalarImpl::Float64(x)) => b.append(Some(*x)),
                _ => vstd::pervasive::unreached(),
            },
            ArrayBuilderImpl::Decimal(b) => match d {
                None => b.append(None),
                Some(ScalarImpl::Decimal(x)) => b.append(Some(*x)),
                _ => vstd::pervasive::unreached(),
            },
            ArrayBuilderImpl::Date(b) => match d {
                None => b.append(None),
                Some(ScalarImpl::Date(x)) => b.append(Some(*x)),
                _ => vstd::pervasive::unreached(),
            },
            ArrayBuilderImpl::Utf8(b) => match d {
                None => {
                    b.data.push(None);
                    Ok(())
                },
                Some(ScalarImpl::Utf8(x)) => {
                    b.data.push(Some(x.clone()));
                    Ok(())
                },
                _ => vstd::pervasive::unreached(),
            },
            ArrayBuilderImpl::Interval(b) => match d {
                None => b.append(None),
                Some(ScalarImpl::Interval(x)) => b.append(Some(*x)),
                _ => vstd::pervasive::unreached(),
            },
            ArrayBuilderImpl::Struct(b) => match d {
                None => {
                    b.data.push(None);
                    Ok(())
                },
                Some(sc) => {
                    let c = clone_scalar(sc);
                    match c {
                        ScalarImpl::Struct(sv) => {
                            b.data.push(Some(sv));
                            Ok(())
                        },
                        _ => vstd::pervasive::unreached(),
                    }
                },
            },
        };
        proof {
            assert(builder_view(*self) =~= builder_view(*old(self)).push(datum_view(*d)));
        }
        r
    }

    /// The number of datums appended so far.
    pub fn len(&self) -> (r: usize)
        ensures
            r == builder_view(*self).len(),
    {
        match self {
            ArrayBuilderImpl::Bool(b) => b.len(),
            ArrayBuilderImpl::Int16(b) => b.len(),
            ArrayBuilderImpl::Int32(b) => b.len(),
            ArrayBuilderImpl::Int64(b) => b.len(),
            ArrayBuilderImpl::Float32(b) => b.len(),
            ArrayBuilderImpl::Float64(b) => b.len(),
            ArrayBuilderImpl::Decimal(b) => b.len(),
            ArrayBuilderImpl::Date(b) => b.len(),
            ArrayBuilderImpl::Utf8(b) => b.data.len(),
            ArrayBuilderImpl::Interval(b) => b.len(),
            ArrayBuilderImpl::Struct(b) => b.data.len(),
        }
    }

    /// Finalizes the builder into an immutable column of the same kind and
    /// contents.
    pub fn finish(self) -> (r: ArrayImpl)
        ensures
            array_kind(r) == builder_kind(self),
            array_view(r) == builder_view(self),
    {
        match self {
            ArrayBuilderImpl::Bool(b) => ArrayImpl::Bool(b.finish()),
            ArrayBuilderImpl::Int16(b) => ArrayImpl::Int16(b.finish()),
            ArrayBuilderImpl::Int32(b) => ArrayImpl::Int32(b.finish()),
            ArrayBuilderImpl::Int64(b) => ArrayImpl::Int64(b.finish()),
            ArrayBuilderImpl::Float32(b) => ArrayImpl::Float32(b.finish()),
            ArrayBuilderImpl::Float64(b) => ArrayImpl::Float64(b.finish()),
            ArrayBuilderImpl::Decimal(b) => ArrayImpl::Decimal(b.finish()),
            ArrayBuilderImpl::Date(b) => ArrayImpl::Date(b.finish()),
            ArrayBuilderImpl::Utf8(b) => ArrayImpl::Utf8(Utf8Array { data: b.data }),
            ArrayBuilderImpl::Interval(b) => ArrayImpl::Interval(b.finish()),
            ArrayBuilderImpl::Struct(b) => ArrayImpl::Struct(StructArray { data: b.data }),
        }
    }
}

impl ArrayImpl {
    /// The number of datums in the column.
    pub fn len(&self) -> (r: usize)
        ensures
            r == array_view(*self).len(),
    {
        match self {
            ArrayImpl::Bool(a) => a.len(),
            ArrayImpl::Int16(a) => a.len(),
            ArrayImpl::Int32(a) => a.len(),
            ArrayImpl::Int64(a) => a.len(),
            ArrayImpl::Float32(a) => a.len(),
            ArrayImpl::Float64(a) => a.len(),
            ArrayImpl::Decimal(a) => a.len(),
            ArrayImpl::Date(a) => a.len(),
            ArrayImpl::Utf8(a) => a.data.len(),
            ArrayImpl::Interval(a) => a.len(),
            ArrayImpl::Struct(a) => a.data.len(),
        }
    }

    /// The column as a 64-bit integer column; calling this on a column of
    /// another kind is a fatal contract breach.
    pub fn as_int64(&self) -> (r: &PrimitiveArray<i64>)
        requires
            array_kind(*self) == DataTypeKind::Int64,
        ensures
            array_view(*self) == r@.map_values(|v: Option<i64>| match v {
                None => None,
                Some(x) => Some(ScalarVal::Int64(x)),
            }),
    {
        match self {
            ArrayImpl::Int64(a) => a,
            _ => vstd::pervasive::unreached(),
        }
    }

    /// The column as a 32-bit integer column; calling this on a column of
    /// another kind is a fatal contract breach.
    pub fn as_int32(&self) -> (r: &PrimitiveArray<i32>)
        requires
            array_kind(*self) == DataTypeKind::Int32,
        ensures
            array_view(*self) == r@.map_values(|v: Option<i32>| match v {
                None => None,
                Some(x) => Some(ScalarVal::Int32(x)),
            }),
    {
        match self {
            ArrayImpl::Int32(a) => a,
            _ => vstd::pervasive::unreached(),
        }
    }
}

impl DataType {
    /// Constructs a column builder whose variant matches this data type's
    /// kind; the capacity is a hint only.
    pub fn create_array_builder(&self, capacity: usize) -> (r: Result<ArrayBuilderImpl, RwError>)
        ensures
            r is Ok,
            r matches Ok(b) ==> builder_kind(b) == self.kind && builder_view(b)
                == Seq::<DatumVal>::empty(),
    {
        let b = match self.kind {
            DataTypeKind::Boolean => ArrayBuilderImpl::Bool(PrimitiveArrayBuilder::new(capacity)?),
            DataTypeKind::Int16 => ArrayBuilderImpl::Int16(PrimitiveArrayBuilder::new(capacity)?),
            DataTypeKind::Int32 => ArrayBuilderImpl::Int32(PrimitiveArrayBuilder::new(capacity)?),
            DataTypeKind::Int64 => ArrayBuilderImpl::Int64(PrimitiveArrayBuilder::new(capacity)?),
            DataTypeKind::Float32 => ArrayBuilderImpl::Float32(
                PrimitiveArrayBuilder::new(capacity)?,
            ),
            DataTypeKind::Float64 => ArrayBuilderImpl::Float64(
                PrimitiveArrayBuilder::new(capacity)?,
            ),
            DataTypeKind::Decimal => ArrayBuilderImpl::Decimal(
                PrimitiveArrayBuilder::new(capacity)?,
            ),
            DataTypeKind::Date => ArrayBuilderImpl::Date(PrimitiveArrayBuilder::new(capacity)?),
            DataTypeKind::Varchar => ArrayBuilderImpl::Utf8(Utf8ArrayBuilder { data: Vec::new() }),
            DataTypeKind::Interval => ArrayBuilderImpl::Interval(
                PrimitiveArrayBuilder::new(capacity)?,
            ),
            DataTypeKind::Struct => ArrayBuilderImpl::Struct(
                StructArrayBuilder { data: Vec::new() },
            ),
        };
        proof {
            assert(builder_view(b) =~= Seq::<DatumVal>::empty());
        }
        Ok(b)
    }
}

} // verus!
