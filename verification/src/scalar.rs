//! Scalar values and datums: the tagged union over the kind set of the typed
//! data model. A datum is an optional scalar, absence standing for SQL NULL.

use vstd::prelude::*;

use crate::types::{dt_view, DataType, DataTypeKind, DataTypeVal};

verus! {

broadcast use vstd::std_specs::vec::group_vec_axioms, vstd::seq::group_seq_axioms;

/// A fixed-point decimal: an integer mantissa scaled down by a power of ten.
#[derive(Clone, Copy, Debug, PartialEq, Eq, Structural)]
pub struct Decimal {
    pub mantissa: i64,
    pub scale: u32,
}

impl Decimal {
    /// The decimal `mantissa / 10^scale`.
    pub fn new(mantissa: i64, scale: u32) -> (r: Decimal)
        ensures
            r == (Decimal { mantissa, scale }),
    {
        Decimal { mantissa, scale }
    }
}

/// A calendar interval, split into months, days, and milliseconds.
#[derive(Clone, Copy, Debug, PartialEq, Eq, Structural)]
pub struct Interval {
    pub months: i32,
    pub days: i32,
    pub msecs: i64,
}

impl Interval {
    /// An interval of whole months.
    pub fn from_month(months: i32) -> (r: Interval)
        ensures
            r == (Interval { months, days: 0, msecs: 0 }),
    {
        Interval { months, days: 0, msecs: 0 }
    }
}

/// The bit pattern of a 32-bit float, kept as plain bits by the core.
#[derive(Clone, Copy, Debug, PartialEq, Eq, Structural)]
pub struct F32Bits(pub u32);

/// The bit pattern of a 64-bit float, kept as plain bits by the core.
#[derive(Clone, Copy, Debug, PartialEq, Eq, Structural)]
pub struct F64Bits(pub u64);

/// A scalar value: one variant per data type kind.
#[derive(Debug, PartialEq)]
pub enum ScalarImpl {
    Bool(bool),
    Int16(i16),
    Int32(i32),
    Int64(i64),
    Float32(F32Bits),
    Float64(F64Bits),
    Decimal(Decimal),
    Date(i32),
    Utf8(String),
    Interval(Interval),
    Struct(StructValue),
}

/// The sub-values of a struct scalar, one datum per field.
#[derive(Debug, PartialEq)]
pub struct StructValue {
    pub fields: Vec<Datum>,
}

impl StructValue {
    /// A struct scalar over the given field datums.
    pub fn new(fields: Vec<Datum>) -> (r: StructValue)
        ensures
            r.fields@ == fields@,
    {
        StructValue { fields }
    }
}

/// An optional scalar; absence stands for SQL NULL.
pub type Datum = Option<ScalarImpl>;

/// Mathematical value of a [`ScalarImpl`].
#[verifier::ext_equal]
pub ghost enum ScalarVal {
    Bool(bool),
    Int16(i16),
    Int32(i32),
    Int64(i64),
    Float32(F32Bits),
    Float64(F64Bits),
    Decimal(Decimal),
    Date(i32),
    Utf8(Seq<char>),
    Interval(Interval),
    Struct(Seq<Option<ScalarVal>>),
}

/// A datum's mathematical value.
pub type DatumVal = Option<ScalarVal>;

/// The abstraction of a scalar value, struct sub-values included.
pub open spec fn scalar_view(s: ScalarImpl) -> ScalarVal
    decreases s,
{
    match s {
        ScalarImpl::Bool(v) => ScalarVal::Bool(v),
        ScalarImpl::Int16(v) => ScalarVal::Int16(v),
        ScalarImpl::Int32(v) => ScalarVal::Int32(v),
        ScalarImpl::Int64(v) => ScalarVal::Int64(v),
        ScalarImpl::Float32(v) => ScalarVal::Float32(v),
        ScalarImpl::Float64(v) => ScalarVal::Float64(v),
        ScalarImpl::Decimal(v) => ScalarVal::Decimal(v),
        ScalarImpl::Date(v) => ScalarVal::Date(v),
        ScalarImpl::Utf8(v) => ScalarVal::Utf8(v@),
        ScalarImpl::Interval(v) => ScalarVal::Interval(v),
        ScalarImpl::Struct(sv) => ScalarVal::Struct(datum_view_seq(sv.fields@)),
    }
}

/// The abstraction of a datum.
pub open spec fn datum_view(d: Datum) -> DatumVal
    decreases d,
{
    match d {
        None => None,
        Some(s) => Some(scalar_view(s)),
    }
}

/// The abstraction of each datum in a sequence, in order.
pub open spec fn datum_view_seq(s: Seq<Datum>) -> Seq<DatumVal>
    decreases s,
{
    if s.len() == 0 {
        Seq::empty()
    } else {
        datum_view_seq(s.subrange(0, s.len() - 1)).push(datum_view(s[s.len() - 1]))
    }
}

/// [`datum_view_seq`] abstracts pointwise.
pub proof fn lemma_datum_view_seq(s: Seq<Datum>)
    ensures
        datum_view_seq(s).len() == s.len(),
        forall|i: int| 0 <= i < s.len() ==> datum_view_seq(s)[i] == datum_view(s[i]),
    decreases s,
{
    if s.len() > 0 {
        lemma_datum_view_seq(s.subrange(0, s.len() - 1));
    }
}

/// Type match: a scalar's tag is consistent with a declared type's kind, and
/// struct sub-values match the declared field types pointwise.
pub open spec fn scalar_matches(v: ScalarVal, t: DataTypeVal) -> bool
    decreases v,
{
    match v {
        ScalarVal::Bool(_) => t.kind == DataTypeKind::Boolean,
        ScalarVal::Int16(_) => t.kind == DataTypeKind::Int16,
        ScalarVal::Int32(_) => t.kind == DataTypeKind::Int32,
        ScalarVal::Int64(_) => t.kind == DataTypeKind::Int64,
        ScalarVal::Float32(_) => t.kind == DataTypeKind::Float32,
        ScalarVal::Float64(_) => t.kind == DataTypeKind::Float64,
        ScalarVal::Decimal(_) => t.kind == DataTypeKind::Decimal,
        ScalarVal::Date(_) => t.kind == DataTypeKind::Date,
        ScalarVal::Utf8(_) => t.kind == DataTypeKind::Varchar,
        ScalarVal::Interval(_) => t.kind == DataTypeKind::Interval,
        ScalarVal::Struct(fields) => {
            &&& t.kind == DataTypeKind::Struct
            &&& fields.len() == t.fields.len()
            &&& forall|i: int|
                0 <= i < fields.len() ==> datum_matches(#[trigger] fields[i], t.fields[i])
        },
    }
}

/// Type match for a datum: NULL matches every declared type.
pub open spec fn datum_matches(d: DatumVal, t: DataTypeVal) -> bool
    decreases d,
{
    match d {
        None => true,
        Some(v) => scalar_matches(v, t),
    }
}

/// Whether a datum may stand as the value of a literal or column of the given
/// declared type.
pub fn literal_type_match(t: &DataType, d: &Datum) -> (r: bool)
    ensures
        r == datum_matches(datum_view(*d), dt_view(*t)),
{
    match d {
        None => true,
        Some(s) => scalar_type_match(s, t),
    }
}

/// Whether a scalar's tag is consistent with the given declared type.
#[verifier::loop_isolation(false)]
pub fn scalar_type_match(s: &ScalarImpl, t: &DataType) -> (r: bool)
    ensures
        r == scalar_matches(scalar_view(*s), dt_view(*t)),
    decreases *s,
{
    match s {
        ScalarImpl::Bool(_) => t.kind == DataTypeKind::Boolean,
        ScalarImpl::Int16(_) => t.kind == DataTypeKind::Int16,
        ScalarImpl::Int32(_) => t.kind == DataTypeKind::Int32,
        ScalarImpl::Int64(_) => t.kind == DataTypeKind::Int64,
        ScalarImpl::Float32(_) => t.kind == DataTypeKind::Float32,
        ScalarImpl::Float64(_) => t.kind == DataTypeKind::Float64,
        ScalarImpl::Decimal(_) => t.kind == DataTypeKind::Decimal,
        ScalarImpl::Date(_) => t.kind == DataTypeKind::Date,
        ScalarImpl::Utf8(_) => t.kind == DataTypeKind::Varchar,
        ScalarImpl::Interval(_) => t.kind == DataTypeKind::Interval,
        ScalarImpl::Struct(sv) => {
            if t.kind != DataTypeKind::Struct {
                return false;
            }
            if sv.fields.len() != t.field_types.len() {
                proof {
                    lemma_datum_view_seq(sv.fields@);
                    crate::types::lemma_dt_view_seq(t.field_types@);
                }
                return false;
            }
            let mut i: usize = 0;
            let mut ok: bool = true;
            proof {
                lemma_datum_view_seq(sv.fields@);
                crate::types::lemma_dt_view_seq(t.field_types@);
            }
            while i < sv.fields.len()
                invariant
                    0 <= i <= sv.fields@.len(),
                    sv.fields@.len() == t.field_types@.len(),
                    datum_view_seq(sv.fields@).len() == sv.fields@.len(),
                    crate::types::dt_view_seq(t.field_types@).len() == t.field_types@.len(),
                    forall|j: int|
                        0 <= j < sv.fields@.len() ==> datum_view_seq(sv.fields@)[j]
                            == datum_view(sv.fields@[j]),
                    forall|j: int|
                        0 <= j < t.field_types@.len() ==> crate::types::dt_view_seq(
                            t.field_types@,
                        )[j] == dt_view(t.field_types@[j]),
                    ok == forall|j: int|
                        0 <= j < i ==> datum_matches(
                            #[trigger] datum_view(sv.fields@[j]),
                            dt_view(t.field_types@[j]),
                        ),
                decreases sv.fields@.len() - i,
            {
                proof {
                    assert(decreases_to!(*sv => sv.fields@[i as int]));
                }
                let m = datum_field_match(&sv.fields[i], &t.field_types[i]);
                ok = ok && m;
                i = i + 1;
            }
            proof {
                let fv = datum_view_seq(sv.fields@);
                let tv = dt_view(*t);
                if ok {
                    assert forall|j: int| 0 <= j < fv.len() implies datum_matches(
                        #[trigger] fv[j],
                        tv.fields[j],
                    ) by {
                        assert(datum_matches(datum_view(sv.fields@[j]), dt_view(t.field_types@[j])));
                    }
                    assert(scalar_matches(scalar_view(*s), tv));
                } else {
                    let j = choose|j: int|
                        0 <= j < sv.fields@.len() && !datum_matches(
                            datum_view(sv.fields@[j]),
                            dt_view(t.field_types@[j]),
                        );
                    assert(!datum_matches(fv[j], tv.fields[j]));
                    assert(!scalar_matches(scalar_view(*s), tv));
                }
            }
            ok
        },
    }
}

/// Whether one struct sub-value matches its declared field type.
fn datum_field_match(d: &Datum, t: &DataType) -> (r: bool)
    ensures
        r == datum_matches(datum_view(*d), dt_view(*t)),
    decreases *d,
{
    match d {
        None => true,
        Some(s) => scalar_type_match(s, t),
    }
}

/// A deep copy of a scalar, equal to the original in value.
#[verifier::loop_isolation(false)]
pub fn clone_scalar(s: &ScalarImpl) -> (r: ScalarImpl)
    ensures
        scalar_view(r) == scalar_view(*s),
    decreases *s,
{
    match s {
        ScalarImpl::Bool(v) => ScalarImpl::Bool(*v),
        ScalarImpl::Int16(v) => ScalarImpl::Int16(*v),
        ScalarImpl::Int32(v) => ScalarImpl::Int32(*v),
        ScalarImpl::Int64(v) => ScalarImpl::Int64(*v),
        ScalarImpl::Float32(v) => ScalarImpl::Float32(*v),
        ScalarImpl::Float64(v) => ScalarImpl::Float64(*v),
        ScalarImpl::Decimal(v) => ScalarImpl::Decimal(*v),
        ScalarImpl::Date(v) => ScalarImpl::Date(*v),
        ScalarImpl::Utf8(v) => ScalarImpl::Utf8(v.clone()),
        ScalarImpl::Interval(v) => ScalarImpl::Interval(*v),
        ScalarImpl::Struct(sv) => {
            let mut fields: Vec<Datum> = Vec::new();
            let mut i: usize = 0;
            while i < sv.fields.len()
                invariant
                    0 <= i <= sv.fields@.len(),
                    fields@.len() == i,
                    forall|j: int|
                        0 <= j < i ==> datum_view(#[trigger] fields@[j])
                            == datum_view(sv.fields@[j]),
                decreases sv.fields@.len() - i,
            {
                proof {
                    assert(decreases_to!(*sv => sv.fields@[i as int]));
                }
                let d = clone_field(&sv.fields[i]);
                fields.push(d);
                i = i + 1;
            }
            proof {
                lemma_datum_view_seq(sv.fields@);
                lemma_datum_view_seq(fields@);
                assert(datum_view_seq(fields@) =~= datum_view_seq(sv.fields@));
            }
            ScalarImpl::Struct(StructValue { fields })
        },
    }
}

/// A deep copy of one struct sub-value.
fn clone_field(d: &Datum) -> (r: Datum)
    ensures
        datum_view(r) == datum_view(*d),
    decreases *d,
{
    match d {
        None => None,
        Some(s) => Some(clone_scalar(s)),
    }
}

/// A deep copy of a datum, equal to the original in value.
pub fn clone_datum(d: &Datum) -> (r: Datum)
    ensures
        datum_view(r) == datum_view(*d),
{
    match d {
        None => None,
        Some(s) => Some(clone_scalar(s)),
    }
}

} // verus!
