//! The typed data model: the closed set of scalar kinds, nullability, size
//! classification, and the serialization of type descriptors to and from the
//! wire schema, with the round-trip law.

use vstd::prelude::*;

use crate::pb::{IntervalType, PbDataType, TypeName};

verus! {

broadcast use vstd::std_specs::vec::group_vec_axioms, vstd::seq::group_seq_axioms;

/// The error class for recoverable data and environment failures of the type
/// layer.
#[derive(Clone, Copy, Debug, PartialEq, Eq, Structural)]
pub enum RwError {
    /// The wire kind tag did not match the expected kind.
    TypeMismatch,
}

/// The kind of a data type, without nullability.
#[derive(Clone, Copy, Debug, PartialEq, Eq, Structural)]
pub enum DataTypeKind {
    Boolean,
    Int16,
    Int32,
    Int64,
    Float32,
    Float64,
    Decimal,
    Date,
    Varchar,
    Interval,
    Struct,
}

/// Storage size classification of a data type: a fixed byte width for
/// primitive kinds, or variable width.
#[derive(Clone, Copy, Debug, PartialEq, Eq, Structural)]
pub enum DataSize {
    Fixed(usize),
    Variable,
}

/// A data type: an immutable kind, a nullability flag, and, for structs, the
/// types of the fields.
#[derive(Debug, PartialEq)]
pub struct DataType {
    pub kind: DataTypeKind,
    pub nullable: bool,
    pub field_types: Vec<DataType>,
}

/// Mathematical value of a [`DataType`].
#[verifier::ext_equal]
pub ghost struct DataTypeVal {
    pub kind: DataTypeKind,
    pub nullable: bool,
    pub fields: Seq<DataTypeVal>,
}

/// The abstraction of a data type, nested field types included.
pub open spec fn dt_view(t: DataType) -> DataTypeVal
    decreases t,
{
    DataTypeVal {
        kind: t.kind,
        nullable: t.nullable,
        fields: dt_view_seq(t.field_types@),
    }
}

/// The abstraction of each data type in a sequence, in order.
pub open spec fn dt_view_seq(s: Seq<DataType>) -> Seq<DataTypeVal>
    decreases s,
{
    if s.len() == 0 {
        Seq::empty()
    } else {
        dt_view_seq(s.subrange(0, s.len() - 1)).push(dt_view(s[s.len() - 1]))
    }
}

/// [`dt_view_seq`] abstracts pointwise.
pub proof fn lemma_dt_view_seq(s: Seq<DataType>)
    ensures
        dt_view_seq(s).len() == s.len(),
        forall|i: int| 0 <= i < s.len() ==> dt_view_seq(s)[i] == dt_view(s[i]),
    decreases s,
{
    if s.len() > 0 {
        lemma_dt_view_seq(s.subrange(0, s.len() - 1));
    }
}

/// Well-formedness: only struct types carry field types.
pub open spec fn dtv_wf(t: DataTypeVal) -> bool
    decreases t,
{
    &&& (t.kind != DataTypeKind::Struct ==> t.fields.len() == 0)
    &&& (forall|i: int| 0 <= i < t.fields.len() ==> dtv_wf(#[trigger] t.fields[i]))
}

/// The wire tag that names a kind.
pub open spec fn kind_to_tag(k: DataTypeKind) -> TypeName {
    match k {
        DataTypeKind::Boolean => TypeName::Boolean,
        DataTypeKind::Int16 => TypeName::Int16,
        DataTypeKind::Int32 => TypeName::Int32,
        DataTypeKind::Int64 => TypeName::Int64,
        DataTypeKind::Float32 => TypeName::Float,
        DataTypeKind::Float64 => TypeName::Double,
        DataTypeKind::Decimal => TypeName::Decimal,
        DataTypeKind::Date => TypeName::Date,
        DataTypeKind::Varchar => TypeName::Varchar,
        DataTypeKind::Interval => TypeName::Interval,
        DataTypeKind::Struct => TypeName::Struct,
    }
}

/// The kind that a wire tag names.
pub open spec fn tag_to_kind(t: TypeName) -> DataTypeKind {
    match t {
        TypeName::Boolean => DataTypeKind::Boolean,
        TypeName::Int16 => DataTypeKind::Int16,
        TypeName::Int32 => DataTypeKind::Int32,
        TypeName::Int64 => DataTypeKind::Int64,
        TypeName::Float => DataTypeKind::Float32,
        TypeName::Double => DataTypeKind::Float64,
        TypeName::Decimal => DataTypeKind::Decimal,
        TypeName::Date => DataTypeKind::Date,
        TypeName::Varchar => DataTypeKind::Varchar,
        TypeName::Interval => DataTypeKind::Interval,
        TypeName::Struct => DataTypeKind::Struct,
    }
}

/// Serialization of a data type to the wire schema.
pub open spec fn spec_dt_to_wire(t: DataTypeVal) -> crate::pb::WireTypeVal
    decreases t,
{
    crate::pb::WireTypeVal {
        type_tag: kind_to_tag(t.kind),
        is_nullable: t.nullable,
        interval_type: IntervalType::Unspecified,
        field_type: dt_to_wire_seq(t.fields),
    }
}

/// Serialization of each data type in a sequence, in order.
pub open spec fn dt_to_wire_seq(s: Seq<DataTypeVal>) -> Seq<crate::pb::WireTypeVal>
    decreases s,
{
    if s.len() == 0 {
        Seq::empty()
    } else {
        dt_to_wire_seq(s.subrange(0, s.len() - 1)).push(spec_dt_to_wire(s[s.len() - 1]))
    }
}

/// [`dt_to_wire_seq`] serializes pointwise.
pub proof fn lemma_dt_to_wire_seq(s: Seq<DataTypeVal>)
    ensures
        dt_to_wire_seq(s).len() == s.len(),
        forall|i: int| 0 <= i < s.len() ==> dt_to_wire_seq(s)[i] == spec_dt_to_wire(s[i]),
    decreases s,
{
    if s.len() > 0 {
        lemma_dt_to_wire_seq(s.subrange(0, s.len() - 1));
    }
}

/// Parsing of a data type from the wire schema: the tag gives the kind, and
/// field types are kept only for structs.
pub open spec fn spec_wire_to_dt(w: crate::pb::WireTypeVal) -> DataTypeVal
    decreases w,
{
    DataTypeVal {
        kind: tag_to_kind(w.type_tag),
        nullable: w.is_nullable,
        fields: if w.type_tag == TypeName::Struct {
            wire_to_dt_seq(w.field_type)
        } else {
            Seq::empty()
        },
    }
}

/// Parsing of each wire descriptor in a sequence, in order.
pub open spec fn wire_to_dt_seq(s: Seq<crate::pb::WireTypeVal>) -> Seq<DataTypeVal>
    decreases s,
{
    if s.len() == 0 {
        Seq::empty()
    } else {
        wire_to_dt_seq(s.subrange(0, s.len() - 1)).push(spec_wire_to_dt(s[s.len() - 1]))
    }
}

/// [`wire_to_dt_seq`] parses pointwise.
pub proof fn lemma_wire_to_dt_seq(s: Seq<crate::pb::WireTypeVal>)
    ensures
        wire_to_dt_seq(s).len() == s.len(),
        forall|i: int| 0 <= i < s.len() ==> wire_to_dt_seq(s)[i] == spec_wire_to_dt(s[i]),
    decreases s,
{
    if s.len() > 0 {
        lemma_wire_to_dt_seq(s.subrange(0, s.len() - 1));
    }
}

/// The fixed byte width of a primitive kind, or variable width.
pub open spec fn spec_data_size(k: DataTypeKind) -> DataSize {
    match k {
        DataTypeKind::Boolean => DataSize::Fixed(1),
        DataTypeKind::Int16 => DataSize::Fixed(2),
        DataTypeKind::Int32 => DataSize::Fixed(4),
        DataTypeKind::Int64 => DataSize::Fixed(8),
        DataTypeKind::Float32 => DataSize::Fixed(4),
        DataTypeKind::Float64 => DataSize::Fixed(8),
        DataTypeKind::Decimal => DataSize::Fixed(12),
        DataTypeKind::Date => DataSize::Fixed(4),
        DataTypeKind::Varchar => DataSize::Variable,
        DataTypeKind::Interval => DataSize::Fixed(16),
        DataTypeKind::Struct => DataSize::Variable,
    }
}

impl DataType {
    /// A non-struct data type of the given kind and nullability.
    pub fn new(kind: DataTypeKind, nullable: bool) -> (r: DataType)
        requires
            kind != DataTypeKind::Struct,
        ensures
            dt_view(r) == (DataTypeVal { kind, nullable, fields: Seq::<DataTypeVal>::empty() }),
            dtv_wf(dt_view(r)),
    {
        let r = DataType { kind, nullable, field_types: Vec::new() };
        proof {
            assert(dt_view(r).fields =~= Seq::<DataTypeVal>::empty());
            assert(dt_view(r) =~= DataTypeVal { kind, nullable, fields: Seq::<DataTypeVal>::empty() });
        }
        r
    }

    /// A struct data type over the given field types.
    pub fn new_struct(field_types: Vec<DataType>, nullable: bool) -> (r: DataType)
        requires
            forall|i: int|
                0 <= i < field_types@.len() ==> dtv_wf(#[trigger] dt_view(field_types@[i])),
        ensures
            dt_view(r).kind == DataTypeKind::Struct,
            dt_view(r).nullable == nullable,
            dt_view(r).fields == dt_view_seq(field_types@),
            dtv_wf(dt_view(r)),
    {
        let r = DataType { kind: DataTypeKind::Struct, nullable, field_types };
        proof {
            lemma_dt_view_seq(r.field_types@);
        }
        r
    }

    /// The kind of this data type; immutable after construction.
    pub fn data_type_kind(&self) -> (r: DataTypeKind)
        ensures
            r == self.kind,
    {
        self.kind
    }

    /// Whether values of this declared type may be absent.
    pub fn is_nullable(&self) -> (r: bool)
        ensures
            r == self.nullable,
    {
        self.nullable
    }

    /// The storage size classification of this data type.
    pub fn data_size(&self) -> (r: DataSize)
        ensures
            r == spec_data_size(self.kind),
    {
        match self.kind {
            DataTypeKind::Boolean => DataSize::Fixed(1),
            DataTypeKind::Int16 => DataSize::Fixed(2),
            DataTypeKind::Int32 => DataSize::Fixed(4),
            DataTypeKind::Int64 => DataSize::Fixed(8),
            DataTypeKind::Float32 => DataSize::Fixed(4),
            DataTypeKind::Float64 => DataSize::Fixed(8),
            DataTypeKind::Decimal => DataSize::Fixed(12),
            DataTypeKind::Date => DataSize::Fixed(4),
            DataTypeKind::Varchar => DataSize::Variable,
            DataTypeKind::Interval => DataSize::Fixed(16),
            DataTypeKind::Struct => DataSize::Variable,
        }
    }

    /// Serializes this data type to a wire descriptor.
    pub fn to_protobuf(&self) -> (r: PbDataType)
        ensures
            crate::pb::pb_view(r) == spec_dt_to_wire(dt_view(*self)),
        decreases *self,
    {
        let mut fields: Vec<PbDataType> = Vec::new();
        let mut i: usize = 0;
        while i < self.field_types.len()
            invariant
                0 <= i <= self.field_types@.len(),
                fields@.len() == i,
                forall|j: int|
                    0 <= j < i ==> crate::pb::pb_view(#[trigger] fields@[j])
                        == spec_dt_to_wire(dt_view(self.field_types@[j])),
            decreases self.field_types@.len() - i,
        {
            let w = self.field_types[i].to_protobuf();
            fields.push(w);
            i = i + 1;
        }
        let r = PbDataType {
            type_tag: self.wire_tag(),
            is_nullable: self.nullable,
            interval_type: IntervalType::Unspecified,
            field_type: fields,
        };
        proof {
            crate::pb::lemma_pb_view_seq(r.field_type@);
            lemma_dt_view_seq(self.field_types@);
            lemma_dt_to_wire_seq(dt_view(*self).fields);
            assert(crate::pb::pb_view(r).field_type =~= spec_dt_to_wire(dt_view(*self)).field_type);
            assert(crate::pb::pb_view(r) =~= spec_dt_to_wire(dt_view(*self)));
        }
        r
    }

    /// The wire tag of this data type's kind.
    pub fn wire_tag(&self) -> (r: TypeName)
        ensures
            r == kind_to_tag(self.kind),
    {
        match self.kind {
            DataTypeKind::Boolean => TypeName::Boolean,
            DataTypeKind::Int16 => TypeName::Int16,
            DataTypeKind::Int32 => TypeName::Int32,
            DataTypeKind::Int64 => TypeName::Int64,
            DataTypeKind::Float32 => TypeName::Float,
            DataTypeKind::Float64 => TypeName::Double,
            DataTypeKind::Decimal => TypeName::Decimal,
            DataTypeKind::Date => TypeName::Date,
            DataTypeKind::Varchar => TypeName::Varchar,
            DataTypeKind::Interval => TypeName::Interval,
            DataTypeKind::Struct => TypeName::Struct,
        }
    }

    /// Parses a data type from a wire descriptor. Every wire tag names a
    /// supported kind, so this cannot fail; field types are kept only for
    /// structs.
    pub fn from_protobuf(w: &PbDataType) -> (r: DataType)
        ensures
            dt_view(r) == spec_wire_to_dt(crate::pb::pb_view(*w)),
            dtv_wf(dt_view(r)),
        decreases *w,
    {
        let kind = match w.type_tag {
            TypeName::Boolean => DataTypeKind::Boolean,
            TypeName::Int16 => DataTypeKind::Int16,
            TypeName::Int32 => DataTypeKind::Int32,
            TypeName::Int64 => DataTypeKind::Int64,
            TypeName::Float => DataTypeKind::Float32,
            TypeName::Double => DataTypeKind::Float64,
            TypeName::Decimal => DataTypeKind::Decimal,
            TypeName::Date => DataTypeKind::Date,
            TypeName::Varchar => DataTypeKind::Varchar,
            TypeName::Interval => DataTypeKind::Interval,
            TypeName::Struct => DataTypeKind::Struct,
        };
        let mut fields: Vec<DataType> = Vec::new();
        if kind == DataTypeKind::Struct {
            let mut i: usize = 0;
            while i < w.field_type.len()
                invariant
                    0 <= i <= w.field_type@.len(),
                    fields@.len() == i,
                    forall|j: int|
                        0 <= j < i ==> dt_view(#[trigger] fields@[j])
                            == spec_wire_to_dt(crate::pb::pb_view(w.field_type@[j]))
                            && dtv_wf(dt_view(fields@[j])),
                decreases w.field_type@.len() - i,
            {
                let f = DataType::from_protobuf(&w.field_type[i]);
                fields.push(f);
                i = i + 1;
            }
        }
        let r = DataType { kind, nullable: w.is_nullable, field_types: fields };
        proof {
            lemma_dt_view_seq(r.field_types@);
            crate::pb::lemma_pb_view_seq(w.field_type@);
            lemma_wire_to_dt_seq(crate::pb::pb_view(*w).field_type);
            assert(dt_view(r).fields =~= spec_wire_to_dt(crate::pb::pb_view(*w)).fields);
            assert(dt_view(r) =~= spec_wire_to_dt(crate::pb::pb_view(*w)));
        }
        r
    }
}

/// A deep copy of a data type, equal to the original in value.
#[verifier::loop_isolation(false)]
pub fn clone_data_type(t: &DataType) -> (r: DataType)
    ensures
        dt_view(r) == dt_view(*t),
    decreases *t,
{
    let mut fields: Vec<DataType> = Vec::new();
    let mut i: usize = 0;
    while i < t.field_types.len()
        invariant
            0 <= i <= t.field_types@.len(),
            fields@.len() == i,
            forall|j: int|
                0 <= j < i ==> dt_view(#[trigger] fields@[j]) == dt_view(t.field_types@[j]),
        decreases t.field_types@.len() - i,
    {
        proof {
            assert(decreases_to!(*t => t.field_types@[i as int]));
        }
        let f = clone_data_type(&t.field_types[i]);
        fields.push(f);
        i = i + 1;
    }
    let r = DataType { kind: t.kind, nullable: t.nullable, field_types: fields };
    proof {
        lemma_dt_view_seq(r.field_types@);
        lemma_dt_view_seq(t.field_types@);
        assert(dt_view(r).fields =~= dt_view(*t).fields);
        assert(dt_view(r) =~= dt_view(*t));
    }
    r
}

impl DataTypeKind {
    /// Parses a wire descriptor while expecting this kind: succeeds exactly
    /// when the wire tag names this kind, and fails with a type mismatch
    /// otherwise.
    pub fn try_from_protobuf(self, w: &PbDataType) -> (r: Result<DataType, RwError>)
        ensures
            r is Ok <==> w.type_tag == kind_to_tag(self),
            r matches Ok(t) ==> dt_view(t) == spec_wire_to_dt(crate::pb::pb_view(*w))
                && t.kind == self,
            r matches Err(e) ==> e == RwError::TypeMismatch,
    {
        if w.type_tag == self.to_wire_tag() {
            Ok(DataType::from_protobuf(w))
        } else {
            Err(RwError::TypeMismatch)
        }
    }

    /// The wire tag that names this kind.
    pub fn to_wire_tag(self) -> (r: TypeName)
        ensures
            r == kind_to_tag(self),
    {
        match self {
            DataTypeKind::Boolean => TypeName::Boolean,
            DataTypeKind::Int16 => TypeName::Int16,
            DataTypeKind::Int32 => TypeName::Int32,
            DataTypeKind::Int64 => TypeName::Int64,
            DataTypeKind::Float32 => TypeName::Float,
            DataTypeKind::Float64 => TypeName::Double,
            DataTypeKind::Decimal => TypeName::Decimal,
            DataTypeKind::Date => TypeName::Date,
            DataTypeKind::Varchar => TypeName::Varchar,
            DataTypeKind::Interval => TypeName::Interval,
            DataTypeKind::Struct => TypeName::Struct,
        }
    }
}

/// Round-trip law: parsing back the wire form of any well-formed data type
/// reproduces the same kind, nullability, and field types.
pub proof fn lemma_data_type_round_trip(t: DataTypeVal)
    requires
        dtv_wf(t),
    ensures
        spec_wire_to_dt(spec_dt_to_wire(t)) == t,
    decreases t,
{
    let w = spec_dt_to_wire(t);
    lemma_dt_to_wire_seq(t.fields);
    lemma_wire_to_dt_seq(w.field_type);
    if t.kind == DataTypeKind::Struct {
        assert forall|i: int| 0 <= i < t.fields.len() implies wire_to_dt_seq(
            w.field_type,
        )[i] == t.fields[i] by {
            assert(dtv_wf(t.fields[i]));
            lemma_data_type_round_trip(t.fields[i]);
        }
        assert(spec_wire_to_dt(w).fields =~= t.fields);
    } else {
        assert(spec_wire_to_dt(w).fields =~= t.fields);
    }
    assert(spec_wire_to_dt(w) =~= t);
}

} // verus!
