//! Model of the wire schema: type descriptors, serialized datums, and
//! constant expression nodes as they travel between nodes. The shapes mirror
//! the externally fixed, protobuf-style contract.

use vstd::prelude::*;

verus! {

/// Wire tag naming a data type kind.
#[derive(Clone, Copy, Debug, PartialEq, Eq, Structural)]
pub enum TypeName {
    Boolean,
    Int16,
    Int32,
    Int64,
    Float,
    Double,
    Decimal,
    Date,
    Varchar,
    Interval,
    Struct,
}

/// Wire tag for the sub-unit of an interval type.
#[derive(Clone, Copy, Debug, PartialEq, Eq, Structural)]
pub enum IntervalType {
    Unspecified,
    Year,
    Month,
    Day,
    Hour,
    Minute,
    Second,
}

/// Wire descriptor of a data type: a type-name tag, a nullability flag, and
/// kind-specific extras (interval sub-unit, nested field types for structs).
#[derive(Debug, PartialEq)]
pub struct PbDataType {
    pub type_tag: TypeName,
    pub is_nullable: bool,
    pub interval_type: IntervalType,
    pub field_type: Vec<PbDataType>,
}

/// Mathematical value of a [`PbDataType`].
#[verifier::ext_equal]
pub ghost struct WireTypeVal {
    pub type_tag: TypeName,
    pub is_nullable: bool,
    pub interval_type: IntervalType,
    pub field_type: Seq<WireTypeVal>,
}

/// The abstraction of a wire type descriptor, nested descriptors included.
pub open spec fn pb_view(w: PbDataType) -> WireTypeVal
    decreases w,
{
    WireTypeVal {
        type_tag: w.type_tag,
        is_nullable: w.is_nullable,
        interval_type: w.interval_type,
        field_type: pb_view_seq(w.field_type@),
    }
}

/// The abstraction of each wire type descriptor in a sequence, in order.
pub open spec fn pb_view_seq(s: Seq<PbDataType>) -> Seq<WireTypeVal>
    decreases s,
{
    if s.len() == 0 {
        Seq::empty()
    } else {
        pb_view_seq(s.subrange(0, s.len() - 1)).push(pb_view(s[s.len() - 1]))
    }
}

/// [`pb_view_seq`] abstracts pointwise.
pub proof fn lemma_pb_view_seq(s: Seq<PbDataType>)
    ensures
        pb_view_seq(s).len() == s.len(),
        forall|i: int| 0 <= i < s.len() ==> pb_view_seq(s)[i] == pb_view(s[i]),
    decreases s,
{
    if s.len() > 0 {
        lemma_pb_view_seq(s.subrange(0, s.len() - 1));
    }
}

/// An opaque serialized scalar payload carried by a constant expression node.
#[derive(Clone, Debug, PartialEq)]
pub struct PbDatum {
    pub body: Vec<u8>,
}

/// Wire tag for the kind of an expression node.
#[derive(Clone, Copy, Debug, PartialEq, Eq, Structural)]
pub enum ExprType {
    ConstantValue,
    InputRef,
}

/// The kind-specific part of an expression node.
#[derive(Clone, Debug, PartialEq)]
pub enum RexNode {
    Constant(PbDatum),
    InputRef(u32),
}

/// Wire form of an expression node: its kind tag, declared return type, and
/// kind-specific payload.
#[derive(Debug, PartialEq)]
pub struct ExprNode {
    pub expr_type: ExprType,
    pub return_type: Option<PbDataType>,
    pub rex_node: Option<RexNode>,
}

} // verus!
