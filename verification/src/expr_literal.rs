//! Constant expressions: a declared return type bound to an optional scalar
//! at construction. Evaluation broadcasts the stored value over a batch, and
//! construction from a wire expression node decodes the payload under the
//! declared return type.

use vstd::prelude::*;

use crate::array::{array_kind, array_view, builder_kind, builder_view, datum_fits_kind, ArrayImpl};
use crate::chunk::{DataChunk, OwnedRow};
use crate::pb::{pb_view, ExprNode, ExprType, RexNode};
use crate::scalar::{clone_datum, datum_matches, datum_view, literal_type_match, Datum, DatumVal};
use crate::types::{clone_data_type, dt_view, DataType, DataTypeVal};
use crate::value_encoding::{decodes_full, deserialize_datum};

verus! {

broadcast use vstd::std_specs::vec::group_vec_axioms, vstd::seq::group_seq_axioms;

/// The error class for recoverable failures when building or evaluating
/// expressions.
#[derive(Clone, Copy, Debug, PartialEq, Eq, Structural)]
pub enum ExprError {
    /// The wire node's kind tag is not "constant value".
    UnexpectedExprType,
    /// The wire node's kind-specific payload is of an unsupported shape.
    UnsupportedRexNode,
    /// The embedded payload cannot be decoded under the declared return
    /// type.
    Internal,
}

/// The result of a vectorized evaluation: either a materialized column, or
/// one scalar broadcast to a stated capacity.
#[derive(Debug, PartialEq)]
pub enum ValueImpl {
    Array(ArrayImpl),
    Scalar { value: Datum, capacity: usize },
}

/// A constant expression: a declared return type and the bound datum.
#[derive(Debug, PartialEq)]
pub struct LiteralExpression {
    pub return_type: DataType,
    pub literal: Datum,
}

/// The type-match invariant of a constant expression: the bound datum is
/// consistent with the declared return type.
pub open spec fn literal_wf(e: LiteralExpression) -> bool {
    datum_matches(datum_view(e.literal), dt_view(e.return_type))
}

/// A type-matching datum's tag agrees with the declared kind.
proof fn lemma_matches_fits(d: DatumVal, t: DataTypeVal)
    requires
        datum_matches(d, t),
    ensures
        datum_fits_kind(d, t.kind),
{
}

impl LiteralExpression {
    /// A constant expression over the given type and datum; a tag mismatch
    /// between the two is a fatal contract breach with the planner.
    pub fn new(return_type: DataType, literal: Datum) -> (r: LiteralExpression)
        requires
            datum_matches(datum_view(literal), dt_view(return_type)),
        ensures
            dt_view(r.return_type) == dt_view(return_type),
            datum_view(r.literal) == datum_view(literal),
            literal_wf(r),
    {
        let ok = literal_type_match(&return_type, &literal);
        if !ok {
            vstd::pervasive::unreached()
        } else {
            LiteralExpression { return_type, literal }
        }
    }

    /// The declared return type.
    pub fn return_type(&self) -> (r: DataType)
        ensures
            dt_view(r) == dt_view(self.return_type),
    {
        clone_data_type(&self.return_type)
    }

    /// The bound datum.
    pub fn literal(&self) -> (r: Datum)
        ensures
            datum_view(r) == datum_view(self.literal),
    {
        clone_datum(&self.literal)
    }

    /// Evaluates against a batch without materializing: the stored datum
    /// broadcast to the batch's capacity.
    pub fn eval_v2(&self, input: &DataChunk) -> (r: Result<ValueImpl, ExprError>)
        ensures
            r matches Ok(v) ==> (v matches ValueImpl::Scalar { value, capacity }
                && datum_view(value) == datum_view(self.literal) && capacity == input.cardinality),
            r is Ok,
    {
        let value = clone_datum(&self.literal);
        Ok(ValueImpl::Scalar { value, capacity: input.capacity() })
    }

    /// Evaluates against a batch, materializing a column of the declared
    /// kind that repeats the stored datum once per row.
    #[verifier::loop_isolation(false)]
    pub fn eval(&self, input: &DataChunk) -> (r: Result<ArrayImpl, ExprError>)
        requires
            literal_wf(*self),
        ensures
            r matches Ok(a) ==> (array_kind(a) == dt_view(self.return_type).kind && array_view(
                a,
            ).len() == input.cardinality && (forall|i: int|
                0 <= i < array_view(a).len() ==> array_view(a)[i] == datum_view(self.literal))),
            r is Ok,
    {
        let n = input.capacity();
        let mut builder = match self.return_type.create_array_builder(n) {
            Ok(b) => b,
            Err(_) => vstd::pervasive::unreached(),
        };
        proof {
            lemma_matches_fits(datum_view(self.literal), dt_view(self.return_type));
        }
        let mut i: usize = 0;
        while i < n
            invariant
                0 <= i <= n,
                builder_kind(builder) == dt_view(self.return_type).kind,
                builder_view(builder).len() == i,
                forall|j: int|
                    0 <= j < i ==> builder_view(builder)[j] == datum_view(self.literal),
            decreases n - i,
        {
            match builder.append_datum(&self.literal) {
                Ok(_) => {},
                Err(_) => vstd::pervasive::unreached(),
            }
            i = i + 1;
        }
        Ok(builder.finish())
    }

    /// Evaluates against one row: the stored datum, independent of the row.
    pub fn eval_row(&self, _input: &OwnedRow) -> (r: Result<Datum, ExprError>)
        ensures
            r matches Ok(d) ==> datum_view(d) == datum_view(self.literal),
            r is Ok,
    {
        Ok(clone_datum(&self.literal))
    }

    /// Evaluates as a constant-folding request: the stored datum, with no
    /// input at all.
    pub fn eval_const(&self) -> (r: Result<Datum, ExprError>)
        ensures
            r matches Ok(d) ==> datum_view(d) == datum_view(self.literal),
            r is Ok,
    {
        Ok(clone_datum(&self.literal))
    }

    /// Builds a constant expression from a wire expression node. The node
    /// must be tagged as a constant value; an absent payload yields a NULL
    /// literal, and an embedded payload is decoded under the declared return
    /// type, failing exactly when it is not a full valid encoding.
    pub fn try_from(node: &ExprNode) -> (r: Result<LiteralExpression, ExprError>)
        requires
            node.return_type is Some,
        ensures
            node.expr_type != ExprType::ConstantValue ==> r == Err::<
                LiteralExpression,
                ExprError,
            >(ExprError::UnexpectedExprType),
            (node.expr_type == ExprType::ConstantValue && node.rex_node is None) ==> (r matches Ok(
                e,
            ) && (node.return_type matches Some(w) ==> dt_view(e.return_type)
                == crate::types::spec_wire_to_dt(pb_view(w))) && datum_view(e.literal) is None),
            (node.expr_type == ExprType::ConstantValue && (node.rex_node matches Some(
                RexNode::InputRef(_),
            ))) ==> r == Err::<LiteralExpression, ExprError>(ExprError::UnsupportedRexNode),
            node.expr_type == ExprType::ConstantValue ==> (node.rex_node matches Some(
                RexNode::Constant(pbd),
            ) ==> (node.return_type matches Some(w) ==> (match decodes_full(
                pbd.body@,
                crate::types::spec_wire_to_dt(pb_view(w)),
            ) {
                Some(dv) => r matches Ok(e) && datum_view(e.literal) == dv && dt_view(
                    e.return_type,
                ) == crate::types::spec_wire_to_dt(pb_view(w)),
                None => r == Err::<LiteralExpression, ExprError>(ExprError::Internal),
            }))),
            r matches Ok(e) ==> literal_wf(e),
    {
        if node.expr_type != ExprType::ConstantValue {
            return Err(ExprError::UnexpectedExprType);
        }
        let rtw = match &node.return_type {
            Some(w) => w,
            None => vstd::pervasive::unreached(),
        };
        let ret_type = DataType::from_protobuf(rtw);
        match &node.rex_node {
            None => Ok(LiteralExpression { return_type: ret_type, literal: None }),
            Some(RexNode::InputRef(_)) => Err(ExprError::UnsupportedRexNode),
            Some(RexNode::Constant(pbd)) => {
                match deserialize_datum(pbd.body.as_slice(), &ret_type) {
                    Ok(d) => {
                        proof {
                            let t = dt_view(ret_type);
                            match crate::value_encoding::spec_dec_datum(pbd.body@, 0, t) {
                                Some((dv, m)) => {
                                    crate::value_encoding::lemma_dec_datum_matches(
                                        pbd.body@,
                                        0,
                                        t,
                                        dv,
                                        m,
                                    );
                                },
                                None => {
                                    assert(false);
                                },
                            }
                        }
                        Ok(LiteralExpression { return_type: ret_type, literal: d })
                    },
                    Err(_) => Err(ExprError::Internal),
                }
            },
        }
    }
}

} // verus!
