//! The streaming aggregation state abstraction: a closed set of per-group
//! accumulators, one variant per aggregate function, dispatched by pattern
//! matching. Row count is the representative concrete state.

use vstd::prelude::*;

use crate::array::{builder_kind, builder_view, ArrayBuilderImpl, ArrayImpl};
use crate::chunk::{vis_seq, Bitmap, Op, Ops};
use crate::row_count::{count_delta, output_datum, StreamingRowCountAgg};
use crate::scalar::{datum_view, Datum, DatumVal};
use crate::types::{DataTypeKind, RwError};

verus! {

broadcast use vstd::std_specs::vec::group_vec_axioms, vstd::seq::group_seq_axioms;

/// A streaming aggregation state: one owned, mutable accumulator for one
/// group of one aggregate function.
#[derive(Clone, Copy, Debug, PartialEq, Eq, Structural)]
pub enum StreamingAggStateImpl {
    RowCount(StreamingRowCountAgg),
}

/// The current accumulator of an aggregation state, as an integer.
pub open spec fn agg_count(a: StreamingAggStateImpl) -> int {
    match a {
        StreamingAggStateImpl::RowCount(s) => s.row_cnt as int,
    }
}

/// The datum an aggregation state emits for output and checkpointing.
pub open spec fn agg_output(a: StreamingAggStateImpl) -> DatumVal {
    match a {
        StreamingAggStateImpl::RowCount(s) => output_datum(s),
    }
}

/// The declared return kind of an aggregation state.
pub open spec fn agg_return_kind(a: StreamingAggStateImpl) -> DataTypeKind {
    match a {
        StreamingAggStateImpl::RowCount(_) => DataTypeKind::Int64,
    }
}

impl StreamingAggStateImpl {
    /// An empty row-count state.
    pub fn new_row_count() -> (r: StreamingAggStateImpl)
        ensures
            agg_count(r) == 0,
            r is RowCount,
    {
        StreamingAggStateImpl::RowCount(StreamingRowCountAgg::new())
    }

    /// Applies one changelog batch to the state, honoring the visibility
    /// mask exactly as the batch model prescribes.
    pub fn apply_batch(&mut self, ops: Ops<'_>, visibility: Option<&Bitmap>, data: &[ArrayImpl])
        -> (r: Result<(), RwError>)
        requires
            (visibility matches Some(v) ==> v@.len() == ops@.len()),
            forall|k: int|
                0 <= k <= ops@.len() ==> i64::MIN <= agg_count(*old(self)) + count_delta(
                    #[trigger] ops@.subrange(0, k),
                    vis_seq(visibility, ops@.len() as nat).subrange(0, k),
                ) <= i64::MAX,
        ensures
            r is Ok,
            agg_count(*final(self)) == agg_count(*old(self)) + count_delta(
                ops@,
                vis_seq(visibility, ops@.len() as nat),
            ),
            agg_return_kind(*final(self)) == agg_return_kind(*old(self)),
    {
        match self {
            StreamingAggStateImpl::RowCount(s) => s.apply_batch(ops, visibility, data),
        }
    }

    /// Appends the current aggregate value into a builder of the aggregate's
    /// return kind; a mismatched variant is a fatal contract breach.
    pub fn get_output(&self, builder: &mut ArrayBuilderImpl) -> (r: Result<(), RwError>)
        requires
            builder_kind(*old(builder)) == agg_return_kind(*self),
        ensures
            r is Ok,
            builder_view(*final(builder)) == builder_view(*old(builder)).push(agg_output(*self)),
    {
        match self {
            StreamingAggStateImpl::RowCount(s) => s.get_output(builder),
        }
    }

    /// A checkpoint-safe snapshot of the current state.
    pub fn to_datum(&self) -> (r: Datum)
        ensures
            datum_view(r) == agg_output(*self),
    {
        match self {
            StreamingAggStateImpl::RowCount(s) => s.to_datum(),
        }
    }

    /// An empty builder matching the aggregate's return kind.
    pub fn new_builder(&self) -> (r: ArrayBuilderImpl)
        ensures
            builder_kind(r) == agg_return_kind(*self),
            builder_view(r) == Seq::<DatumVal>::empty(),
    {
        match self {
            StreamingAggStateImpl::RowCount(s) => s.new_builder(),
        }
    }
}

} // verus!
