//! The row-count aggregation state: a single signed accumulator that counts
//! every visible row, null or not, and may legitimately go negative under
//! unmatched retractions. Zero rows output `0`, never an absent value.

use vstd::prelude::*;

use crate::array::{builder_kind, builder_view, ArrayBuilderImpl, ArrayImpl, I64ArrayBuilder};
use crate::chunk::{vis_seq, Bitmap, Op, Ops};
use crate::scalar::{datum_view, Datum, DatumVal, ScalarImpl, ScalarVal};
use crate::types::{dt_view, DataType, DataTypeKind, RwError};

verus! {

broadcast use vstd::std_specs::vec::group_vec_axioms, vstd::seq::group_seq_axioms;

/// Whether an operation applies positively (an insertion) rather than as a
/// retraction.
pub open spec fn op_is_positive(op: Op) -> bool {
    op == Op::Insert || op == Op::UpdateInsert
}

/// The contribution of one row to the row count: nothing when invisible,
/// plus one for an insertion, minus one for a retraction.
pub open spec fn op_step(op: Op, visible: bool) -> int {
    if !visible {
        0
    } else if op_is_positive(op) {
        1
    } else {
        -1
    }
}

/// The net change of the row count over a batch of operations under a
/// visibility sequence.
pub open spec fn count_delta(ops: Seq<Op>, vis: Seq<bool>) -> int
    decreases ops.len(),
{
    if ops.len() == 0 {
        0
    } else {
        count_delta(ops.subrange(0, ops.len() - 1), vis.subrange(0, ops.len() - 1)) + op_step(
            ops[ops.len() - 1],
            vis[ops.len() - 1],
        )
    }
}

/// The number of visible insertions (insert or update-insert halves).
pub open spec fn count_positive(ops: Seq<Op>) -> int
    decreases ops.len(),
{
    if ops.len() == 0 {
        0
    } else {
        count_positive(ops.subrange(0, ops.len() - 1)) + if op_is_positive(ops[ops.len() - 1]) {
            1int
        } else {
            0int
        }
    }
}

/// The number of visible retractions (delete or update-delete halves).
pub open spec fn count_negative(ops: Seq<Op>) -> int
    decreases ops.len(),
{
    if ops.len() == 0 {
        0
    } else {
        count_negative(ops.subrange(0, ops.len() - 1)) + if op_is_positive(ops[ops.len() - 1]) {
            0int
        } else {
            1int
        }
    }
}

/// The checkpoint datum that a row-count state emits: always present, the
/// accumulator as a 64-bit integer.
pub open spec fn output_datum(s: StreamingRowCountAgg) -> DatumVal {
    Some(ScalarVal::Int64(s.row_cnt))
}

/// Whether a checkpoint datum can restore a row-count state: absent, or a
/// 64-bit integer.
pub open spec fn restorable(d: DatumVal) -> bool {
    match d {
        None => true,
        Some(ScalarVal::Int64(_)) => true,
        _ => false,
    }
}

/// The accumulator value that a checkpoint datum restores: zero when the
/// datum is absent.
pub open spec fn restore_count(d: DatumVal) -> int {
    match d {
        Some(ScalarVal::Int64(n)) => n as int,
        _ => 0,
    }
}

/// Streaming row-count state: counts rows whether or not their values are
/// null. An aggregator that has seen zero rows emits `0`, not an absent
/// value.
#[derive(Clone, Copy, Debug, PartialEq, Eq, Structural)]
pub struct StreamingRowCountAgg {
    pub row_cnt: i64,
}

impl StreamingRowCountAgg {
    /// An empty state: the count starts at zero.
    pub fn new() -> (r: StreamingRowCountAgg)
        ensures
            r.row_cnt == 0,
    {
        StreamingRowCountAgg::with_row_cnt(None)
    }

    /// A state restored from a checkpoint datum; an absent datum restores
    /// the empty state. A datum of any other kind than a 64-bit integer is a
    /// fatal contract breach.
    pub fn with_row_cnt(datum: Datum) -> (r: StreamingRowCountAgg)
        requires
            restorable(datum_view(datum)),
        ensures
            r.row_cnt as int == restore_count(datum_view(datum)),
    {
        let row_cnt: i64 = match datum {
            None => 0,
            Some(ScalarImpl::Int64(num)) => num,
            Some(_) => vstd::pervasive::unreached(),
        };
        StreamingRowCountAgg { row_cnt }
    }

    /// A builder for the aggregate's return type, a 64-bit integer column.
    pub fn create_array_builder(capacity: usize) -> (r: Result<ArrayBuilderImpl, RwError>)
        ensures
            r is Ok,
            r matches Ok(b) ==> builder_kind(b) == DataTypeKind::Int64 && builder_view(b)
                == Seq::<DatumVal>::empty(),
    {
        match I64ArrayBuilder::new(capacity) {
            Ok(b) => {
                let r = ArrayBuilderImpl::Int64(b);
                proof {
                    assert(builder_view(r) =~= Seq::<DatumVal>::empty());
                }
                Ok(r)
            },
            Err(e) => Err(e),
        }
    }

    /// The aggregate's return type: a non-nullable 64-bit integer.
    pub fn return_type() -> (r: DataType)
        ensures
            dt_view(r).kind == DataTypeKind::Int64,
            !dt_view(r).nullable,
    {
        DataType::new(DataTypeKind::Int64, false)
    }

    /// Applies one changelog batch: for each visible row the count rises on
    /// an insertion and falls on a retraction, exactly as if the rows were
    /// applied one at a time in order. Argument columns are not consulted:
    /// a row counts whether or not its values are null.
    #[verifier::loop_isolation(false)]
    pub fn apply_batch(&mut self, ops: Ops<'_>, visibility: Option<&Bitmap>, data: &[ArrayImpl])
        -> (r: Result<(), RwError>)
        requires
            (visibility matches Some(v) ==> v@.len() == ops@.len()),
            forall|k: int|
                0 <= k <= ops@.len() ==> i64::MIN <= old(self).row_cnt + count_delta(
                    #[trigger] ops@.subrange(0, k),
                    vis_seq(visibility, ops@.len() as nat).subrange(0, k),
                ) <= i64::MAX,
        ensures
            r is Ok,
            final(self).row_cnt == old(self).row_cnt + count_delta(
                ops@,
                vis_seq(visibility, ops@.len() as nat),
            ),
    {
        let ghost vis = vis_seq(visibility, ops@.len() as nat);
        let n = ops.len();
        let mut i: usize = 0;
        while i < n
            invariant
                0 <= i <= n,
                n == ops@.len(),
                self.row_cnt == old(self).row_cnt + count_delta(
                    ops@.subrange(0, i as int),
                    vis.subrange(0, i as int),
                ),
            decreases n - i,
        {
            let visible = match visibility {
                None => true,
                Some(bitmap) => bitmap.is_set(i),
            };
            proof {
                let pre_o = ops@.subrange(0, i as int);
                let pre_v = vis.subrange(0, i as int);
                let cur_o = ops@.subrange(0, i + 1);
                let cur_v = vis.subrange(0, i + 1);
                assert(cur_o.subrange(0, cur_o.len() - 1) =~= pre_o);
                assert(cur_v.subrange(0, cur_o.len() - 1) =~= pre_v);
                assert(cur_o[cur_o.len() - 1] == ops@[i as int]);
                assert(cur_v[cur_o.len() - 1] == vis[i as int]);
                assert(count_delta(cur_o, cur_v) == count_delta(pre_o, pre_v) + op_step(
                    ops@[i as int],
                    vis[i as int],
                ));
                assert(visible == vis[i as int]);
            }
            if visible {
                match ops[i] {
                    Op::Insert | Op::UpdateInsert => {
                        self.row_cnt = self.row_cnt + 1;
                    },
                    Op::Delete | Op::UpdateDelete => {
                        self.row_cnt = self.row_cnt - 1;
                    },
                }
            }
            i = i + 1;
        }
        proof {
            assert(ops@.subrange(0, n as int) =~= ops@);
            assert(vis.subrange(0, n as int) =~= vis);
        }
        Ok(())
    }

    /// Appends the current count into a 64-bit integer builder; any other
    /// builder variant is a fatal contract breach with the planner.
    pub fn get_output(&self, builder: &mut ArrayBuilderImpl) -> (r: Result<(), RwError>)
        requires
            builder_kind(*old(builder)) == DataTypeKind::Int64,
        ensures
            r is Ok,
            builder_kind(*final(builder)) == DataTypeKind::Int64,
            builder_view(*final(builder)) == builder_view(*old(builder)).push(
                output_datum(*self),
            ),
    {
        let r = match builder {
            ArrayBuilderImpl::Int64(b) => b.append(Some(self.row_cnt)),
            _ => vstd::pervasive::unreached(),
        };
        proof {
            assert(builder_view(*builder) =~= builder_view(*old(builder)).push(
                output_datum(*self),
            ));
        }
        r
    }

    /// The checkpoint datum of the current state: always present, even at
    /// zero.
    pub fn to_datum(&self) -> (r: Datum)
        ensures
            datum_view(r) == output_datum(*self),
            r is Some,
    {
        Some(ScalarImpl::Int64(self.row_cnt))
    }

    /// An empty builder matching the aggregate's return type.
    pub fn new_builder(&self) -> (r: ArrayBuilderImpl)
        ensures
            builder_kind(r) == DataTypeKind::Int64,
            builder_view(r) == Seq::<DatumVal>::empty(),
    {
        let b = match I64ArrayBuilder::new(0) {
            Ok(b) => b,
            Err(_) => vstd::pervasive::unreached(),
        };
        let r = ArrayBuilderImpl::Int64(b);
        proof {
            assert(builder_view(r) =~= Seq::<DatumVal>::empty());
        }
        r
    }
}

/// Count neutrality: with every row visible, the net change of a batch is
/// the number of insertions minus the number of retractions.
pub proof fn lemma_count_neutrality(ops: Seq<Op>)
    ensures
        count_delta(ops, Seq::new(ops.len(), |i: int| true)) == count_positive(ops)
            - count_negative(ops),
    decreases ops.len(),
{
    let vis = Seq::new(ops.len(), |i: int| true);
    if ops.len() > 0 {
        let pre = ops.subrange(0, ops.len() - 1);
        lemma_count_neutrality(pre);
        assert(vis.subrange(0, ops.len() - 1) =~= Seq::new(pre.len(), |i: int| true));
    }
}

/// Visibility skip: a batch with one row invisible changes the state exactly
/// as the batch with that row left out entirely.
pub proof fn lemma_visibility_skip(ops: Seq<Op>, vis: Seq<bool>, i: int)
    requires
        ops.len() == vis.len(),
        0 <= i < ops.len(),
        !vis[i],
    ensures
        count_delta(ops, vis) == count_delta(ops.remove(i), vis.remove(i)),
    decreases ops.len(),
{
    let last = ops.len() - 1;
    if i == last {
        assert(ops.remove(i) =~= ops.subrange(0, last));
        assert(vis.remove(i) =~= vis.subrange(0, last));
        assert(op_step(ops[last], vis[last]) == 0);
    } else {
        let pre_o = ops.subrange(0, last);
        let pre_v = vis.subrange(0, last);
        lemma_visibility_skip(pre_o, pre_v, i);
        assert(ops.remove(i).subrange(0, last - 1) =~= pre_o.remove(i));
        assert(vis.remove(i).subrange(0, last - 1) =~= pre_v.remove(i));
        assert(ops.remove(i)[last - 1] == ops[last]);
        assert(vis.remove(i)[last - 1] == vis[last]);
    }
}

/// Idempotent output: two outputs taken from the same state with no
/// intervening batch are identical.
pub proof fn lemma_output_idempotent(s: StreamingRowCountAgg, d1: Datum, d2: Datum)
    requires
        datum_view(d1) == output_datum(s),
        datum_view(d2) == output_datum(s),
    ensures
        datum_view(d1) == datum_view(d2),
{
}

/// Restore equivalence: a state restored from a checkpoint datum emits that
/// same checkpoint datum.
pub proof fn lemma_restore_equivalence(s: StreamingRowCountAgg, restored: StreamingRowCountAgg)
    requires
        restored.row_cnt as int == restore_count(output_datum(s)),
    ensures
        output_datum(restored) == output_datum(s),
{
}

} // verus!
