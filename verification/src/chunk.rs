//! The changelog batch model: per-row operations, the optional visibility
//! mask over a batch, and the data chunks that expressions evaluate against.

use vstd::prelude::*;

use crate::array::{array_view, ArrayImpl};

verus! {

broadcast use vstd::std_specs::vec::group_vec_axioms, vstd::seq::group_seq_axioms;

/// The effect of one row in a changelog batch. `UpdateDelete` and
/// `UpdateInsert` are the two halves of one logical update and behave as a
/// retraction and an insertion for aggregation.
#[derive(Clone, Copy, Debug, PartialEq, Eq, Structural)]
pub enum Op {
    Insert,
    Delete,
    UpdateInsert,
    UpdateDelete,
}

/// A sequence of row operations, one per row of a batch.
pub type Ops<'a> = &'a [Op];

/// A per-row visibility mask: a row at a `false` position is logically
/// absent from its batch.
#[derive(Debug, PartialEq)]
pub struct Bitmap {
    pub bits: Vec<bool>,
}

impl View for Bitmap {
    type V = Seq<bool>;

    open spec fn view(&self) -> Seq<bool> {
        self.bits@
    }
}

impl Bitmap {
    /// A mask holding exactly the given per-row flags.
    pub fn from_vec(bits: Vec<bool>) -> (r: Bitmap)
        ensures
            r@ == bits@,
    {
        Bitmap { bits }
    }

    /// The number of rows the mask covers.
    pub fn len(&self) -> (r: usize)
        ensures
            r == self@.len(),
    {
        self.bits.len()
    }

    /// Whether the row at the given position is visible.
    pub fn is_set(&self, i: usize) -> (r: bool)
        requires
            i < self@.len(),
        ensures
            r == self@[i as int],
    {
        self.bits[i]
    }
}

/// The effective visibility of each of `len` rows: the mask where one is
/// present, and every row visible where none is.
pub open spec fn vis_seq(visibility: Option<&Bitmap>, len: nat) -> Seq<bool> {
    match visibility {
        None => Seq::new(len, |i: int| true),
        Some(b) => b@,
    }
}

/// A changelog batch: one operation per row, typed columns of the same
/// length, and an optional visibility mask of the same length.
#[derive(Debug, PartialEq)]
pub struct StreamChunk {
    pub ops: Vec<Op>,
    pub columns: Vec<ArrayImpl>,
    pub visibility: Option<Bitmap>,
}

/// Well-formedness of a batch: the mask, when present, and every column are
/// aligned 1:1 with the rows.
pub open spec fn chunk_wf(c: StreamChunk) -> bool {
    &&& (c.visibility matches Some(b) ==> b@.len() == c.ops@.len())
    &&& (forall|i: int|
        0 <= i < c.columns@.len() ==> array_view(#[trigger] c.columns@[i]).len() == c.ops@.len())
}

impl StreamChunk {
    /// A batch over the given rows; mask and columns must be aligned with
    /// the operations.
    pub fn new(ops: Vec<Op>, columns: Vec<ArrayImpl>, visibility: Option<Bitmap>) -> (r:
        StreamChunk)
        requires
            (visibility matches Some(b) ==> b@.len() == ops@.len()),
            forall|i: int|
                0 <= i < columns@.len() ==> array_view(#[trigger] columns@[i]).len() == ops@.len(),
        ensures
            r.ops@ == ops@,
            r.columns@ == columns@,
            chunk_wf(r),
    {
        StreamChunk { ops, columns, visibility }
    }

    /// The number of rows in the batch, visible or not.
    pub fn len(&self) -> (r: usize)
        ensures
            r == self.ops@.len(),
    {
        self.ops.len()
    }

    /// The operation of the row at the given position.
    pub fn op_at(&self, i: usize) -> (r: Op)
        requires
            i < self.ops@.len(),
        ensures
            r == self.ops@[i as int],
    {
        self.ops[i]
    }

    /// Whether the row at the given position is visible. This is the single
    /// enumeration path through which consumers must honor the mask.
    pub fn is_visible(&self, i: usize) -> (r: bool)
        requires
            chunk_wf(*self),
            i < self.ops@.len(),
        ensures
            r == vis_seq((match self.visibility {
                Some(ref b) => Some(b),
                None => None,
            }), self.ops@.len() as nat)[i as int],
    {
        match &self.visibility {
            None => true,
            Some(b) => b.is_set(i),
        }
    }

    /// The rows of the batch as `(operation, visible)` pairs, mask applied.
    pub fn rows(&self) -> (r: Vec<(Op, bool)>)
        requires
            chunk_wf(*self),
        ensures
            r@.len() == self.ops@.len(),
            forall|i: int|
                0 <= i < r@.len() ==> #[trigger] r@[i] == (
                    self.ops@[i],
                    vis_seq((match self.visibility {
                        Some(ref b) => Some(b),
                        None => None,
                    }), self.ops@.len() as nat)[i],
                ),
    {
        let mut r: Vec<(Op, bool)> = Vec::new();
        let n = self.ops.len();
        let mut i: usize = 0;
        while i < n
            invariant
                0 <= i <= n,
                n == self.ops@.len(),
                chunk_wf(*self),
                r@.len() == i,
                forall|j: int|
                    0 <= j < i as int ==> #[trigger] r@[j] == (
                        self.ops@[j],
                        vis_seq((match self.visibility {
                            Some(ref b) => Some(b),
                            None => None,
                        }), self.ops@.len() as nat)[j],
                    ),
            decreases n - i,
        {
            let visible = self.is_visible(i);
            r.push((self.ops[i], visible));
            i = i + 1;
        }
        r
    }
}

/// An owned row of datums, as handed to row-wise expression evaluation.
#[derive(Debug, PartialEq)]
pub struct OwnedRow {
    pub values: Vec<crate::scalar::Datum>,
}

impl OwnedRow {
    /// A row holding exactly the given datums.
    pub fn new(values: Vec<crate::scalar::Datum>) -> (r: OwnedRow)
        ensures
            r.values@ == values@,
    {
        OwnedRow { values }
    }
}

/// A plain data chunk as seen by expression evaluation: only its cardinality
/// matters to a constant expression.
#[derive(Debug, PartialEq)]
pub struct DataChunk {
    pub cardinality: usize,
}

impl DataChunk {
    /// A chunk of the given cardinality with no columns.
    pub fn new_dummy(cardinality: usize) -> (r: DataChunk)
        ensures
            r.cardinality == cardinality,
    {
        DataChunk { cardinality }
    }

    /// The number of rows a value broadcast over this chunk must cover.
    pub fn capacity(&self) -> (r: usize)
        ensures
            r == self.cardinality,
    {
        self.cardinality
    }
}

} // verus!
