use stream_core::agg::StreamingAggStateImpl;
use stream_core::array::ArrayImpl;
use stream_core::chunk::{Bitmap, Op};
use stream_core::row_count::StreamingRowCountAgg;
use stream_core::scalar::ScalarImpl;
use stream_core::types::DataTypeKind;

fn get_output_from_impl_state(state: &mut StreamingRowCountAgg) -> ArrayImpl {
    let mut builder = state.new_builder();
    state.get_output(&mut builder).unwrap();
    builder.finish()
}

#[test]
fn test_countable_agg() {
    let mut state = StreamingRowCountAgg::new();

    // when there is no element, output should be `0`, not absent.
    assert_eq!(
        get_output_from_impl_state(&mut state).as_int64().values(),
        &vec![Some(0)]
    );

    // insert one element to state
    state.apply_batch(&[Op::Insert], None, &[]).unwrap();

    // should be one row
    assert_eq!(
        get_output_from_impl_state(&mut state).as_int64().values(),
        &vec![Some(1)]
    );

    // delete one element from state
    state.apply_batch(&[Op::Delete], None, &[]).unwrap();

    // should be 0 rows.
    assert_eq!(
        get_output_from_impl_state(&mut state).as_int64().values(),
        &vec![Some(0)]
    );

    // one more deletion, so we are having `-1` elements inside.
    state.apply_batch(&[Op::Delete], None, &[]).unwrap();

    assert_eq!(
        get_output_from_impl_state(&mut state).as_int64().values(),
        &vec![Some(-1)]
    );

    // one more insert, so we are having `0` elements inside.
    let vis = Bitmap::from_vec(vec![false, true]);
    state
        .apply_batch(&[Op::Delete, Op::Insert], Some(&vis), &[])
        .unwrap();

    assert_eq!(
        get_output_from_impl_state(&mut state).as_int64().values(),
        &vec![Some(0)]
    );

    // one more deletion, so we are having `-1` elements inside.
    let vis = Bitmap::from_vec(vec![true, false]);
    state
        .apply_batch(&[Op::Delete, Op::Insert], Some(&vis), &[])
        .unwrap();

    assert_eq!(
        get_output_from_impl_state(&mut state).as_int64().values(),
        &vec![Some(-1)]
    );
}

#[test]
fn test_empty_state_outputs_zero() {
    let state = StreamingRowCountAgg::new();
    assert_eq!(state.to_datum(), Some(ScalarImpl::Int64(0)));
}

#[test]
fn test_insert_delete_sequence() {
    let mut state = StreamingRowCountAgg::new();
    state.apply_batch(&[Op::Insert], None, &[]).unwrap();
    assert_eq!(state.to_datum(), Some(ScalarImpl::Int64(1)));
    state.apply_batch(&[Op::Delete], None, &[]).unwrap();
    assert_eq!(state.to_datum(), Some(ScalarImpl::Int64(0)));
    state.apply_batch(&[Op::Delete], None, &[]).unwrap();
    assert_eq!(state.to_datum(), Some(ScalarImpl::Int64(-1)));
}

#[test]
fn test_count_neutrality_mixed_batch() {
    let mut state = StreamingRowCountAgg::new();
    state
        .apply_batch(
            &[
                Op::Insert,
                Op::UpdateInsert,
                Op::Delete,
                Op::UpdateDelete,
                Op::Insert,
            ],
            None,
            &[],
        )
        .unwrap();
    // 3 insert halves minus 2 delete halves
    assert_eq!(state.to_datum(), Some(ScalarImpl::Int64(1)));
}

#[test]
fn test_visibility_skip_matches_omitted_row() {
    let mut masked = StreamingRowCountAgg::new();
    let vis = Bitmap::from_vec(vec![true, false, true]);
    masked
        .apply_batch(&[Op::Insert, Op::Delete, Op::Insert], Some(&vis), &[])
        .unwrap();

    let mut omitted = StreamingRowCountAgg::new();
    omitted
        .apply_batch(&[Op::Insert, Op::Insert], None, &[])
        .unwrap();

    assert_eq!(masked.to_datum(), omitted.to_datum());
}

#[test]
fn test_output_idempotent() {
    let mut state = StreamingRowCountAgg::new();
    state
        .apply_batch(&[Op::Insert, Op::Insert], None, &[])
        .unwrap();
    let first = state.to_datum();
    let second = state.to_datum();
    assert_eq!(first, second);
    let a = get_output_from_impl_state(&mut state);
    let b = get_output_from_impl_state(&mut state);
    assert_eq!(a, b);
}

#[test]
fn test_restore_equivalence() {
    let mut state = StreamingRowCountAgg::new();
    state
        .apply_batch(&[Op::Delete, Op::Delete, Op::Insert], None, &[])
        .unwrap();
    let snapshot = state.to_datum();
    let restored = StreamingRowCountAgg::with_row_cnt(state.to_datum());
    assert_eq!(restored.to_datum(), snapshot);

    let from_empty = StreamingRowCountAgg::with_row_cnt(None);
    assert_eq!(from_empty.to_datum(), Some(ScalarImpl::Int64(0)));
}

#[test]
fn test_return_type_and_builder() {
    let ty = StreamingRowCountAgg::return_type();
    assert_eq!(ty.data_type_kind(), DataTypeKind::Int64);
    assert!(!ty.is_nullable());
    let builder = StreamingRowCountAgg::create_array_builder(4).unwrap();
    assert_eq!(builder.len(), 0);
}

#[test]
fn test_agg_state_dispatch() {
    let mut state = StreamingAggStateImpl::new_row_count();
    state
        .apply_batch(&[Op::Insert, Op::Insert, Op::Delete], None, &[])
        .unwrap();
    assert_eq!(state.to_datum(), Some(ScalarImpl::Int64(1)));
    let mut builder = state.new_builder();
    state.get_output(&mut builder).unwrap();
    assert_eq!(builder.finish().as_int64().values(), &vec![Some(1)]);
}
