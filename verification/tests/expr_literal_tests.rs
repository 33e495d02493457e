use stream_core::array::{ArrayImpl, I32Array};
use stream_core::chunk::{DataChunk, OwnedRow};
use stream_core::expr_literal::{ExprError, LiteralExpression, ValueImpl};
use stream_core::pb::{ExprNode, ExprType, IntervalType, PbDataType, PbDatum, RexNode, TypeName};
use stream_core::scalar::{Decimal, F32Bits, F64Bits, Interval, ScalarImpl, StructValue};
use stream_core::types::{DataType, DataTypeKind};
use stream_core::value_encoding::serialize_datum;

fn make_expression(bytes: Option<Vec<u8>>, data_type: TypeName) -> ExprNode {
    ExprNode {
        expr_type: ExprType::ConstantValue,
        return_type: Some(PbDataType {
            type_tag: data_type,
            is_nullable: false,
            interval_type: IntervalType::Month,
            field_type: vec![],
        }),
        rex_node: bytes.map(|bs| RexNode::Constant(PbDatum { body: bs })),
    }
}

fn pb_type(t: TypeName) -> PbDataType {
    PbDataType {
        type_tag: t,
        is_nullable: false,
        interval_type: IntervalType::Unspecified,
        field_type: vec![],
    }
}

#[test]
fn test_struct_expr_literal_from() {
    let value = StructValue::new(vec![
        Some(ScalarImpl::Utf8("12222".into())),
        Some(ScalarImpl::Int32(2)),
        None,
    ]);
    let body = serialize_datum(&Some(ScalarImpl::Struct(value)));
    let expr = ExprNode {
        expr_type: ExprType::ConstantValue,
        return_type: Some(PbDataType {
            type_tag: TypeName::Struct,
            is_nullable: false,
            interval_type: IntervalType::Unspecified,
            field_type: vec![
                pb_type(TypeName::Varchar),
                pb_type(TypeName::Int32),
                pb_type(TypeName::Int32),
            ],
        }),
        rex_node: Some(RexNode::Constant(PbDatum { body })),
    };
    let expr = LiteralExpression::try_from(&expr).unwrap();
    let expected = ScalarImpl::Struct(StructValue::new(vec![
        Some(ScalarImpl::Utf8("12222".into())),
        Some(ScalarImpl::Int32(2)),
        None,
    ]));
    assert_eq!(expected, expr.literal().unwrap());
}

#[test]
fn test_expr_literal_from() {
    let t = TypeName::Boolean;
    let bytes = serialize_datum(&Some(ScalarImpl::Bool(true)));
    let expr = LiteralExpression::try_from(&make_expression(Some(bytes), t)).unwrap();
    assert_eq!(ScalarImpl::Bool(true), expr.literal().unwrap());

    let t = TypeName::Int16;
    let bytes = serialize_datum(&Some(ScalarImpl::Int16(1)));
    let expr = LiteralExpression::try_from(&make_expression(Some(bytes), t)).unwrap();
    assert_eq!(ScalarImpl::Int16(1), expr.literal().unwrap());

    let t = TypeName::Int32;
    let bytes = serialize_datum(&Some(ScalarImpl::Int32(1)));
    let expr = LiteralExpression::try_from(&make_expression(Some(bytes), t)).unwrap();
    assert_eq!(ScalarImpl::Int32(1), expr.literal().unwrap());

    let t = TypeName::Int64;
    let bytes = serialize_datum(&Some(ScalarImpl::Int64(1)));
    let expr = LiteralExpression::try_from(&make_expression(Some(bytes), t)).unwrap();
    assert_eq!(ScalarImpl::Int64(1), expr.literal().unwrap());

    let t = TypeName::Float;
    let bytes = serialize_datum(&Some(ScalarImpl::Float32(F32Bits(1f32.to_bits()))));
    let expr = LiteralExpression::try_from(&make_expression(Some(bytes), t)).unwrap();
    assert_eq!(
        ScalarImpl::Float32(F32Bits(1f32.to_bits())),
        expr.literal().unwrap()
    );

    let t = TypeName::Double;
    let bytes = serialize_datum(&Some(ScalarImpl::Float64(F64Bits(1f64.to_bits()))));
    let expr = LiteralExpression::try_from(&make_expression(Some(bytes), t)).unwrap();
    assert_eq!(
        ScalarImpl::Float64(F64Bits(1f64.to_bits())),
        expr.literal().unwrap()
    );

    let t = TypeName::Float;
    let expr = LiteralExpression::try_from(&make_expression(None, t)).unwrap();
    assert_eq!(None, expr.literal());

    let t = TypeName::Varchar;
    let v: String = "varchar".into();
    let bytes = serialize_datum(&Some(ScalarImpl::Utf8(v)));
    let expr = LiteralExpression::try_from(&make_expression(Some(bytes), t)).unwrap();
    assert_eq!(ScalarImpl::Utf8("varchar".into()), expr.literal().unwrap());

    let t = TypeName::Decimal;
    let v = Decimal::new(3141, 3);
    let bytes = serialize_datum(&Some(ScalarImpl::Decimal(v)));
    let expr = LiteralExpression::try_from(&make_expression(Some(bytes), t)).unwrap();
    assert_eq!(ScalarImpl::Decimal(v), expr.literal().unwrap());

    let t = TypeName::Interval;
    let v = 32i32;
    let bytes = serialize_datum(&Some(ScalarImpl::Interval(Interval::from_month(v))));
    let expr = LiteralExpression::try_from(&make_expression(Some(bytes), t)).unwrap();
    assert_eq!(
        ScalarImpl::Interval(Interval::from_month(v)),
        expr.literal().unwrap()
    );
}

#[test]
fn test_literal_eval_dummy_chunk() {
    let literal = LiteralExpression::new(
        DataType::new(DataTypeKind::Int32, false),
        Some(ScalarImpl::Int32(1)),
    );
    let result = literal.eval(&DataChunk::new_dummy(1)).unwrap();
    assert_eq!(result, ArrayImpl::Int32(I32Array::from_vec(vec![Some(1)])));
}

#[test]
fn test_literal_eval_row_dummy_chunk() {
    let literal = LiteralExpression::new(
        DataType::new(DataTypeKind::Int32, false),
        Some(ScalarImpl::Int32(1)),
    );
    let result = literal.eval_row(&OwnedRow::new(vec![])).unwrap();
    assert_eq!(result, Some(ScalarImpl::Int32(1)));
}

#[test]
fn test_literal_broadcast_capacity_five() {
    let literal = LiteralExpression::new(
        DataType::new(DataTypeKind::Int32, false),
        Some(ScalarImpl::Int32(1)),
    );
    let result = literal.eval(&DataChunk::new_dummy(5)).unwrap();
    assert_eq!(result.as_int32().values(), &vec![Some(1); 5]);
    assert_eq!(
        result,
        ArrayImpl::Int32(I32Array::from_vec(vec![Some(1); 5]))
    );
}

#[test]
fn test_literal_eval_v2_broadcasts_scalar() {
    let literal = LiteralExpression::new(
        DataType::new(DataTypeKind::Int64, false),
        Some(ScalarImpl::Int64(7)),
    );
    let result = literal.eval_v2(&DataChunk::new_dummy(3)).unwrap();
    match result {
        ValueImpl::Scalar { value, capacity } => {
            assert_eq!(value, Some(ScalarImpl::Int64(7)));
            assert_eq!(capacity, 3);
        }
        ValueImpl::Array(_) => panic!("expected a broadcast scalar"),
    }
}

#[test]
fn test_non_constant_node_is_rejected() {
    let bytes = serialize_datum(&Some(ScalarImpl::Int32(1)));
    let mut node = make_expression(Some(bytes), TypeName::Int32);
    node.expr_type = ExprType::InputRef;
    let r = LiteralExpression::try_from(&node);
    assert_eq!(r, Err(ExprError::UnexpectedExprType));
}

#[test]
fn test_unsupported_rex_node_is_rejected() {
    let mut node = make_expression(None, TypeName::Int32);
    node.rex_node = Some(RexNode::InputRef(0));
    let r = LiteralExpression::try_from(&node);
    assert_eq!(r, Err(ExprError::UnsupportedRexNode));
}

#[test]
fn test_bad_payload_is_rejected() {
    let node = make_expression(Some(vec![9, 9, 9]), TypeName::Int32);
    let r = LiteralExpression::try_from(&node);
    assert_eq!(r, Err(ExprError::Internal));
}

#[test]
fn test_eval_const_returns_literal() {
    let literal = LiteralExpression::new(
        DataType::new(DataTypeKind::Varchar, false),
        Some(ScalarImpl::Utf8("abc".into())),
    );
    assert_eq!(
        literal.eval_const().unwrap(),
        Some(ScalarImpl::Utf8("abc".into()))
    );
    assert_eq!(
        literal.return_type().data_type_kind(),
        DataTypeKind::Varchar
    );
}
