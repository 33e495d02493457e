use stream_core::chunk::{Bitmap, Op, StreamChunk};
use stream_core::component::Component;
use stream_core::pb::{IntervalType, PbDataType, TypeName};
use stream_core::scalar::{Decimal, Interval, ScalarImpl, StructValue};
use stream_core::types::{DataSize, DataType, DataTypeKind, RwError};
use stream_core::value_encoding::{deserialize_datum, serialize_datum, ValueEncodingError};

fn pb_type(t: TypeName) -> PbDataType {
    PbDataType {
        type_tag: t,
        is_nullable: false,
        interval_type: IntervalType::Unspecified,
        field_type: vec![],
    }
}

#[test]
fn test_wire_round_trip_primitives() {
    for nullable in [false, true] {
        for kind in [
            DataTypeKind::Boolean,
            DataTypeKind::Int16,
            DataTypeKind::Int32,
            DataTypeKind::Int64,
            DataTypeKind::Float32,
            DataTypeKind::Float64,
            DataTypeKind::Decimal,
            DataTypeKind::Date,
            DataTypeKind::Varchar,
            DataTypeKind::Interval,
        ] {
            let t = DataType::new(kind, nullable);
            let parsed = DataType::from_protobuf(&t.to_protobuf());
            assert_eq!(parsed, DataType::new(kind, nullable));
            assert_eq!(parsed.data_type_kind(), kind);
            assert_eq!(parsed.is_nullable(), nullable);
        }
    }
}

#[test]
fn test_wire_round_trip_struct() {
    let inner = DataType::new_struct(
        vec![
            DataType::new(DataTypeKind::Varchar, true),
            DataType::new(DataTypeKind::Int32, false),
        ],
        false,
    );
    let t = DataType::new_struct(vec![inner, DataType::new(DataTypeKind::Int64, false)], true);
    let wire = t.to_protobuf();
    let parsed = DataType::from_protobuf(&wire);
    assert_eq!(parsed, t);
}

#[test]
fn test_parse_expected_kind() {
    let ok = DataTypeKind::Int16.try_from_protobuf(&pb_type(TypeName::Int16));
    assert_eq!(ok.unwrap().data_type_kind(), DataTypeKind::Int16);

    let err = DataTypeKind::Int16.try_from_protobuf(&pb_type(TypeName::Int64));
    assert_eq!(err, Err(RwError::TypeMismatch));
}

#[test]
fn test_data_sizes() {
    assert_eq!(
        DataType::new(DataTypeKind::Int16, false).data_size(),
        DataSize::Fixed(2)
    );
    assert_eq!(
        DataType::new(DataTypeKind::Int64, false).data_size(),
        DataSize::Fixed(8)
    );
    assert_eq!(
        DataType::new(DataTypeKind::Float32, false).data_size(),
        DataSize::Fixed(4)
    );
    assert_eq!(
        DataType::new(DataTypeKind::Varchar, false).data_size(),
        DataSize::Variable
    );
}

#[test]
fn test_value_encoding_round_trip() {
    let cases: Vec<(DataType, Option<ScalarImpl>)> = vec![
        (DataType::new(DataTypeKind::Boolean, false), Some(ScalarImpl::Bool(false))),
        (DataType::new(DataTypeKind::Int16, false), Some(ScalarImpl::Int16(-2))),
        (DataType::new(DataTypeKind::Int32, false), Some(ScalarImpl::Int32(-70000))),
        (DataType::new(DataTypeKind::Int64, false), Some(ScalarImpl::Int64(-5_000_000_000))),
        (DataType::new(DataTypeKind::Date, false), Some(ScalarImpl::Date(19000))),
        (
            DataType::new(DataTypeKind::Decimal, false),
            Some(ScalarImpl::Decimal(Decimal::new(-3141, 3))),
        ),
        (
            DataType::new(DataTypeKind::Interval, false),
            Some(ScalarImpl::Interval(Interval::from_month(-7))),
        ),
        (
            DataType::new(DataTypeKind::Varchar, false),
            Some(ScalarImpl::Utf8("héllo, wörld".into())),
        ),
        (DataType::new(DataTypeKind::Varchar, true), None),
    ];
    for (ty, datum) in cases {
        let bytes = serialize_datum(&datum);
        let decoded = deserialize_datum(bytes.as_slice(), &ty).unwrap();
        assert_eq!(decoded, datum);
    }
}

#[test]
fn test_value_encoding_struct_round_trip() {
    let ty = DataType::new_struct(
        vec![
            DataType::new(DataTypeKind::Varchar, true),
            DataType::new(DataTypeKind::Int32, false),
        ],
        false,
    );
    let datum = Some(ScalarImpl::Struct(StructValue::new(vec![
        None,
        Some(ScalarImpl::Int32(42)),
    ])));
    let bytes = serialize_datum(&datum);
    let decoded = deserialize_datum(bytes.as_slice(), &ty).unwrap();
    assert_eq!(decoded, datum);
}

#[test]
fn test_value_encoding_rejects_garbage() {
    let ty = DataType::new(DataTypeKind::Int32, false);
    // bad null flag
    assert_eq!(
        deserialize_datum(&[2, 0, 0, 0, 0], &ty),
        Err(ValueEncodingError::InvalidEncoding)
    );
    // truncated payload
    assert_eq!(
        deserialize_datum(&[1, 0], &ty),
        Err(ValueEncodingError::InvalidEncoding)
    );
    // trailing bytes
    assert_eq!(
        deserialize_datum(&[1, 0, 0, 0, 0, 0], &ty),
        Err(ValueEncodingError::InvalidEncoding)
    );
}

#[test]
fn test_component_aliases() {
    assert_eq!(
        Component::Compute.aliases(),
        vec!["compute-node", "compute_node"]
    );
    assert_eq!(Component::Meta.aliases(), vec!["meta-node", "meta_node"]);
    assert_eq!(
        Component::Frontend.aliases(),
        vec!["frontend-node", "frontend_node"]
    );
    assert_eq!(
        Component::Compactor.aliases(),
        vec!["compactor-node", "compactor_node"]
    );
    assert_eq!(Component::Ctl.aliases(), vec!["risectl"]);
    assert_eq!(Component::Playground.aliases(), vec!["play"]);
}

#[test]
fn test_stream_chunk_rows_honor_visibility() {
    let chunk = StreamChunk::new(
        vec![Op::Insert, Op::Delete, Op::UpdateInsert],
        vec![],
        Some(Bitmap::from_vec(vec![true, false, true])),
    );
    assert_eq!(chunk.len(), 3);
    assert_eq!(
        chunk.rows(),
        vec![
            (Op::Insert, true),
            (Op::Delete, false),
            (Op::UpdateInsert, true)
        ]
    );

    let unmasked = StreamChunk::new(vec![Op::Insert, Op::Delete], vec![], None);
    assert_eq!(unmasked.rows(), vec![(Op::Insert, true), (Op::Delete, true)]);
}
