use duckdbconn::connection::DuckDbConnection;
use duckdbconn::error::ConnectionError;
use duckdbconn::policy::UnsupportedTypeAction;
use duckdbconn::reconcile::{DuckDbTypes, TypeMapper};
use duckdbconn::schema::{DataType, Field, IntervalUnit, Schema, TimeUnit, UnionMode};
use std::sync::Arc;

fn schema_of(fields: Vec<Field>) -> Arc<Schema> {
    Arc::new(Schema::new(fields.into_iter().map(Arc::new).collect()))
}

fn list_of_struct() -> DataType {
    DataType::List(Arc::new(Field::new(
        "struct",
        DataType::Struct(Arc::new(vec![Arc::new(Field::new("field", DataType::Int64, false))])),
        false,
    )))
}

#[test]
fn test_field_is_unsupported() {
    // A list with a struct is not supported
    let field = Field::new("list_struct", list_of_struct(), false);

    assert!(
        !DuckDbConnection::is_data_type_supported(field.data_type()),
        "list with struct should be unsupported"
    );
}

#[test]
fn test_fields_are_supported() {
    // test that the usual field types are supported, string, numbers, etc
    let fields = vec![
        Field::new("string", DataType::Utf8, false),
        Field::new("int", DataType::Int64, false),
        Field::new("float", DataType::Float64, false),
        Field::new("bool", DataType::Boolean, false),
        Field::new("binary", DataType::Binary, false),
    ];

    for field in fields {
        assert!(
            DuckDbConnection::is_data_type_supported(field.data_type()),
            "field should be supported"
        );
    }
}

#[test]
fn test_schema_rebuild_with_supported_fields() {
    let fields = vec![
        Field::new("string", DataType::Utf8, false),
        Field::new("int", DataType::Int64, false),
        Field::new("float", DataType::Float64, false),
        Field::new("bool", DataType::Boolean, false),
        Field::new("binary", DataType::Binary, false),
    ];

    let schema = schema_of(fields);

    let rebuilt_schema =
        DuckDbConnection::handle_unsupported_schema(&schema, UnsupportedTypeAction::Error)
            .expect("should rebuild schema successfully");

    assert_eq!(schema, rebuilt_schema);
}

#[test]
fn test_schema_rebuild_with_unsupported_fields() {
    let fields = vec![
        Field::new("string", DataType::Utf8, false),
        Field::new("int", DataType::Int64, false),
        Field::new("float", DataType::Float64, false),
        Field::new("bool", DataType::Boolean, false),
        Field::new("binary", DataType::Binary, false),
        Field::new("list_struct", list_of_struct(), false),
        Field::new("another_bool", DataType::Boolean, false),
        Field::new("another_list_struct", list_of_struct(), false),
        Field::new("another_float", DataType::Float32, false),
    ];

    let rebuilt_fields = vec![
        Field::new("string", DataType::Utf8, false),
        Field::new("int", DataType::Int64, false),
        Field::new("float", DataType::Float64, false),
        Field::new("bool", DataType::Boolean, false),
        Field::new("binary", DataType::Binary, false),
        // this also tests that ordering is preserved when rebuilding the schema with removed fields
        Field::new("another_bool", DataType::Boolean, false),
        Field::new("another_float", DataType::Float32, false),
    ];

    let schema = schema_of(fields);
    let expected_rebuilt_schema = schema_of(rebuilt_fields);

    assert!(
        DuckDbConnection::handle_unsupported_schema(&schema, UnsupportedTypeAction::Error)
            .is_err()
    );

    let rebuilt_schema =
        DuckDbConnection::handle_unsupported_schema(&schema, UnsupportedTypeAction::Warn)
            .expect("should rebuild schema successfully");

    assert_eq!(rebuilt_schema, expected_rebuilt_schema);

    let rebuilt_schema =
        DuckDbConnection::handle_unsupported_schema(&schema, UnsupportedTypeAction::Ignore)
            .expect("should rebuild schema successfully");

    assert_eq!(rebuilt_schema, expected_rebuilt_schema);
}

#[test]
fn supported_schema_is_unchanged_under_every_policy() {
    let schema = schema_of(vec![
        Field::new("a", DataType::Utf8, true),
        Field::new("l", DataType::List(Arc::new(Field::new("item", DataType::Int32, true))), false),
        Field::new("t", DataType::Timestamp(TimeUnit::Millisecond, Some("UTC".to_string())), false),
    ]);
    for action in
        [UnsupportedTypeAction::Error, UnsupportedTypeAction::Warn, UnsupportedTypeAction::Ignore]
    {
        let rebuilt = DuckDbConnection::handle_unsupported_schema(&schema, action)
            .expect("a supported schema is returned");
        assert_eq!(rebuilt, schema);
    }
}

#[test]
fn ordering_of_survivors_is_kept() {
    let schema = schema_of(vec![
        Field::new("a", DataType::Utf8, false),
        Field::new("b", DataType::Int32, false),
        Field::new("c", list_of_struct(), false),
        Field::new("d", DataType::Boolean, false),
        Field::new("e", list_of_struct(), false),
        Field::new("f", DataType::Float32, false),
    ]);
    for action in [UnsupportedTypeAction::Warn, UnsupportedTypeAction::Ignore] {
        let rebuilt = DuckDbConnection::handle_unsupported_schema(&schema, action).unwrap();
        let names: Vec<&str> = rebuilt.fields().iter().map(|f| f.name().as_str()).collect();
        assert_eq!(names, vec!["a", "b", "d", "f"]);
    }
    let dropped = DuckDbConnection::unsupported_fields(&schema);
    let names: Vec<&str> = dropped.iter().map(|f| f.name().as_str()).collect();
    assert_eq!(names, vec!["c", "e"]);
}

#[test]
fn failing_policy_names_the_first_offending_field() {
    let schema = schema_of(vec![
        Field::new("a", DataType::Utf8, false),
        Field::new("c", list_of_struct(), false),
        Field::new("e", DataType::Float16, false),
    ]);
    let error = DuckDbConnection::handle_unsupported_schema(&schema, UnsupportedTypeAction::Error)
        .expect_err("the schema holds unsupported fields");
    assert_eq!(
        error,
        ConnectionError::UnsupportedDataType {
            data_type: list_of_struct(),
            field_name: "c".to_string(),
        }
    );
    assert_eq!(
        DuckDbConnection::unsupported_type_error(&DataType::Float16, "e"),
        ConnectionError::UnsupportedDataType {
            data_type: DataType::Float16,
            field_name: "e".to_string(),
        }
    );
}

#[test]
fn empty_schema_reconciles_to_itself() {
    let schema = Arc::new(Schema::empty());
    let rebuilt =
        DuckDbConnection::handle_unsupported_schema(&schema, UnsupportedTypeAction::Error).unwrap();
    assert_eq!(rebuilt.len(), 0);
    assert!(DuckDbConnection::unsupported_fields(&schema).is_empty());
}

#[test]
fn list_elements_that_are_supported() {
    let list = |element: DataType| DataType::List(Arc::new(Field::new("item", element, true)));
    for element in [
        DataType::Int8,
        DataType::UInt64,
        DataType::Float16,
        DataType::Decimal128(10, 2),
        DataType::Date32,
        DataType::Time64(TimeUnit::Nanosecond),
        DataType::Duration(TimeUnit::Second),
        DataType::Interval(IntervalUnit::DayTime),
        DataType::Timestamp(TimeUnit::Second, None),
        DataType::Utf8,
        DataType::Binary,
        DataType::Utf8View,
        DataType::BinaryView,
        DataType::Boolean,
    ] {
        assert!(DuckDbConnection::is_data_type_supported(&list(element)));
    }
    for element in [
        DataType::LargeUtf8,
        DataType::LargeBinary,
        DataType::Null,
        DataType::FixedSizeBinary(4),
        list(DataType::Int32),
        DataType::Struct(Arc::new(vec![])),
    ] {
        assert!(!DuckDbConnection::is_data_type_supported(&list(element)));
    }
    let item = Arc::new(Field::new("item", DataType::LargeUtf8, true));
    assert!(!DuckDbConnection::is_data_type_supported(&DataType::FixedSizeList(item.clone(), 3)));
    assert!(!DuckDbConnection::is_data_type_supported(&DataType::LargeList(item.clone())));
    assert!(DuckDbConnection::is_data_type_supported(&DataType::ListView(item)));
}

#[test]
fn struct_is_supported_iff_every_member_is() {
    let member = |name: &str, data_type: DataType| Arc::new(Field::new(name, data_type, true));
    let good = DataType::Struct(Arc::new(vec![
        member("a", DataType::Int32),
        member("b", DataType::Struct(Arc::new(vec![member("c", DataType::Utf8)]))),
    ]));
    assert!(DuckDbConnection::is_data_type_supported(&good));
    let bad = DataType::Struct(Arc::new(vec![
        member("a", DataType::Int32),
        member("b", DataType::Struct(Arc::new(vec![member("c", list_of_struct())]))),
    ]));
    assert!(!DuckDbConnection::is_data_type_supported(&bad));
    assert!(DuckDbConnection::is_data_type_supported(&DataType::Struct(Arc::new(vec![]))));
}

#[test]
fn engine_has_no_type_for_some_shapes() {
    let item = Arc::new(Field::new("item", DataType::Int32, true));
    let rejected = vec![
        DataType::Null,
        DataType::Float16,
        DataType::ListView(item.clone()),
        DataType::LargeListView(item.clone()),
        DataType::Dictionary(Arc::new(DataType::Int32), Arc::new(DataType::Utf8)),
        DataType::RunEndEncoded(item.clone(), item.clone()),
    ];
    for data_type in rejected {
        assert!(!data_type.has_engine_type());
        assert!(DuckDbConnection::is_data_type_supported(&data_type));
        let field = Arc::new(Field::new("x", data_type, true));
        assert!(!DuckDbConnection::is_field_supported(&field));
    }
    let accepted = vec![
        DataType::Boolean,
        DataType::Decimal256(40, 3),
        DataType::MapOf(item.clone(), false),
        DataType::Union(Arc::new(vec![(0, item.clone())]), UnionMode::Dense),
        DataType::List(item.clone()),
    ];
    for data_type in accepted {
        let field = Arc::new(Field::new("x", data_type, true));
        assert!(DuckDbConnection::is_field_supported(&field));
    }
    let unsupported_list = Arc::new(Field::new("x", list_of_struct(), true));
    assert!(unsupported_list.data_type().has_engine_type());
    assert!(!DuckDbConnection::is_field_supported(&unsupported_list));
}

#[test]
fn primitive_types_are_numeric_or_temporal() {
    assert!(DataType::Int16.is_numeric() && DataType::Int16.is_primitive());
    assert!(DataType::Decimal32(5, 1).is_numeric());
    assert!(DataType::Date64.is_temporal() && DataType::Date64.is_primitive());
    assert!(!DataType::Utf8.is_primitive());
    assert!(!DataType::Boolean.is_primitive());
    assert!(!DataType::Null.is_primitive());
}

#[test]
fn copies_of_types_and_fields_are_equal() {
    let field = Field::new("l", list_of_struct(), true);
    let copy = field.clone();
    assert_eq!(copy, field);
    assert_eq!(copy.name(), "l");
    assert!(copy.is_nullable());
    let zone = DataType::Timestamp(TimeUnit::Microsecond, Some("Europe/Paris".to_string()));
    assert_eq!(zone.clone(), zone);
}

#[test]
fn policy_defaults_to_rejecting() {
    assert_eq!(UnsupportedTypeAction::default(), UnsupportedTypeAction::Error);
    assert!(!UnsupportedTypeAction::Error.drops_fields());
    assert!(UnsupportedTypeAction::Warn.drops_fields());
    assert!(UnsupportedTypeAction::Ignore.drops_fields());
}

/// A mapper for an engine that has text columns only.
struct TextOnly;

impl TypeMapper for TextOnly {
    fn accepts(&self, data_type: DataType) -> bool {
        self.has_type(&data_type)
    }

    fn has_type(&self, data_type: &DataType) -> bool {
        matches!(data_type, DataType::Utf8)
    }
}

#[test]
fn the_engines_side_can_be_plugged_in() {
    let schema = schema_of(vec![
        Field::new("a", DataType::Int32, false),
        Field::new("b", DataType::Utf8, false),
        Field::new("c", list_of_struct(), false),
        Field::new("d", DataType::Utf8, false),
    ]);
    let kept = DuckDbConnection::reconcile_with(&TextOnly, &schema, UnsupportedTypeAction::Ignore)
        .expect("fields are dropped");
    let names: Vec<&str> = kept.fields().iter().map(|f| f.name().as_str()).collect();
    assert_eq!(names, vec!["b", "d"]);
    let error = DuckDbConnection::reconcile_with(&TextOnly, &schema, UnsupportedTypeAction::Error)
        .expect_err("the first field is rejected");
    assert_eq!(
        error,
        ConnectionError::UnsupportedDataType {
            data_type: DataType::Int32,
            field_name: "a".to_string(),
        }
    );
    let dropped = DuckDbConnection::unsupported_fields_by(&TextOnly, &schema);
    assert_eq!(dropped.len(), 2);
    assert!(!DuckDbConnection::is_field_supported_by(&TextOnly, &schema.fields()[0]));
    assert!(DuckDbConnection::is_field_supported_by(&DuckDbTypes, &schema.fields()[0]));
    assert!(DuckDbTypes.has_type(&DataType::Int32));
    assert!(!DuckDbTypes.has_type(&DataType::Float16));
}

#[test]
fn first_unsupported_field_is_found_by_position() {
    let schema = schema_of(vec![
        Field::new("x", DataType::Utf8, false),
        Field::new("x", list_of_struct(), false),
        Field::new("y", DataType::Float16, false),
    ]);
    assert_eq!(DuckDbConnection::first_unsupported_by(&DuckDbTypes, &schema), Some(1));
    assert_eq!(DuckDbConnection::first_unsupported_by(&TextOnly, &schema), Some(1));
    let supported = schema_of(vec![Field::new("x", DataType::Utf8, false)]);
    assert_eq!(DuckDbConnection::first_unsupported_by(&DuckDbTypes, &supported), None);
    assert_eq!(
        DuckDbConnection::first_unsupported_by(&DuckDbTypes, &Arc::new(Schema::empty())),
        None
    );
}
