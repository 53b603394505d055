use query_core::error::ErrorCode;
use query_core::schema::{DataField, DataSchema};
use query_core::types::DataType;

#[test]
fn lookup_finds_the_first_field_of_the_name() {
    let schema = DataSchema::new(vec![
        DataField::new("a", DataType::Int32, false),
        DataField::new("b", DataType::Utf8, true),
    ]);
    let f = schema.field_with_name("b").unwrap();
    assert_eq!(f.data_type, DataType::Utf8);
    assert!(f.nullable);
}

#[test]
fn absent_names_are_an_error_never_a_default() {
    let schema = DataSchema::new(vec![DataField::new("a", DataType::Int32, false)]);
    assert!(matches!(
        schema.field_with_name("missing"),
        Err(ErrorCode::UnknownColumn)
    ));
}

#[test]
fn an_empty_schema_has_no_fields() {
    let schema = DataSchema::new(vec![]);
    assert!(schema.field_with_name("a").is_err());
}
