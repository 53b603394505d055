use query_core::error::ErrorCode;
use query_core::types::{equal_coercion, DataType};

fn all_types() -> Vec<DataType> {
    vec![
        DataType::Null,
        DataType::Boolean,
        DataType::Int8,
        DataType::Int16,
        DataType::Int32,
        DataType::Int64,
        DataType::UInt8,
        DataType::UInt16,
        DataType::UInt32,
        DataType::UInt64,
        DataType::Utf8,
    ]
}

#[test]
fn coercion_is_symmetric_over_all_pairs() {
    let types = all_types();
    for a in &types {
        for b in &types {
            assert_eq!(equal_coercion(a, b), equal_coercion(b, a));
        }
    }
}

#[test]
fn equal_types_coerce_to_themselves() {
    for t in &all_types() {
        assert_eq!(equal_coercion(t, t), Ok(*t));
    }
}

#[test]
fn null_coerces_to_the_other_type() {
    assert_eq!(equal_coercion(&DataType::Null, &DataType::Int32), Ok(DataType::Int32));
    assert_eq!(equal_coercion(&DataType::Utf8, &DataType::Null), Ok(DataType::Utf8));
}

#[test]
fn same_signedness_widens() {
    assert_eq!(equal_coercion(&DataType::Int8, &DataType::Int64), Ok(DataType::Int64));
    assert_eq!(equal_coercion(&DataType::UInt8, &DataType::UInt32), Ok(DataType::UInt32));
    assert_eq!(equal_coercion(&DataType::Int16, &DataType::Int32), Ok(DataType::Int32));
}

#[test]
fn mixed_signedness_needs_twice_the_unsigned_width() {
    assert_eq!(equal_coercion(&DataType::Int8, &DataType::UInt8), Ok(DataType::Int16));
    assert_eq!(equal_coercion(&DataType::UInt32, &DataType::Int8), Ok(DataType::Int64));
    assert_eq!(equal_coercion(&DataType::Int64, &DataType::UInt16), Ok(DataType::Int64));
}

#[test]
fn uint64_with_signed_fails() {
    assert_eq!(
        equal_coercion(&DataType::UInt64, &DataType::Int8),
        Err(ErrorCode::TypeMismatch)
    );
    assert_eq!(
        equal_coercion(&DataType::Int64, &DataType::UInt64),
        Err(ErrorCode::TypeMismatch)
    );
}

#[test]
fn text_never_coerces_with_numbers() {
    assert_eq!(
        equal_coercion(&DataType::Utf8, &DataType::Int32),
        Err(ErrorCode::TypeMismatch)
    );
    assert_eq!(
        equal_coercion(&DataType::Boolean, &DataType::Int8),
        Err(ErrorCode::TypeMismatch)
    );
    assert_eq!(
        equal_coercion(&DataType::Utf8, &DataType::Boolean),
        Err(ErrorCode::TypeMismatch)
    );
}
