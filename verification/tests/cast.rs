use query_core::column::data_array_cast;
use query_core::error::ErrorCode;
use query_core::types::DataType;
use query_core::value::{cast_value, DataValue};

#[test]
fn widening_and_back_is_lossless() {
    let v = DataValue::Int8(-5);
    let wide = cast_value(&v, &DataType::Int64).unwrap();
    assert_eq!(wide, DataValue::Int64(-5));
    let back = cast_value(&wide, &DataType::Int8).unwrap();
    assert_eq!(back, v);
}

#[test]
fn unsigned_round_trip() {
    let v = DataValue::UInt8(200);
    let wide = cast_value(&v, &DataType::UInt64).unwrap();
    assert_eq!(wide, DataValue::UInt64(200));
    assert_eq!(cast_value(&wide, &DataType::UInt8), Ok(DataValue::UInt8(200)));
}

#[test]
fn narrowing_overflow_fails() {
    assert_eq!(
        cast_value(&DataValue::Int64(300), &DataType::Int8),
        Err(ErrorCode::CastOverflow)
    );
    assert_eq!(
        cast_value(&DataValue::Int32(-1), &DataType::UInt32),
        Err(ErrorCode::CastOverflow)
    );
}

#[test]
fn same_type_is_a_no_op_copy() {
    let v = DataValue::Utf8(String::from("x"));
    assert_eq!(cast_value(&v, &DataType::Utf8), Ok(v.clone()));
    assert_eq!(cast_value(&DataValue::Int32(7), &DataType::Int32), Ok(DataValue::Int32(7)));
}

#[test]
fn null_casts_to_null() {
    assert_eq!(cast_value(&DataValue::Null, &DataType::Int32), Ok(DataValue::Null));
}

#[test]
fn text_parses_into_numbers() {
    assert_eq!(
        cast_value(&DataValue::Utf8(String::from("123")), &DataType::UInt32),
        Ok(DataValue::UInt32(123))
    );
    assert_eq!(
        cast_value(&DataValue::Utf8(String::from("-7")), &DataType::Int16),
        Ok(DataValue::Int16(-7))
    );
}

#[test]
fn unparsable_text_fails() {
    assert_eq!(
        cast_value(&DataValue::Utf8(String::from("abc")), &DataType::Int32),
        Err(ErrorCode::CastParseError)
    );
    assert_eq!(
        cast_value(&DataValue::Utf8(String::from("")), &DataType::Int32),
        Err(ErrorCode::CastParseError)
    );
    assert_eq!(
        cast_value(&DataValue::Utf8(String::from("-")), &DataType::Int32),
        Err(ErrorCode::CastParseError)
    );
}

#[test]
fn out_of_range_text_overflows() {
    assert_eq!(
        cast_value(&DataValue::Utf8(String::from("99999999999999999999999")), &DataType::UInt64),
        Err(ErrorCode::CastOverflow)
    );
    assert_eq!(
        cast_value(&DataValue::Utf8(String::from("-1")), &DataType::UInt8),
        Err(ErrorCode::CastOverflow)
    );
    assert_eq!(
        cast_value(&DataValue::Utf8(String::from("256")), &DataType::UInt8),
        Err(ErrorCode::CastOverflow)
    );
}

#[test]
fn whole_arrays_cast_elementwise() {
    let vs = vec![DataValue::Int8(1), DataValue::Int8(-2)];
    assert_eq!(
        data_array_cast(&vs, &DataType::Int32),
        Ok(vec![DataValue::Int32(1), DataValue::Int32(-2)])
    );
    let empty: Vec<DataValue> = vec![];
    assert_eq!(data_array_cast(&empty, &DataType::Int32), Ok(vec![]));
}

#[test]
fn the_leftmost_failing_element_decides_the_error() {
    let vs = vec![
        DataValue::Utf8(String::from("abc")),
        DataValue::Utf8(String::from("99999999999999999999999")),
    ];
    assert_eq!(data_array_cast(&vs, &DataType::Int64), Err(ErrorCode::CastParseError));
    let vs2 = vec![
        DataValue::Utf8(String::from("99999999999999999999999")),
        DataValue::Utf8(String::from("abc")),
    ];
    assert_eq!(data_array_cast(&vs2, &DataType::Int64), Err(ErrorCode::CastOverflow));
}

#[test]
fn unsupported_combinations_mismatch() {
    assert_eq!(
        cast_value(&DataValue::Boolean(true), &DataType::Int8),
        Err(ErrorCode::TypeMismatch)
    );
    assert_eq!(
        cast_value(&DataValue::Int8(1), &DataType::Utf8),
        Err(ErrorCode::TypeMismatch)
    );
}
