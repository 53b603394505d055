use query_core::arithmetic::{data_value_arithmetic_op, DataValueArithmeticOperator};
use query_core::error::ErrorCode;
use query_core::value::DataValue;

#[test]
fn null_is_the_identity_on_either_side() {
    assert_eq!(
        data_value_arithmetic_op(
            DataValueArithmeticOperator::Plus,
            DataValue::Null,
            DataValue::UInt64(5)
        ),
        Ok(DataValue::UInt64(5))
    );
    assert_eq!(
        data_value_arithmetic_op(
            DataValueArithmeticOperator::Plus,
            DataValue::UInt64(5),
            DataValue::Null
        ),
        Ok(DataValue::UInt64(5))
    );
    assert_eq!(
        data_value_arithmetic_op(DataValueArithmeticOperator::Div, DataValue::Null, DataValue::Null),
        Ok(DataValue::Null)
    );
}

#[test]
fn addition_over_a_common_type() {
    assert_eq!(
        data_value_arithmetic_op(
            DataValueArithmeticOperator::Plus,
            DataValue::UInt64(3),
            DataValue::UInt64(4)
        ),
        Ok(DataValue::UInt64(7))
    );
    assert_eq!(
        data_value_arithmetic_op(
            DataValueArithmeticOperator::Plus,
            DataValue::Int8(-1),
            DataValue::UInt8(1)
        ),
        Ok(DataValue::Int16(0))
    );
}

#[test]
fn subtraction_and_multiplication() {
    assert_eq!(
        data_value_arithmetic_op(
            DataValueArithmeticOperator::Minus,
            DataValue::Int32(3),
            DataValue::Int32(10)
        ),
        Ok(DataValue::Int32(-7))
    );
    assert_eq!(
        data_value_arithmetic_op(
            DataValueArithmeticOperator::Mul,
            DataValue::Int16(12),
            DataValue::Int16(12)
        ),
        Ok(DataValue::Int16(144))
    );
}

#[test]
fn division_truncates_toward_zero() {
    assert_eq!(
        data_value_arithmetic_op(
            DataValueArithmeticOperator::Div,
            DataValue::Int32(-7),
            DataValue::Int32(2)
        ),
        Ok(DataValue::Int32(-3))
    );
    assert_eq!(
        data_value_arithmetic_op(
            DataValueArithmeticOperator::Div,
            DataValue::Int32(7),
            DataValue::Int32(2)
        ),
        Ok(DataValue::Int32(3))
    );
}

#[test]
fn division_by_zero_fails() {
    assert_eq!(
        data_value_arithmetic_op(
            DataValueArithmeticOperator::Div,
            DataValue::Int32(7),
            DataValue::Int32(0)
        ),
        Err(ErrorCode::CastOverflow)
    );
}

#[test]
fn results_must_fit_the_common_type() {
    assert_eq!(
        data_value_arithmetic_op(
            DataValueArithmeticOperator::Plus,
            DataValue::UInt8(200),
            DataValue::UInt8(100)
        ),
        Err(ErrorCode::CastOverflow)
    );
}

#[test]
fn text_operands_cannot_be_combined() {
    assert_eq!(
        data_value_arithmetic_op(
            DataValueArithmeticOperator::Plus,
            DataValue::Utf8(String::from("a")),
            DataValue::Utf8(String::from("b"))
        ),
        Err(ErrorCode::TypeMismatch)
    );
    assert_eq!(
        data_value_arithmetic_op(
            DataValueArithmeticOperator::Plus,
            DataValue::Boolean(true),
            DataValue::Int8(1)
        ),
        Err(ErrorCode::TypeMismatch)
    );
}
