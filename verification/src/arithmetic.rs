//! Elementwise arithmetic over single scalars, the combining rule of the
//! aggregate accumulators.
//!
//! `Null` is the operation's identity rather than being propagated: a `Null`
//! on either side returns the other operand unchanged. This lets an
//! accumulator bootstrap its running state from `Null`, and deviates from
//! SQL's null propagation on purpose.

use vstd::prelude::*;

use crate::error::ErrorCode;
use crate::types::{
    equal_coercion, in_type_range, is_integer_type, spec_coerce, type_max, type_min, DataType,
};
use crate::value::{int_of, make_int_value, value_type, DataValue};

verus! {

/// An elementwise arithmetic operator.
#[derive(Clone, Copy, Debug, PartialEq, Eq, Structural)]
pub enum DataValueArithmeticOperator {
    Plus,
    Minus,
    Mul,
    Div,
}

/// Quotient truncated toward zero, the machine division of signed integers.
pub open spec fn trunc_div(x: int, d: int) -> int {
    if x == 0 {
        0
    } else if x > 0 && d > 0 {
        x / d
    } else if x < 0 && d < 0 {
        (x * -1) / (d * -1)
    } else if x < 0 {
        ((x * -1) / d) * -1
    } else {
        (x / (d * -1)) * -1
    }
}

/// The exact integer an operation denotes, before any range check.
pub open spec fn arith_int(op: DataValueArithmeticOperator, x: int, y: int) -> int {
    match op {
        DataValueArithmeticOperator::Plus => x + y,
        DataValueArithmeticOperator::Minus => x - y,
        DataValueArithmeticOperator::Mul => x * y,
        DataValueArithmeticOperator::Div => trunc_div(x, y),
    }
}

/// What scalar arithmetic returns: the identity behaviour of `Null`, else
/// the operation over the coerced integer operands, whose exact result must
/// fit the common type (`CastOverflow` otherwise, division by zero
/// included); non-integer operands cannot be combined (`TypeMismatch`).
pub open spec fn spec_arith(
    op: DataValueArithmeticOperator,
    a: DataValue,
    b: DataValue,
) -> Result<DataValue, ErrorCode> {
    if a is Null {
        Ok(b)
    } else if b is Null {
        Ok(a)
    } else {
        match spec_coerce(value_type(a), value_type(b)) {
            Option::None => Err(ErrorCode::TypeMismatch),
            Option::Some(ct) => {
                if !is_integer_type(ct) {
                    Err(ErrorCode::TypeMismatch)
                } else if op == DataValueArithmeticOperator::Div && int_of(b) == 0 {
                    Err(ErrorCode::CastOverflow)
                } else {
                    let n = arith_int(op, int_of(a), int_of(b));
                    if in_type_range(ct, n) {
                        Ok(make_int_value(ct, n))
                    } else {
                        Err(ErrorCode::CastOverflow)
                    }
                }
            },
        }
    }
}

/// Integer column ranges all lie within the widest machine bounds.
proof fn lemma_integer_type_bounds(t: DataType)
    requires
        is_integer_type(t),
    ensures
        i64::MIN as int <= type_min(t),
        type_max(t) <= u64::MAX as int,
{
}

fn type_min_i128(t: &DataType) -> (r: i128)
    ensures
        r as int == type_min(*t),
{
    match t {
        DataType::Int8 => i8::MIN as i128,
        DataType::Int16 => i16::MIN as i128,
        DataType::Int32 => i32::MIN as i128,
        DataType::Int64 => i64::MIN as i128,
        _ => 0,
    }
}

fn type_max_i128(t: &DataType) -> (r: i128)
    ensures
        r as int == type_max(*t),
{
    match t {
        DataType::Int8 => i8::MAX as i128,
        DataType::Int16 => i16::MAX as i128,
        DataType::Int32 => i32::MAX as i128,
        DataType::Int64 => i64::MAX as i128,
        DataType::UInt8 => u8::MAX as i128,
        DataType::UInt16 => u16::MAX as i128,
        DataType::UInt32 => u32::MAX as i128,
        DataType::UInt64 => u64::MAX as i128,
        _ => 0,
    }
}

fn build_arith_value(t: &DataType, n: i128) -> (r: DataValue)
    requires
        is_integer_type(*t),
        in_type_range(*t, n as int),
    ensures
        r == make_int_value(*t, n as int),
{
    match t {
        DataType::Int8 => DataValue::Int8(n as i8),
        DataType::Int16 => DataValue::Int16(n as i16),
        DataType::Int32 => DataValue::Int32(n as i32),
        DataType::Int64 => DataValue::Int64(n as i64),
        DataType::UInt8 => DataValue::UInt8(n as u8),
        DataType::UInt16 => DataValue::UInt16(n as u16),
        DataType::UInt32 => DataValue::UInt32(n as u32),
        _ => DataValue::UInt64(n as u64),
    }
}

/// Combine two scalars, as `spec_arith` states.
pub fn data_value_arithmetic_op(
    op: DataValueArithmeticOperator,
    left: DataValue,
    right: DataValue,
) -> (r: Result<DataValue, ErrorCode>)
    ensures
        r == spec_arith(op, left, right),
{
    if matches!(left, DataValue::Null) {
        return Ok(right);
    }
    if matches!(right, DataValue::Null) {
        return Ok(left);
    }
    let at = left.data_type();
    let bt = right.data_type();
    let ct = match equal_coercion(&at, &bt) {
        Ok(t) => t,
        Err(_) => {
            return Err(ErrorCode::TypeMismatch);
        },
    };
    if !ct.is_integer() {
        return Err(ErrorCode::TypeMismatch);
    }
    proof {
        assert(is_integer_type(value_type(left)));
        assert(is_integer_type(value_type(right)));
        lemma_integer_type_bounds(value_type(left));
        lemma_integer_type_bounds(value_type(right));
        lemma_integer_type_bounds(ct);
    }
    let x = left.integer_value();
    let y = right.integer_value();
    let computed: Option<i128> = match op {
        DataValueArithmeticOperator::Plus => x.checked_add(y),
        DataValueArithmeticOperator::Minus => x.checked_sub(y),
        DataValueArithmeticOperator::Mul => x.checked_mul(y),
        DataValueArithmeticOperator::Div => x.checked_div(y),
    };
    match computed {
        Option::None => Err(ErrorCode::CastOverflow),
        Option::Some(n) => {
            if type_min_i128(&ct) <= n && n <= type_max_i128(&ct) {
                Ok(build_arith_value(&ct, n))
            } else {
                Err(ErrorCode::CastOverflow)
            }
        },
    }
}

} // verus!
