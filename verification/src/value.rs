//! The scalar value model: a tagged union over exactly one primitive value,
//! with `Null` as a distinct absence marker, and the elementwise cast.

use vstd::prelude::*;

use crate::error::ErrorCode;
use crate::text::{
    dec_digits_signed, i128_to_text, parse_decimal, parse_decimal_text, ParseOutcome,
};
use crate::types::{in_type_range, is_integer_type, spec_coerce, type_max, type_min, DataType};

verus! {

/// A single scalar value of one column type.
#[derive(Debug, PartialEq)]
pub enum DataValue {
    Null,
    Boolean(bool),
    Int8(i8),
    Int16(i16),
    Int32(i32),
    Int64(i64),
    UInt8(u8),
    UInt16(u16),
    UInt32(u32),
    UInt64(u64),
    Utf8(String),
}

impl Clone for DataValue {
    /// A clone is the same scalar.
    fn clone(&self) -> (r: DataValue)
        ensures
            r == *self,
    {
        match self {
            DataValue::Null => DataValue::Null,
            DataValue::Boolean(x) => DataValue::Boolean(*x),
            DataValue::Int8(x) => DataValue::Int8(*x),
            DataValue::Int16(x) => DataValue::Int16(*x),
            DataValue::Int32(x) => DataValue::Int32(*x),
            DataValue::Int64(x) => DataValue::Int64(*x),
            DataValue::UInt8(x) => DataValue::UInt8(*x),
            DataValue::UInt16(x) => DataValue::UInt16(*x),
            DataValue::UInt32(x) => DataValue::UInt32(*x),
            DataValue::UInt64(x) => DataValue::UInt64(*x),
            DataValue::Utf8(s) => DataValue::Utf8(s.clone()),
        }
    }
}

/// The logical type of a scalar.
pub open spec fn value_type(v: DataValue) -> DataType {
    match v {
        DataValue::Null => DataType::Null,
        DataValue::Boolean(_) => DataType::Boolean,
        DataValue::Int8(_) => DataType::Int8,
        DataValue::Int16(_) => DataType::Int16,
        DataValue::Int32(_) => DataType::Int32,
        DataValue::Int64(_) => DataType::Int64,
        DataValue::UInt8(_) => DataType::UInt8,
        DataValue::UInt16(_) => DataType::UInt16,
        DataValue::UInt32(_) => DataType::UInt32,
        DataValue::UInt64(_) => DataType::UInt64,
        DataValue::Utf8(_) => DataType::Utf8,
    }
}

/// The mathematical value of an integer scalar (0 for the others).
pub open spec fn int_of(v: DataValue) -> int {
    match v {
        DataValue::Int8(x) => x as int,
        DataValue::Int16(x) => x as int,
        DataValue::Int32(x) => x as int,
        DataValue::Int64(x) => x as int,
        DataValue::UInt8(x) => x as int,
        DataValue::UInt16(x) => x as int,
        DataValue::UInt32(x) => x as int,
        DataValue::UInt64(x) => x as int,
        _ => 0,
    }
}

/// The integer scalar of type `t` holding `n`. Meaningful when `t` is an
/// integer type and `n` lies in its range.
pub open spec fn make_int_value(t: DataType, n: int) -> DataValue {
    match t {
        DataType::Int8 => DataValue::Int8(n as i8),
        DataType::Int16 => DataValue::Int16(n as i16),
        DataType::Int32 => DataValue::Int32(n as i32),
        DataType::Int64 => DataValue::Int64(n as i64),
        DataType::UInt8 => DataValue::UInt8(n as u8),
        DataType::UInt16 => DataValue::UInt16(n as u16),
        DataType::UInt32 => DataValue::UInt32(n as u32),
        DataType::UInt64 => DataValue::UInt64(n as u64),
        _ => DataValue::Null,
    }
}

/// Structural equality of scalars, with texts compared by their characters.
pub open spec fn val_eq(a: DataValue, b: DataValue) -> bool {
    match (a, b) {
        (DataValue::Null, DataValue::Null) => true,
        (DataValue::Boolean(x), DataValue::Boolean(y)) => x == y,
        (DataValue::Utf8(x), DataValue::Utf8(y)) => x@ == y@,
        _ => value_type(a) == value_type(b) && is_integer_type(value_type(a)) && int_of(a)
            == int_of(b),
    }
}

/// An integer scalar's value lies in its own type's range.
pub proof fn lemma_value_in_own_range(v: DataValue)
    requires
        is_integer_type(value_type(v)),
    ensures
        in_type_range(value_type(v), int_of(v)),
{
}

/// Building an integer scalar and reading it back are inverses.
pub proof fn lemma_make_int_value(t: DataType, n: int)
    requires
        is_integer_type(t),
        in_type_range(t, n),
    ensures
        value_type(make_int_value(t, n)) == t,
        int_of(make_int_value(t, n)) == n,
{
}

/// An integer scalar is determined by its type and its value.
pub proof fn lemma_int_value_extensional(v: DataValue)
    requires
        is_integer_type(value_type(v)),
    ensures
        make_int_value(value_type(v), int_of(v)) == v,
{
}

/// The elementwise cast: same type is a no-op copy, `Null` stays `Null`,
/// integers convert when the value fits the target range (`CastOverflow`
/// otherwise), text parses into integer targets (`CastParseError` when it is
/// no number), and every other combination is a `TypeMismatch`.
pub open spec fn spec_cast_value(v: DataValue, t: DataType) -> Result<DataValue, ErrorCode> {
    if value_type(v) == t {
        Ok(v)
    } else if v is Null {
        Ok(DataValue::Null)
    } else if is_integer_type(value_type(v)) && is_integer_type(t) {
        if in_type_range(t, int_of(v)) {
            Ok(make_int_value(t, int_of(v)))
        } else {
            Err(ErrorCode::CastOverflow)
        }
    } else {
        match v {
            DataValue::Utf8(s) => {
                if is_integer_type(t) {
                    match parse_decimal(s@) {
                        Option::None => Err(ErrorCode::CastParseError),
                        Option::Some(n) => if in_type_range(t, n) {
                            Ok(make_int_value(t, n))
                        } else {
                            Err(ErrorCode::CastOverflow)
                        },
                    }
                } else {
                    Err(ErrorCode::TypeMismatch)
                }
            },
            _ => Err(ErrorCode::TypeMismatch),
        }
    }
}

/// A value that its source type holds always fits a type the source coerces
/// to, so the casts a comparison performs after coercion cannot fail.
pub proof fn lemma_cast_after_coercion(v: DataValue, other: DataType, ct: DataType)
    requires
        spec_coerce(value_type(v), other) == Some(ct),
    ensures
        spec_cast_value(v, ct) is Ok,
{
}

/// Casting to a type whose range covers the source type, then back, returns
/// the original integer scalar: widening is lossless.
pub proof fn lemma_cast_round_trip(v: DataValue, wide: DataType)
    requires
        is_integer_type(value_type(v)),
        is_integer_type(wide),
        type_min(wide) <= type_min(value_type(v)),
        type_max(value_type(v)) <= type_max(wide),
    ensures
        spec_cast_value(v, wide) is Ok,
        spec_cast_value(spec_cast_value(v, wide)->Ok_0, value_type(v)) == Ok::<
            DataValue,
            ErrorCode,
        >(v),
{
    let t = value_type(v);
    lemma_value_in_own_range(v);
    if t == wide {
    } else {
        let w = make_int_value(wide, int_of(v));
        lemma_make_int_value(wide, int_of(v));
        if value_type(w) == t {
            lemma_int_value_extensional(v);
        } else {
            lemma_make_int_value(t, int_of(w));
            lemma_int_value_extensional(v);
        }
    }
}

impl DataValue {
    /// The logical type of this scalar.
    pub fn data_type(&self) -> (r: DataType)
        ensures
            r == value_type(*self),
    {
        match self {
            DataValue::Null => DataType::Null,
            DataValue::Boolean(_) => DataType::Boolean,
            DataValue::Int8(_) => DataType::Int8,
            DataValue::Int16(_) => DataType::Int16,
            DataValue::Int32(_) => DataType::Int32,
            DataValue::Int64(_) => DataType::Int64,
            DataValue::UInt8(_) => DataType::UInt8,
            DataValue::UInt16(_) => DataType::UInt16,
            DataValue::UInt32(_) => DataType::UInt32,
            DataValue::UInt64(_) => DataType::UInt64,
            DataValue::Utf8(_) => DataType::Utf8,
        }
    }

    /// The value of an integer scalar, wide enough for every column type.
    pub fn integer_value(&self) -> (r: i128)
        requires
            is_integer_type(value_type(*self)),
        ensures
            r as int == int_of(*self),
    {
        match self {
            DataValue::Int8(x) => *x as i128,
            DataValue::Int16(x) => *x as i128,
            DataValue::Int32(x) => *x as i128,
            DataValue::Int64(x) => *x as i128,
            DataValue::UInt8(x) => *x as i128,
            DataValue::UInt16(x) => *x as i128,
            DataValue::UInt32(x) => *x as i128,
            DataValue::UInt64(x) => *x as i128,
            _ => 0,
        }
    }

    /// The canonical text of a scalar: `NULL`, `true`/`false`, the decimal
    /// digits of a number, or a text's own characters.
    pub open spec fn render(self) -> Seq<char> {
        match self {
            DataValue::Null => seq!['N', 'U', 'L', 'L'],
            DataValue::Boolean(b) => if b {
                seq!['t', 'r', 'u', 'e']
            } else {
                seq!['f', 'a', 'l', 's', 'e']
            },
            DataValue::Utf8(s) => s@,
            _ => dec_digits_signed(int_of(self)),
        }
    }

    /// Render this scalar as its canonical text.
    pub fn to_text(&self) -> (r: String)
        ensures
            r@ == self.render(),
    {
        match self {
            DataValue::Null => {
                let r = String::from_str("NULL");
                proof {
                    reveal_strlit("NULL");
                    assert(r@ =~= self.render());
                }
                r
            },
            DataValue::Boolean(b) => {
                let r = if *b {
                    String::from_str("true")
                } else {
                    String::from_str("false")
                };
                proof {
                    reveal_strlit("true");
                    reveal_strlit("false");
                    assert(r@ =~= self.render());
                }
                r
            },
            DataValue::Utf8(s) => s.clone(),
            _ => i128_to_text(self.integer_value()),
        }
    }
}

fn type_min_value(t: &DataType) -> (r: i128)
    ensures
        r as int == type_min(*t),
{
    match t {
        DataType::Int8 => i8::MIN as i128,
        DataType::Int16 => i16::MIN as i128,
        DataType::Int32 => i32::MIN as i128,
        DataType::Int64 => i64::MIN as i128,
        _ => 0,
    }
}

fn type_max_value(t: &DataType) -> (r: i128)
    ensures
        r as int == type_max(*t),
{
    match t {
        DataType::Int8 => i8::MAX as i128,
        DataType::Int16 => i16::MAX as i128,
        DataType::Int32 => i32::MAX as i128,
        DataType::Int64 => i64::MAX as i128,
        DataType::UInt8 => u8::MAX as i128,
        DataType::UInt16 => u16::MAX as i128,
        DataType::UInt32 => u32::MAX as i128,
        DataType::UInt64 => u64::MAX as i128,
        _ => 0,
    }
}

fn build_int_value(t: &DataType, n: i128) -> (r: DataValue)
    requires
        is_integer_type(*t),
        in_type_range(*t, n as int),
    ensures
        r == make_int_value(*t, n as int),
{
    match t {
        DataType::Int8 => DataValue::Int8(n as i8),
        DataType::Int16 => DataValue::Int16(n as i16),
        DataType::Int32 => DataValue::Int32(n as i32),
        DataType::Int64 => DataValue::Int64(n as i64),
        DataType::UInt8 => DataValue::UInt8(n as u8),
        DataType::UInt16 => DataValue::UInt16(n as u16),
        DataType::UInt32 => DataValue::UInt32(n as u32),
        _ => DataValue::UInt64(n as u64),
    }
}

/// Cast one scalar to the target type, as `spec_cast_value` states.
pub fn cast_value(v: &DataValue, t: &DataType) -> (r: Result<DataValue, ErrorCode>)
    ensures
        r == spec_cast_value(*v, *t),
{
    let vt = v.data_type();
    if vt == *t {
        return Ok(v.clone());
    }
    if matches!(v, DataValue::Null) {
        return Ok(DataValue::Null);
    }
    if vt.is_integer() && t.is_integer() {
        let n = v.integer_value();
        if type_min_value(t) <= n && n <= type_max_value(t) {
            return Ok(build_int_value(t, n));
        }
        return Err(ErrorCode::CastOverflow);
    }
    if let DataValue::Utf8(s) = v {
        if t.is_integer() {
            return match parse_decimal_text(s.as_str()) {
                ParseOutcome::NotANumber => Err(ErrorCode::CastParseError),
                ParseOutcome::TooBig => Err(ErrorCode::CastOverflow),
                ParseOutcome::Value(n) => {
                    if type_min_value(t) <= n && n <= type_max_value(t) {
                        Ok(build_int_value(t, n))
                    } else {
                        Err(ErrorCode::CastOverflow)
                    }
                },
            };
        }
    }
    Err(ErrorCode::TypeMismatch)
}

} // verus!
