//! The logical column types and the coercion lattice.
//!
//! Two types are coerced to the narrowest type that represents both without
//! precision loss: equal types stay as they are, integer widths widen, and a
//! signed/unsigned pair widens to a signed type wide enough for both ranges.
//! The scalar model is integer, boolean and text; a pair whose common range
//! fits no signed 64-bit type fails to coerce, as does any mix of a textual
//! type with a non-textual one.

use vstd::prelude::*;

use crate::error::ErrorCode;

verus! {

/// A primitive logical column type.
#[derive(Clone, Copy, Debug, PartialEq, Eq, Structural)]
pub enum DataType {
    Null,
    Boolean,
    Int8,
    Int16,
    Int32,
    Int64,
    UInt8,
    UInt16,
    UInt32,
    UInt64,
    Utf8,
}

pub open spec fn is_signed_type(t: DataType) -> bool {
    t == DataType::Int8 || t == DataType::Int16 || t == DataType::Int32 || t == DataType::Int64
}

pub open spec fn is_unsigned_type(t: DataType) -> bool {
    t == DataType::UInt8 || t == DataType::UInt16 || t == DataType::UInt32
        || t == DataType::UInt64
}

pub open spec fn is_integer_type(t: DataType) -> bool {
    is_signed_type(t) || is_unsigned_type(t)
}

/// Width in bits of an integer type (0 for the others).
pub open spec fn integer_width(t: DataType) -> nat {
    match t {
        DataType::Int8 => 8,
        DataType::Int16 => 16,
        DataType::Int32 => 32,
        DataType::Int64 => 64,
        DataType::UInt8 => 8,
        DataType::UInt16 => 16,
        DataType::UInt32 => 32,
        DataType::UInt64 => 64,
        _ => 0,
    }
}

/// The signed integer type of the given width.
pub open spec fn signed_of_width(w: nat) -> DataType {
    if w <= 8 {
        DataType::Int8
    } else if w <= 16 {
        DataType::Int16
    } else if w <= 32 {
        DataType::Int32
    } else {
        DataType::Int64
    }
}

/// The unsigned integer type of the given width.
pub open spec fn unsigned_of_width(w: nat) -> DataType {
    if w <= 8 {
        DataType::UInt8
    } else if w <= 16 {
        DataType::UInt16
    } else if w <= 32 {
        DataType::UInt32
    } else {
        DataType::UInt64
    }
}

/// Smallest value an integer type can hold.
pub open spec fn type_min(t: DataType) -> int {
    match t {
        DataType::Int8 => i8::MIN as int,
        DataType::Int16 => i16::MIN as int,
        DataType::Int32 => i32::MIN as int,
        DataType::Int64 => i64::MIN as int,
        _ => 0,
    }
}

/// Largest value an integer type can hold.
pub open spec fn type_max(t: DataType) -> int {
    match t {
        DataType::Int8 => i8::MAX as int,
        DataType::Int16 => i16::MAX as int,
        DataType::Int32 => i32::MAX as int,
        DataType::Int64 => i64::MAX as int,
        DataType::UInt8 => u8::MAX as int,
        DataType::UInt16 => u16::MAX as int,
        DataType::UInt32 => u32::MAX as int,
        DataType::UInt64 => u64::MAX as int,
        _ => 0,
    }
}

/// Whether the integer `n` lies in the range of the integer type `t`.
pub open spec fn in_type_range(t: DataType, n: int) -> bool {
    type_min(t) <= n <= type_max(t)
}

/// Common type of two integer types: same signedness widens to the larger
/// width; a signed/unsigned mix needs a signed type that covers the unsigned
/// range, hence twice the unsigned width.
pub open spec fn integer_coercion(a: DataType, b: DataType) -> Option<DataType> {
    let wa = integer_width(a);
    let wb = integer_width(b);
    let w = if wa >= wb {
        wa
    } else {
        wb
    };
    if is_signed_type(a) && is_signed_type(b) {
        Some(signed_of_width(w))
    } else if is_unsigned_type(a) && is_unsigned_type(b) {
        Some(unsigned_of_width(w))
    } else {
        let uw = if is_unsigned_type(a) {
            integer_width(a)
        } else {
            integer_width(b)
        };
        let sw = if is_signed_type(a) {
            integer_width(a)
        } else {
            integer_width(b)
        };
        let need = if sw >= 2 * uw {
            sw
        } else {
            2 * uw
        };
        if need <= 64 {
            Some(signed_of_width(need))
        } else {
            None
        }
    }
}

/// Common comparable type of `a` and `b`, or `None` when they cannot be
/// unified. `Null` coerces to the other type; no numeric type unifies with
/// a textual or boolean one.
pub open spec fn spec_coerce(a: DataType, b: DataType) -> Option<DataType> {
    if a == b {
        Some(a)
    } else if a == DataType::Null {
        Some(b)
    } else if b == DataType::Null {
        Some(a)
    } else if is_integer_type(a) && is_integer_type(b) {
        integer_coercion(a, b)
    } else {
        None
    }
}

/// `spec_coerce` as a `Result`, the shape the executable functions return.
pub open spec fn coercion_result(a: DataType, b: DataType) -> Result<DataType, ErrorCode> {
    match spec_coerce(a, b) {
        Some(t) => Ok(t),
        None => Err(ErrorCode::TypeMismatch),
    }
}

/// Coercion is symmetric: the common type of a pair does not depend on the
/// order of its sides.
pub proof fn lemma_coercion_symmetric(a: DataType, b: DataType)
    ensures
        spec_coerce(a, b) == spec_coerce(b, a),
{
}

impl DataType {
    pub fn is_signed(&self) -> (r: bool)
        ensures
            r == is_signed_type(*self),
    {
        matches!(self, DataType::Int8 | DataType::Int16 | DataType::Int32 | DataType::Int64)
    }

    pub fn is_unsigned(&self) -> (r: bool)
        ensures
            r == is_unsigned_type(*self),
    {
        matches!(self, DataType::UInt8 | DataType::UInt16 | DataType::UInt32 | DataType::UInt64)
    }

    pub fn is_integer(&self) -> (r: bool)
        ensures
            r == is_integer_type(*self),
    {
        self.is_signed() || self.is_unsigned()
    }

    /// Width in bits of an integer type (0 for the others).
    pub fn width(&self) -> (r: u32)
        ensures
            r as nat == integer_width(*self),
    {
        match self {
            DataType::Int8 => 8,
            DataType::Int16 => 16,
            DataType::Int32 => 32,
            DataType::Int64 => 64,
            DataType::UInt8 => 8,
            DataType::UInt16 => 16,
            DataType::UInt32 => 32,
            DataType::UInt64 => 64,
            _ => 0,
        }
    }
}

fn signed_type_of_width(w: u32) -> (r: DataType)
    ensures
        r == signed_of_width(w as nat),
{
    if w <= 8 {
        DataType::Int8
    } else if w <= 16 {
        DataType::Int16
    } else if w <= 32 {
        DataType::Int32
    } else {
        DataType::Int64
    }
}

fn unsigned_type_of_width(w: u32) -> (r: DataType)
    ensures
        r == unsigned_of_width(w as nat),
{
    if w <= 8 {
        DataType::UInt8
    } else if w <= 16 {
        DataType::UInt16
    } else if w <= 32 {
        DataType::UInt32
    } else {
        DataType::UInt64
    }
}

/// Coerce two types to their common comparable type, or fail with
/// `TypeMismatch` where the lattice unifies nothing.
pub fn equal_coercion(a: &DataType, b: &DataType) -> (r: Result<DataType, ErrorCode>)
    ensures
        r == coercion_result(*a, *b),
{
    if *a == *b {
        return Ok(*a);
    }
    if matches!(a, DataType::Null) {
        return Ok(*b);
    }
    if matches!(b, DataType::Null) {
        return Ok(*a);
    }
    if a.is_integer() && b.is_integer() {
        let wa = a.width();
        let wb = b.width();
        let w = if wa >= wb {
            wa
        } else {
            wb
        };
        if a.is_signed() && b.is_signed() {
            return Ok(signed_type_of_width(w));
        }
        if a.is_unsigned() && b.is_unsigned() {
            return Ok(unsigned_type_of_width(w));
        }
        let uw = if a.is_unsigned() {
            a.width()
        } else {
            b.width()
        };
        let sw = if a.is_signed() {
            a.width()
        } else {
            b.width()
        };
        let need = if sw >= 2 * uw {
            sw
        } else {
            2 * uw
        };
        if need <= 64 {
            return Ok(signed_type_of_width(need));
        }
        return Err(ErrorCode::TypeMismatch);
    }
    Err(ErrorCode::TypeMismatch)
}

} // verus!
