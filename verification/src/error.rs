//! The error taxonomy of the core.
//!
//! The compile-time class (`UnknownColumn`, `UnknownFunction`,
//! `IllegalExpression`, `NotAggregateExpression`) is raised during type
//! resolution, before any execution begins. The runtime class
//! (`TypeMismatch`, `CastOverflow`, `CastParseError`, `ShapeError`) is raised
//! while evaluating, accumulating or merging, and is not locally recoverable.

use vstd::prelude::*;

verus! {

/// Every failure the core can report.
#[derive(Clone, Copy, Debug, PartialEq, Eq, Structural)]
pub enum ErrorCode {
    /// Two types cannot be coerced to a common type.
    TypeMismatch,
    /// A numeric conversion or an arithmetic result does not fit the target
    /// type (division by zero is reported the same way).
    CastOverflow,
    /// A textual value does not parse as a number.
    CastParseError,
    /// The row counts of two columns disagree.
    ShapeError,
    /// A schema holds no field of the requested name.
    UnknownColumn,
    /// No function of the requested name is registered.
    UnknownFunction,
    /// The expression has no type (a wildcard, or a rule that needs
    /// arguments applied to none).
    IllegalExpression,
    /// `to_aggregate_function` was called on a non-aggregate expression.
    NotAggregateExpression,
}

} // verus!
