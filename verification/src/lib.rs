//! Expression-evaluation and aggregation core of a distributed SQL query
//! engine: a columnar value model with type coercion and cast, a vectorized
//! comparison engine over dense arrays and broadcast constants, a recursive
//! expression tree with type resolution and canonical naming, and the
//! accumulate/merge protocol that folds per-worker aggregate state into a
//! final result.

pub mod aggregator;
pub mod arithmetic;
pub mod block;
pub mod cluster;
pub mod column;
pub mod comparison;
pub mod error;
pub mod expression;
pub mod registry;
pub mod schema;
pub mod text;
pub mod types;
pub mod value;
