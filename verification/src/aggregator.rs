//! The count accumulator: the aggregate protocol of local accumulation,
//! partial-state emission and cross-node merge.
//!
//! `accumulate` adds a batch's row count to the running state and `merge`
//! adds the slot of an incoming partial-state vector, both through the same
//! identity-preserving `Plus`, so partial states combine in any order and
//! any grouping. Count adds the whole row count of each batch, whatever the
//! argument's values hold: it does not skip nulls, on purpose.

use vstd::prelude::*;

use crate::arithmetic::{data_value_arithmetic_op, spec_arith, DataValueArithmeticOperator};
use crate::block::{block_rows, DataBlock};
use crate::column::{col_eq, DataColumn};
use crate::error::ErrorCode;
use crate::schema::{field_index, has_field, DataSchema};
use crate::types::DataType;
use crate::value::{value_type, DataValue};

verus! {

/// What a count consumes: a broadcast literal (a plain `count()` counts a
/// constant one per row) or a named column of the batch.
#[derive(Debug, PartialEq)]
pub enum CountArg {
    Literal(DataValue),
    Column(String),
}

impl Clone for CountArg {
    /// A clone is the same argument.
    fn clone(&self) -> (r: CountArg)
        ensures
            r == *self,
    {
        match self {
            CountArg::Literal(v) => CountArg::Literal(v.clone()),
            CountArg::Column(name) => CountArg::Column(name.clone()),
        }
    }
}

/// The running count a state scalar stands for: `Null` is the empty state.
pub open spec fn count_of(state: DataValue) -> int {
    match state {
        DataValue::UInt64(n) => n as int,
        _ => 0,
    }
}

/// A count state is `Null` before anything arrived, a `UInt64` after.
pub open spec fn count_state_wf(state: DataValue) -> bool {
    state is Null || state is UInt64
}

/// The combining rule of count is commutative: two partial states merge to
/// the same result in either order, error for error.
pub proof fn lemma_count_combine_commutes(a: DataValue, b: DataValue)
    requires
        count_state_wf(a),
        count_state_wf(b),
    ensures
        spec_arith(DataValueArithmeticOperator::Plus, a, b) == spec_arith(
            DataValueArithmeticOperator::Plus,
            b,
            a,
        ),
{
}

/// The combining rule of count is associative: partial states whose total
/// fits the state type merge to the same result in any grouping, so a node
/// may consume merged states as it would raw ones.
pub proof fn lemma_count_combine_associates(a: DataValue, b: DataValue, c: DataValue)
    requires
        count_state_wf(a),
        count_state_wf(b),
        count_state_wf(c),
        count_of(a) + count_of(b) + count_of(c) <= u64::MAX,
    ensures
        spec_arith(DataValueArithmeticOperator::Plus, a, b) is Ok,
        spec_arith(DataValueArithmeticOperator::Plus, b, c) is Ok,
        spec_arith(
            DataValueArithmeticOperator::Plus,
            spec_arith(DataValueArithmeticOperator::Plus, a, b)->Ok_0,
            c,
        ) == spec_arith(
            DataValueArithmeticOperator::Plus,
            a,
            spec_arith(DataValueArithmeticOperator::Plus, b, c)->Ok_0,
        ),
{
}

/// The count aggregate: per-instance running state plus the slot index of
/// its partial state within the shared vector.
#[derive(Debug, PartialEq)]
pub struct AggregatorCountFunction {
    pub depth: usize,
    pub arg: CountArg,
    pub state: DataValue,
}

impl Clone for AggregatorCountFunction {
    /// A clone is the same accumulator.
    fn clone(&self) -> (r: AggregatorCountFunction)
        ensures
            r == *self,
    {
        AggregatorCountFunction {
            depth: self.depth,
            arg: self.arg.clone(),
            state: self.state.clone(),
        }
    }
}

impl AggregatorCountFunction {
    /// Build a count over the first argument, or over a constant one per
    /// row when there is no argument, with empty state and slot zero.
    pub fn try_create(args: &[CountArg]) -> (r: Result<AggregatorCountFunction, ErrorCode>)
        ensures
            (r matches Ok(f) ==> {
                &&& f.depth == 0
                &&& f.state is Null
                &&& (if args@.len() == 0 {
                    f.arg == CountArg::Literal(DataValue::UInt64(1))
                } else {
                    f.arg == args@[0]
                })
            }),
            r is Ok,
    {
        let arg = if args.len() == 0 {
            CountArg::Literal(DataValue::UInt64(1))
        } else {
            args[0].clone()
        };
        Ok(AggregatorCountFunction { depth: 0, arg, state: DataValue::Null })
    }

    /// The type this aggregate returns: its argument's type, a column's
    /// declared type, or `UnknownColumn` for a name the schema lacks.
    pub fn return_type(&self, input_schema: &DataSchema) -> (r: Result<DataType, ErrorCode>)
        ensures
            (match self.arg {
                CountArg::Literal(v) => r == Ok::<_, ErrorCode>(value_type(v)),
                CountArg::Column(name) => {
                    &&& (r is Ok <==> has_field(input_schema.fields@, name@))
                    &&& (r matches Ok(t) ==> t == input_schema.fields@[field_index(
                        input_schema.fields@,
                        name@,
                    )].data_type)
                    &&& (r matches Err(e) ==> e == ErrorCode::UnknownColumn)
                },
            }),
    {
        match &self.arg {
            CountArg::Literal(v) => Ok(v.data_type()),
            CountArg::Column(name) => {
                match input_schema.field_with_name(name.as_str()) {
                    Ok(f) => Ok(f.data_type),
                    Err(e) => Err(e),
                }
            },
        }
    }

    /// A count is never null.
    pub fn nullable(&self, _input_schema: &DataSchema) -> (r: Result<bool, ErrorCode>)
        ensures
            r == Ok::<bool, ErrorCode>(false),
    {
        Ok(false)
    }

    /// Project the batch to the stream this aggregate consumes: a literal
    /// broadcast over the batch's rows, or the named column.
    pub fn eval(&self, block: &DataBlock) -> (r: Result<DataColumn, ErrorCode>)
        requires
            block.columns@.len() == block.schema.fields@.len(),
        ensures
            (match self.arg {
                CountArg::Literal(v) => r matches Ok(c) && (c matches DataColumn::Constant(
                    w,
                    n,
                ) && w == v && n as nat == block_rows(*block)),
                CountArg::Column(name) => {
                    &&& (r is Ok <==> has_field(block.schema.fields@, name@))
                    &&& (r matches Ok(c) ==> col_eq(
                        c,
                        block.columns@[field_index(block.schema.fields@, name@)],
                    ))
                    &&& (r matches Err(e) ==> e == ErrorCode::UnknownColumn)
                },
            }),
    {
        match &self.arg {
            CountArg::Literal(v) => Ok(DataColumn::Constant(v.clone(), block.num_rows())),
            CountArg::Column(name) => {
                match block.column_by_name(name.as_str()) {
                    Ok(c) => Ok(c.clone()),
                    Err(e) => Err(e),
                }
            },
        }
    }

    /// Fix this accumulator's slot in the shared partial-state vector. Set
    /// once, before first use, identically on every node.
    pub fn set_depth(&mut self, depth: usize)
        ensures
            final(self).depth == depth,
            final(self).arg == old(self).arg,
            final(self).state == old(self).state,
    {
        self.depth = depth;
    }

    /// Fold a batch into the running state: the state plus the batch's row
    /// count, under the identity-preserving `Plus`. On error the state is
    /// unchanged.
    pub fn accumulate(&mut self, block: &DataBlock) -> (r: Result<(), ErrorCode>)
        ensures
            (match spec_arith(
                DataValueArithmeticOperator::Plus,
                old(self).state,
                DataValue::UInt64(block_rows(*block) as u64),
            ) {
                Ok(v) => r is Ok && final(self).state == v,
                Err(e) => r == Err::<(), ErrorCode>(e) && final(self).state == old(self).state,
            }),
            final(self).depth == old(self).depth,
            final(self).arg == old(self).arg,
            block_rows(*block) <= usize::MAX,
            count_state_wf(old(self).state) && count_of(old(self).state) + block_rows(*block)
                <= u64::MAX ==> r is Ok && final(self).state == DataValue::UInt64(
                (count_of(old(self).state) + block_rows(*block)) as u64,
            ),
    {
        let rows = block.num_rows();
        match data_value_arithmetic_op(
            DataValueArithmeticOperator::Plus,
            self.state.clone(),
            DataValue::UInt64(rows as u64),
        ) {
            Ok(v) => {
                self.state = v;
                Ok(())
            },
            Err(e) => Err(e),
        }
    }

    /// Emit the current state as this aggregate's partial-state scalars.
    pub fn accumulate_result(&self) -> (r: Result<Vec<DataValue>, ErrorCode>)
        ensures
            (r matches Ok(v) && v@ =~= seq![self.state]),
    {
        let mut out: Vec<DataValue> = Vec::new();
        out.push(self.state.clone());
        Ok(out)
    }

    /// Read this aggregate's slot of an incoming partial-state vector and
    /// combine it into the running state with the same rule as
    /// `accumulate`. On error the state is unchanged.
    pub fn merge(&mut self, states: &[DataValue]) -> (r: Result<(), ErrorCode>)
        requires
            old(self).depth < states@.len(),
        ensures
            (match spec_arith(
                DataValueArithmeticOperator::Plus,
                old(self).state,
                states@[old(self).depth as int],
            ) {
                Ok(v) => r is Ok && final(self).state == v,
                Err(e) => r == Err::<(), ErrorCode>(e) && final(self).state == old(self).state,
            }),
            final(self).depth == old(self).depth,
            final(self).arg == old(self).arg,
            count_state_wf(old(self).state) && count_state_wf(states@[old(self).depth as int])
                && count_of(old(self).state) + count_of(states@[old(self).depth as int])
                <= u64::MAX ==> r is Ok && final(self).state == (if old(self).state is Null
                && states@[old(self).depth as int] is Null {
                DataValue::Null
            } else {
                DataValue::UInt64(
                    (count_of(old(self).state) + count_of(states@[old(self).depth as int])) as u64,
                )
            }),
    {
        let val = states[self.depth].clone();
        match data_value_arithmetic_op(DataValueArithmeticOperator::Plus, self.state.clone(), val) {
            Ok(v) => {
                self.state = v;
                Ok(())
            },
            Err(e) => Err(e),
        }
    }

    /// The final, fully merged value: the running state as it stands.
    pub fn merge_result(&self) -> (r: Result<DataValue, ErrorCode>)
        ensures
            r == Ok::<DataValue, ErrorCode>(self.state),
    {
        Ok(self.state.clone())
    }

    /// This function is an aggregate.
    pub fn is_aggregator(&self) -> (r: bool)
        ensures
            r,
    {
        true
    }
}

} // verus!
