use query_core::aggregator::{AggregatorCountFunction, CountArg};
use query_core::block::DataBlock;
use query_core::column::DataColumn;
use query_core::schema::{DataField, DataSchema};
use query_core::types::DataType;
use query_core::value::DataValue;

fn block_of_rows(n: usize) -> DataBlock {
    let schema = DataSchema::new(vec![DataField::new("c", DataType::Int32, false)]);
    DataBlock::new(schema, vec![DataColumn::Constant(DataValue::Int32(0), n)])
}

#[test]
fn accumulating_batches_then_merging_counts_all_rows() {
    let mut acc = AggregatorCountFunction::try_create(&[]).unwrap();
    for rows in [3, 4, 5] {
        acc.accumulate(&block_of_rows(rows)).unwrap();
    }
    assert_eq!(acc.merge_result(), Ok(DataValue::UInt64(12)));
}

#[test]
fn merging_partial_states_at_slot_zero() {
    let mut merger = AggregatorCountFunction::try_create(&[]).unwrap();
    merger.merge(&[DataValue::UInt64(5)]).unwrap();
    merger.merge(&[DataValue::UInt64(7)]).unwrap();
    assert_eq!(merger.merge_result(), Ok(DataValue::UInt64(12)));
}

#[test]
fn merge_order_does_not_matter() {
    let parts = [DataValue::UInt64(5), DataValue::UInt64(7), DataValue::UInt64(1)];
    let mut forward = AggregatorCountFunction::try_create(&[]).unwrap();
    for p in &parts {
        forward.merge(std::slice::from_ref(p)).unwrap();
    }
    let mut backward = AggregatorCountFunction::try_create(&[]).unwrap();
    for p in parts.iter().rev() {
        backward.merge(std::slice::from_ref(p)).unwrap();
    }
    assert_eq!(forward.merge_result(), backward.merge_result());
}

#[test]
fn the_slot_index_selects_this_aggregates_state() {
    let mut acc = AggregatorCountFunction::try_create(&[]).unwrap();
    acc.set_depth(1);
    assert_eq!(acc.depth, 1);
    acc.merge(&[DataValue::UInt64(9), DataValue::UInt64(5)]).unwrap();
    assert_eq!(acc.merge_result(), Ok(DataValue::UInt64(5)));
}

#[test]
fn a_producer_emits_its_state_at_its_slot() {
    let mut acc = AggregatorCountFunction::try_create(&[]).unwrap();
    assert_eq!(acc.accumulate_result(), Ok(vec![DataValue::Null]));
    acc.accumulate(&block_of_rows(2)).unwrap();
    assert_eq!(acc.accumulate_result(), Ok(vec![DataValue::UInt64(2)]));
}

#[test]
fn count_without_arguments_consumes_a_constant_one_per_row() {
    let acc = AggregatorCountFunction::try_create(&[]).unwrap();
    let block = block_of_rows(4);
    assert_eq!(
        acc.eval(&block),
        Ok(DataColumn::Constant(DataValue::UInt64(1), 4))
    );
    let schema = DataSchema::new(vec![DataField::new("c", DataType::Int32, false)]);
    assert_eq!(acc.return_type(&schema), Ok(DataType::UInt64));
    assert_eq!(acc.nullable(&schema), Ok(false));
    assert!(acc.is_aggregator());
}

#[test]
fn count_over_a_column_consumes_that_column() {
    let args = [CountArg::Column(String::from("c"))];
    let acc = AggregatorCountFunction::try_create(&args).unwrap();
    let block = block_of_rows(3);
    assert_eq!(
        acc.eval(&block),
        Ok(DataColumn::Constant(DataValue::Int32(0), 3))
    );
    let schema = DataSchema::new(vec![DataField::new("c", DataType::Int32, false)]);
    assert_eq!(acc.return_type(&schema), Ok(DataType::Int32));
    let other = DataSchema::new(vec![DataField::new("d", DataType::Int32, false)]);
    assert!(acc.return_type(&other).is_err());
}

#[test]
fn count_adds_whole_row_counts_without_skipping_nulls() {
    let schema = DataSchema::new(vec![DataField::new("c", DataType::Null, true)]);
    let block = DataBlock::new(
        schema,
        vec![DataColumn::Array(vec![DataValue::Null, DataValue::Null])],
    );
    let mut acc = AggregatorCountFunction::try_create(&[CountArg::Column(String::from("c"))])
        .unwrap();
    acc.accumulate(&block).unwrap();
    assert_eq!(acc.merge_result(), Ok(DataValue::UInt64(2)));
}
