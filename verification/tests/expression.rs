use query_core::error::ErrorCode;
use query_core::expression::ExpressionAction;
use query_core::registry::{AggregateFunctionFactory, FunctionFactory, ReturnTypeRule};
use query_core::schema::{DataField, DataSchema};
use query_core::types::DataType;
use query_core::value::DataValue;

fn sample_schema() -> DataSchema {
    DataSchema::new(vec![
        DataField::new("x", DataType::Int32, false),
        DataField::new("name", DataType::Utf8, true),
    ])
}

fn registries() -> (FunctionFactory, AggregateFunctionFactory) {
    let mut sf = FunctionFactory::new();
    sf.register("abs", ReturnTypeRule::FirstArgOr(DataType::Int64));
    sf.register("plus", ReturnTypeRule::Coerced);
    sf.register("eq", ReturnTypeRule::Fixed(DataType::Boolean));
    let mut af = AggregateFunctionFactory::new();
    af.register("count", ReturnTypeRule::FirstArgOr(DataType::UInt64));
    (sf, af)
}

#[test]
fn alias_names_come_from_the_alias() {
    let e = ExpressionAction::Alias(
        String::from("e"),
        Box::new(ExpressionAction::Column(String::from("x"))),
    );
    assert_eq!(e.column_name(), "e");
}

#[test]
fn scalar_functions_render_canonically() {
    let e = ExpressionAction::ScalarFunction {
        op: String::from("abs"),
        args: vec![ExpressionAction::Column(String::from("x"))],
    };
    assert_eq!(e.column_name(), "abs(x)");
}

#[test]
fn renderings_are_deterministic_over_every_variant() {
    assert_eq!(ExpressionAction::Wildcard.column_name(), "*");
    assert_eq!(
        ExpressionAction::Literal(DataValue::UInt64(3)).column_name(),
        "3"
    );
    assert_eq!(
        ExpressionAction::Literal(DataValue::Int32(-4)).column_name(),
        "-4"
    );
    assert_eq!(
        ExpressionAction::Literal(DataValue::Utf8(String::from("s"))).column_name(),
        "s"
    );
    assert_eq!(
        ExpressionAction::Literal(DataValue::Null).column_name(),
        "NULL"
    );
    let sort = ExpressionAction::Sort {
        expr: Box::new(ExpressionAction::Column(String::from("x"))),
        asc: true,
        nulls_first: false,
    };
    assert_eq!(sort.column_name(), "x");
    let cast = ExpressionAction::Cast {
        expr: Box::new(ExpressionAction::Column(String::from("x"))),
        data_type: DataType::Int64,
    };
    assert_eq!(cast.column_name(), "cast(x as Int64)");
    let nested = ExpressionAction::AggregateFunction {
        op: String::from("count"),
        args: vec![
            ExpressionAction::Column(String::from("x")),
            ExpressionAction::Literal(DataValue::UInt64(1)),
        ],
    };
    assert_eq!(nested.column_name(), "count(x, 1)");
    let aliased = ExpressionAction::Alias(
        String::from("n"),
        Box::new(ExpressionAction::Column(String::from("x"))),
    );
    assert_eq!(aliased.render(), "x as n");
}

#[test]
fn cast_resolves_to_its_target_type_whatever_the_inner() {
    let (sf, af) = registries();
    let schema = sample_schema();
    let over_wildcard = ExpressionAction::Cast {
        expr: Box::new(ExpressionAction::Wildcard),
        data_type: DataType::UInt16,
    };
    assert_eq!(
        over_wildcard.to_data_type(&schema, &sf, &af),
        Ok(DataType::UInt16)
    );
    let over_column = ExpressionAction::Cast {
        expr: Box::new(ExpressionAction::Column(String::from("x"))),
        data_type: DataType::Utf8,
    };
    assert_eq!(over_column.to_data_type(&schema, &sf, &af), Ok(DataType::Utf8));
}

#[test]
fn wildcard_never_resolves() {
    let (sf, af) = registries();
    let schema = sample_schema();
    assert_eq!(
        ExpressionAction::Wildcard.to_data_type(&schema, &sf, &af),
        Err(ErrorCode::IllegalExpression)
    );
}

#[test]
fn unknown_column_is_an_error_not_a_default() {
    let (sf, af) = registries();
    let schema = sample_schema();
    assert_eq!(
        ExpressionAction::Column(String::from("missing")).to_data_type(&schema, &sf, &af),
        Err(ErrorCode::UnknownColumn)
    );
}

#[test]
fn columns_and_literals_resolve() {
    let (sf, af) = registries();
    let schema = sample_schema();
    assert_eq!(
        ExpressionAction::Column(String::from("x")).to_data_type(&schema, &sf, &af),
        Ok(DataType::Int32)
    );
    assert_eq!(
        ExpressionAction::Literal(DataValue::Boolean(true)).to_data_type(&schema, &sf, &af),
        Ok(DataType::Boolean)
    );
}

#[test]
fn functions_resolve_through_the_registry() {
    let (sf, af) = registries();
    let schema = sample_schema();
    let abs = ExpressionAction::ScalarFunction {
        op: String::from("abs"),
        args: vec![ExpressionAction::Column(String::from("x"))],
    };
    assert_eq!(abs.to_data_type(&schema, &sf, &af), Ok(DataType::Int32));
    let plus = ExpressionAction::ScalarFunction {
        op: String::from("plus"),
        args: vec![
            ExpressionAction::Column(String::from("x")),
            ExpressionAction::Literal(DataValue::UInt8(1)),
        ],
    };
    assert_eq!(plus.to_data_type(&schema, &sf, &af), Ok(DataType::Int32));
    let wide = ExpressionAction::ScalarFunction {
        op: String::from("plus"),
        args: vec![
            ExpressionAction::Column(String::from("x")),
            ExpressionAction::Literal(DataValue::UInt32(1)),
        ],
    };
    assert_eq!(wide.to_data_type(&schema, &sf, &af), Ok(DataType::Int64));
    let count = ExpressionAction::AggregateFunction { op: String::from("count"), args: vec![] };
    assert_eq!(count.to_data_type(&schema, &sf, &af), Ok(DataType::UInt64));
}

#[test]
fn unknown_functions_fail_after_argument_resolution() {
    let (sf, af) = registries();
    let schema = sample_schema();
    let unknown = ExpressionAction::ScalarFunction {
        op: String::from("sqrt"),
        args: vec![ExpressionAction::Column(String::from("x"))],
    };
    assert_eq!(unknown.to_data_type(&schema, &sf, &af), Err(ErrorCode::UnknownFunction));
    let bad_arg = ExpressionAction::ScalarFunction {
        op: String::from("sqrt"),
        args: vec![ExpressionAction::Column(String::from("missing"))],
    };
    assert_eq!(bad_arg.to_data_type(&schema, &sf, &af), Err(ErrorCode::UnknownColumn));
}

#[test]
fn to_data_field_carries_name_type_and_nullability() {
    let (sf, af) = registries();
    let schema = sample_schema();
    let e = ExpressionAction::Alias(
        String::from("total"),
        Box::new(ExpressionAction::Column(String::from("x"))),
    );
    let f = e.to_data_field(&schema, &sf, &af).unwrap();
    assert_eq!(f.name, "total");
    assert_eq!(f.data_type, DataType::Int32);
    assert!(!f.nullable);
    assert_eq!(e.nullable(&schema), Ok(false));
}

#[test]
fn only_aggregate_nodes_extract_aggregates() {
    let (_, af) = registries();
    let non_aggregates = vec![
        ExpressionAction::Column(String::from("x")),
        ExpressionAction::Literal(DataValue::UInt64(1)),
        ExpressionAction::Wildcard,
        ExpressionAction::Alias(
            String::from("a"),
            Box::new(ExpressionAction::Column(String::from("x"))),
        ),
        ExpressionAction::ScalarFunction { op: String::from("abs"), args: vec![] },
    ];
    for e in &non_aggregates {
        assert!(matches!(
            e.to_aggregate_function(&af),
            Err(ErrorCode::NotAggregateExpression)
        ));
    }
}

#[test]
fn aggregate_extraction_yields_the_argument_names() {
    let (_, af) = registries();
    let e = ExpressionAction::AggregateFunction {
        op: String::from("count"),
        args: vec![
            ExpressionAction::Alias(
                String::from("e"),
                Box::new(ExpressionAction::Column(String::from("x"))),
            ),
            ExpressionAction::Column(String::from("name")),
        ],
    };
    let (func, names) = e.to_aggregate_function(&af).unwrap();
    assert_eq!(names, vec![String::from("e"), String::from("name")]);
    assert_eq!(func.depth, 0);
    assert!(func.is_aggregator());
}

#[test]
fn unregistered_aggregates_fail() {
    let (_, af) = registries();
    let e = ExpressionAction::AggregateFunction { op: String::from("median"), args: vec![] };
    assert!(matches!(e.to_aggregate_function(&af), Err(ErrorCode::UnknownFunction)));
}
