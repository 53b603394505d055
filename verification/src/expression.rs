//! The expression tree: a recursive, exclusively owned AST with canonical
//! naming, recursive type resolution against a schema and the function
//! registries, and extraction of aggregate functions.
//!
//! The canonical rendering of a node is used as a key to correlate aggregate
//! outputs across independently executing nodes, so it is fully
//! deterministic.

use vstd::prelude::*;

use crate::aggregator::{AggregatorCountFunction, CountArg};
use crate::error::ErrorCode;
use crate::registry::{
    apply_rule, desc_index, has_function, AggregateFunctionFactory, FunctionDesc, FunctionFactory,
};
use crate::schema::{field_index, has_field, DataField, DataSchema};
use crate::types::DataType;
use crate::value::{value_type, DataValue};

verus! {

/// One node of a query expression.
#[derive(Debug, PartialEq)]
pub enum ExpressionAction {
    /// An expression under an alias name.
    Alias(String, Box<ExpressionAction>),
    /// A column of the input schema, by name.
    Column(String),
    /// A constant scalar.
    Literal(DataValue),
    /// A scalar function applied to arguments.
    ScalarFunction { op: String, args: Vec<ExpressionAction> },
    /// An aggregate function applied to arguments.
    AggregateFunction { op: String, args: Vec<ExpressionAction> },
    /// A sort key: the expression, its direction, and where nulls go.
    Sort { expr: Box<ExpressionAction>, asc: bool, nulls_first: bool },
    /// All fields of a schema.
    Wildcard,
    /// The expression cast to a fixed type; the cast itself is checked only
    /// at execution.
    Cast { expr: Box<ExpressionAction>, data_type: DataType },
}

/// The canonical text of a column type.
pub open spec fn render_type(t: DataType) -> Seq<char> {
    match t {
        DataType::Null => seq!['N', 'u', 'l', 'l'],
        DataType::Boolean => seq!['B', 'o', 'o', 'l', 'e', 'a', 'n'],
        DataType::Int8 => seq!['I', 'n', 't', '8'],
        DataType::Int16 => seq!['I', 'n', 't', '1', '6'],
        DataType::Int32 => seq!['I', 'n', 't', '3', '2'],
        DataType::Int64 => seq!['I', 'n', 't', '6', '4'],
        DataType::UInt8 => seq!['U', 'I', 'n', 't', '8'],
        DataType::UInt16 => seq!['U', 'I', 'n', 't', '1', '6'],
        DataType::UInt32 => seq!['U', 'I', 'n', 't', '3', '2'],
        DataType::UInt64 => seq!['U', 'I', 'n', 't', '6', '4'],
        DataType::Utf8 => seq!['U', 't', 'f', '8'],
    }
}

/// The canonical text of a node: the rendering grammar every node of the
/// cluster agrees on.
pub open spec fn render_expr(e: ExpressionAction) -> Seq<char>
    decreases e,
{
    match e {
        ExpressionAction::Alias(name, inner) => render_expr(*inner) + seq![' ', 'a', 's', ' ']
            + name@,
        ExpressionAction::Column(name) => name@,
        ExpressionAction::Literal(v) => v.render(),
        ExpressionAction::ScalarFunction { op, args } => op@ + seq!['('] + render_args(args@)
            + seq![')'],
        ExpressionAction::AggregateFunction { op, args } => op@ + seq!['('] + render_args(args@)
            + seq![')'],
        ExpressionAction::Sort { expr, .. } => render_expr(*expr),
        ExpressionAction::Wildcard => seq!['*'],
        ExpressionAction::Cast { expr, data_type } => seq!['c', 'a', 's', 't', '('] + render_expr(
            *expr,
        ) + seq![' ', 'a', 's', ' '] + render_type(data_type) + seq![')'],
    }
}

/// Argument lists render comma-joined.
pub open spec fn render_args(args: Seq<ExpressionAction>) -> Seq<char>
    decreases args,
{
    if args.len() == 0 {
        Seq::empty()
    } else if args.len() == 1 {
        render_expr(args[0])
    } else {
        render_args(args.drop_last()) + seq![',', ' '] + render_expr(args.last())
    }
}

/// The canonical name of a node: its alias where it has one, else its
/// canonical rendering.
pub open spec fn spec_column_name(e: ExpressionAction) -> Seq<char> {
    match e {
        ExpressionAction::Alias(name, _) => name@,
        _ => render_expr(e),
    }
}

/// The types of an argument list, resolved left to right; the leftmost
/// failure short-circuits.
pub open spec fn spec_arg_types(
    args: Seq<ExpressionAction>,
    fields: Seq<DataField>,
    sf: Seq<FunctionDesc>,
    af: Seq<FunctionDesc>,
) -> Result<Seq<DataType>, ErrorCode>
    decreases args,
{
    if args.len() == 0 {
        Ok(Seq::empty())
    } else {
        match spec_arg_types(args.drop_last(), fields, sf, af) {
            Err(e) => Err(e),
            Ok(rest) => match spec_to_data_type(args.last(), fields, sf, af) {
                Err(e) => Err(e),
                Ok(t) => Ok(rest.push(t)),
            },
        }
    }
}

/// The type a node resolves to against a schema and the registries:
/// aliases and sort keys delegate to their inner expression, a column looks
/// its field up, a literal has its own type, a function resolves its
/// arguments and applies its registered return-type rule, a wildcard has no
/// type, and a cast is its target type unconditionally.
pub open spec fn spec_to_data_type(
    e: ExpressionAction,
    fields: Seq<DataField>,
    sf: Seq<FunctionDesc>,
    af: Seq<FunctionDesc>,
) -> Result<DataType, ErrorCode>
    decreases e,
{
    match e {
        ExpressionAction::Alias(_, inner) => spec_to_data_type(*inner, fields, sf, af),
        ExpressionAction::Column(name) => if has_field(fields, name@) {
            Ok(fields[field_index(fields, name@)].data_type)
        } else {
            Err(ErrorCode::UnknownColumn)
        },
        ExpressionAction::Literal(v) => Ok(value_type(v)),
        ExpressionAction::ScalarFunction { op, args } => match spec_arg_types(
            args@,
            fields,
            sf,
            af,
        ) {
            Err(e) => Err(e),
            Ok(ts) => if has_function(sf, op@) {
                apply_rule(sf[desc_index(sf, op@)].rule, ts)
            } else {
                Err(ErrorCode::UnknownFunction)
            },
        },
        ExpressionAction::AggregateFunction { op, args } => match spec_arg_types(
            args@,
            fields,
            sf,
            af,
        ) {
            Err(e) => Err(e),
            Ok(ts) => if has_function(af, op@) {
                apply_rule(af[desc_index(af, op@)].rule, ts)
            } else {
                Err(ErrorCode::UnknownFunction)
            },
        },
        ExpressionAction::Sort { expr, .. } => spec_to_data_type(*expr, fields, sf, af),
        ExpressionAction::Wildcard => Err(ErrorCode::IllegalExpression),
        ExpressionAction::Cast { expr: _, data_type } => Ok(data_type),
    }
}

/// A cast resolves to its target type, whatever its inner expression
/// resolves to, or fails to.
pub proof fn lemma_cast_resolves_to_target(
    e: ExpressionAction,
    fields: Seq<DataField>,
    sf: Seq<FunctionDesc>,
    af: Seq<FunctionDesc>,
)
    requires
        e is Cast,
    ensures
        (e matches ExpressionAction::Cast { data_type, .. } ==> spec_to_data_type(e, fields, sf, af)
            == Ok::<DataType, ErrorCode>(data_type)),
{
}

/// A wildcard never resolves to a type.
pub proof fn lemma_wildcard_has_no_type(
    fields: Seq<DataField>,
    sf: Seq<FunctionDesc>,
    af: Seq<FunctionDesc>,
)
    ensures
        spec_to_data_type(ExpressionAction::Wildcard, fields, sf, af) == Err::<
            DataType,
            ErrorCode,
        >(ErrorCode::IllegalExpression),
{
}

/// The canonical text of a column type.
pub fn type_text(t: &DataType) -> (r: String)
    ensures
        r@ == render_type(*t),
{
    let r = match t {
        DataType::Null => String::from_str("Null"),
        DataType::Boolean => String::from_str("Boolean"),
        DataType::Int8 => String::from_str("Int8"),
        DataType::Int16 => String::from_str("Int16"),
        DataType::Int32 => String::from_str("Int32"),
        DataType::Int64 => String::from_str("Int64"),
        DataType::UInt8 => String::from_str("UInt8"),
        DataType::UInt16 => String::from_str("UInt16"),
        DataType::UInt32 => String::from_str("UInt32"),
        DataType::UInt64 => String::from_str("UInt64"),
        DataType::Utf8 => String::from_str("Utf8"),
    };
    proof {
        reveal_strlit("Null");
        reveal_strlit("Boolean");
        reveal_strlit("Int8");
        reveal_strlit("Int16");
        reveal_strlit("Int32");
        reveal_strlit("Int64");
        reveal_strlit("UInt8");
        reveal_strlit("UInt16");
        reveal_strlit("UInt32");
        reveal_strlit("UInt64");
        reveal_strlit("Utf8");
        assert(r@ =~= render_type(*t));
    }
    r
}

/// Render a comma-joined argument list.
fn args_text(args: &Vec<ExpressionAction>) -> (r: String)
    ensures
        r@ == render_args(args@),
    decreases args,
{
    let mut s = String::new();
    let mut i: usize = 0;
    while i < args.len()
        invariant
            0 <= i <= args@.len(),
            s@ == render_args(args@.take(i as int)),
        decreases args@.len() - i,
    {
        proof {
            assert(args@.take(i + 1).drop_last() =~= args@.take(i as int));
            assert(args@.take(i + 1).last() == args@[i as int]);
        }
        if i > 0 {
            s.append(", ");
            proof {
                reveal_strlit(", ");
            }
        }
        let part = args[i].render();
        s.append(part.as_str());
        proof {
            if i == 0 {
                assert(s@ =~= render_args(args@.take(1)));
            } else {
                assert(s@ =~= render_args(args@.take(i + 1)));
            }
        }
        i = i + 1;
    }
    proof {
        assert(args@.take(i as int) =~= args@);
    }
    s
}

impl ExpressionAction {
    /// The canonical text of this node.
    pub fn render(&self) -> (r: String)
        ensures
            r@ == render_expr(*self),
        decreases self,
    {
        match self {
            ExpressionAction::Alias(name, inner) => {
                let mut s = inner.render();
                s.append(" as ");
                s.append(name.as_str());
                proof {
                    reveal_strlit(" as ");
                    assert(s@ =~= render_expr(*self));
                }
                s
            },
            ExpressionAction::Column(name) => name.clone(),
            ExpressionAction::Literal(v) => v.to_text(),
            ExpressionAction::ScalarFunction { op, args } => {
                let mut s = op.clone();
                s.append("(");
                let inner = args_text(args);
                s.append(inner.as_str());
                s.append(")");
                proof {
                    reveal_strlit("(");
                    reveal_strlit(")");
                    assert(s@ =~= render_expr(*self));
                }
                s
            },
            ExpressionAction::AggregateFunction { op, args } => {
                let mut s = op.clone();
                s.append("(");
                let inner = args_text(args);
                s.append(inner.as_str());
                s.append(")");
                proof {
                    reveal_strlit("(");
                    reveal_strlit(")");
                    assert(s@ =~= render_expr(*self));
                }
                s
            },
            ExpressionAction::Sort { expr, .. } => expr.render(),
            ExpressionAction::Wildcard => {
                let s = String::from_str("*");
                proof {
                    reveal_strlit("*");
                    assert(s@ =~= render_expr(*self));
                }
                s
            },
            ExpressionAction::Cast { expr, data_type } => {
                let mut s = String::from_str("cast(");
                let inner = expr.render();
                s.append(inner.as_str());
                s.append(" as ");
                let t = type_text(data_type);
                s.append(t.as_str());
                s.append(")");
                proof {
                    reveal_strlit("cast(");
                    reveal_strlit(" as ");
                    reveal_strlit(")");
                    assert(s@ =~= render_expr(*self));
                }
                s
            },
        }
    }

    /// The canonical name of this node: the alias string for an alias, the
    /// canonical rendering for every other variant.
    pub fn column_name(&self) -> (r: String)
        ensures
            r@ == spec_column_name(*self),
    {
        match self {
            ExpressionAction::Alias(name, _) => name.clone(),
            _ => self.render(),
        }
    }

    /// Nullability resolution is not implemented for expressions: every
    /// expression reports non-nullable.
    pub fn nullable(&self, _input_schema: &DataSchema) -> (r: Result<bool, ErrorCode>)
        ensures
            r == Ok::<bool, ErrorCode>(false),
    {
        Ok(false)
    }

    /// Resolve this node's type, as `spec_to_data_type` states.
    pub fn to_data_type(
        &self,
        input_schema: &DataSchema,
        scalar_functions: &FunctionFactory,
        aggregate_functions: &AggregateFunctionFactory,
    ) -> (r: Result<DataType, ErrorCode>)
        ensures
            r == spec_to_data_type(
                *self,
                input_schema.fields@,
                scalar_functions.functions@,
                aggregate_functions.functions@,
            ),
        decreases self,
    {
        match self {
            ExpressionAction::Alias(_, inner) => inner.to_data_type(
                input_schema,
                scalar_functions,
                aggregate_functions,
            ),
            ExpressionAction::Column(name) => {
                match input_schema.field_with_name(name.as_str()) {
                    Ok(f) => Ok(f.data_type),
                    Err(e) => Err(e),
                }
            },
            ExpressionAction::Literal(v) => Ok(v.data_type()),
            ExpressionAction::ScalarFunction { op, args } => {
                let ts = match arg_types(args, input_schema, scalar_functions, aggregate_functions) {
                    Ok(ts) => ts,
                    Err(e) => {
                        return Err(e);
                    },
                };
                match scalar_functions.get(op.as_str()) {
                    Ok(d) => d.rule.resolve(&ts),
                    Err(e) => Err(e),
                }
            },
            ExpressionAction::AggregateFunction { op, args } => {
                let ts = match arg_types(args, input_schema, scalar_functions, aggregate_functions) {
                    Ok(ts) => ts,
                    Err(e) => {
                        return Err(e);
                    },
                };
                match aggregate_functions.get(op.as_str()) {
                    Ok(d) => d.rule.resolve(&ts),
                    Err(e) => Err(e),
                }
            },
            ExpressionAction::Sort { expr, .. } => expr.to_data_type(
                input_schema,
                scalar_functions,
                aggregate_functions,
            ),
            ExpressionAction::Wildcard => Err(ErrorCode::IllegalExpression),
            ExpressionAction::Cast { expr: _, data_type } => Ok(*data_type),
        }
    }

    /// The schema field this node produces: its canonical name, its
    /// resolved type, and its nullability.
    pub fn to_data_field(
        &self,
        input_schema: &DataSchema,
        scalar_functions: &FunctionFactory,
        aggregate_functions: &AggregateFunctionFactory,
    ) -> (r: Result<DataField, ErrorCode>)
        ensures
            (match spec_to_data_type(
                *self,
                input_schema.fields@,
                scalar_functions.functions@,
                aggregate_functions.functions@,
            ) {
                Ok(t) => r matches Ok(f) && f.name@ == spec_column_name(*self) && f.data_type == t
                    && f.nullable == false,
                Err(e) => r == Err::<DataField, ErrorCode>(e),
            }),
    {
        let name = self.column_name();
        let return_type = match self.to_data_type(
            input_schema,
            scalar_functions,
            aggregate_functions,
        ) {
            Ok(t) => t,
            Err(e) => {
                return Err(e);
            },
        };
        let nullable = match self.nullable(input_schema) {
            Ok(b) => b,
            Err(e) => {
                return Err(e);
            },
        };
        Ok(DataField::new(name.as_str(), return_type, nullable))
    }

    /// Extract the aggregate an `AggregateFunction` node names: the count
    /// accumulator the registry provides, and the canonical names of the
    /// arguments in order. Every other variant fails with
    /// `NotAggregateExpression`; an unregistered name fails with
    /// `UnknownFunction`.
    pub fn to_aggregate_function(
        &self,
        aggregate_functions: &AggregateFunctionFactory,
    ) -> (r: Result<(AggregatorCountFunction, Vec<String>), ErrorCode>)
        ensures
            !(*self is AggregateFunction) ==> r == Err::<(AggregatorCountFunction, Vec<String>), _>(
                ErrorCode::NotAggregateExpression,
            ),
            (*self matches ExpressionAction::AggregateFunction { op, args } ==> {
                &&& (r is Ok <==> has_function(aggregate_functions.functions@, op@))
                &&& (r matches Err(e) ==> e == ErrorCode::UnknownFunction)
                &&& (r matches Ok((f, names)) ==> {
                    &&& f.depth == 0
                    &&& f.state is Null
                    &&& f.arg == CountArg::Literal(DataValue::UInt64(1))
                    &&& names@.len() == args@.len()
                    &&& (forall|i: int|
                        0 <= i < args@.len() ==> (#[trigger] names@[i])@ == spec_column_name(
                            args@[i],
                        ))
                })
            }),
    {
        match self {
            ExpressionAction::AggregateFunction { op, args } => {
                match aggregate_functions.get(op.as_str()) {
                    Err(e) => Err(e),
                    Ok(_) => {
                        let func = match AggregatorCountFunction::try_create(&[]) {
                            Ok(f) => f,
                            Err(e) => {
                                return Err(e);
                            },
                        };
                        let mut names: Vec<String> = Vec::new();
                        let mut i: usize = 0;
                        while i < args.len()
                            invariant
                                0 <= i <= args@.len(),
                                names@.len() == i,
                                forall|j: int|
                                    0 <= j < i ==> (#[trigger] names@[j])@ == spec_column_name(
                                        args@[j],
                                    ),
                            decreases args@.len() - i,
                        {
                            names.push(args[i].column_name());
                            i = i + 1;
                        }
                        Ok((func, names))
                    },
                }
            },
            _ => Err(ErrorCode::NotAggregateExpression),
        }
    }
}

/// Resolve an argument list's types left to right.
fn arg_types(
    args: &Vec<ExpressionAction>,
    input_schema: &DataSchema,
    scalar_functions: &FunctionFactory,
    aggregate_functions: &AggregateFunctionFactory,
) -> (r: Result<Vec<DataType>, ErrorCode>)
    ensures
        (r matches Ok(ts) ==> spec_arg_types(
            args@,
            input_schema.fields@,
            scalar_functions.functions@,
            aggregate_functions.functions@,
        ) == Ok::<_, ErrorCode>(ts@)),
        (r matches Err(e) ==> spec_arg_types(
            args@,
            input_schema.fields@,
            scalar_functions.functions@,
            aggregate_functions.functions@,
        ) == Err::<Seq<DataType>, _>(e)),
    decreases args,
{
    let ghost fields = input_schema.fields@;
    let ghost sf = scalar_functions.functions@;
    let ghost af = aggregate_functions.functions@;
    let mut out: Vec<DataType> = Vec::new();
    let mut i: usize = 0;
    while i < args.len()
        invariant
            0 <= i <= args@.len(),
            fields == input_schema.fields@,
            sf == scalar_functions.functions@,
            af == aggregate_functions.functions@,
            spec_arg_types(args@.take(i as int), fields, sf, af) == Ok::<_, ErrorCode>(out@),
        decreases args@.len() - i,
    {
        proof {
            assert(args@.take(i + 1).drop_last() =~= args@.take(i as int));
            assert(args@.take(i + 1).last() == args@[i as int]);
        }
        match args[i].to_data_type(input_schema, scalar_functions, aggregate_functions) {
            Ok(t) => {
                out.push(t);
            },
            Err(e) => {
                proof {
                    lemma_arg_types_error_prefix(args@, fields, sf, af, i + 1);
                }
                return Err(e);
            },
        }
        i = i + 1;
    }
    proof {
        assert(args@.take(i as int) =~= args@);
    }
    Ok(out)
}

/// Once a prefix of an argument list fails to resolve, the whole list fails
/// the same way.
proof fn lemma_arg_types_error_prefix(
    args: Seq<ExpressionAction>,
    fields: Seq<DataField>,
    sf: Seq<FunctionDesc>,
    af: Seq<FunctionDesc>,
    j: int,
)
    requires
        0 <= j <= args.len(),
        spec_arg_types(args.take(j), fields, sf, af) is Err,
    ensures
        spec_arg_types(args, fields, sf, af) == spec_arg_types(args.take(j), fields, sf, af),
    decreases args.len() - j,
{
    if j == args.len() {
        assert(args.take(j) =~= args);
    } else {
        assert(args.take(j + 1).drop_last() =~= args.take(j));
        lemma_arg_types_error_prefix(args, fields, sf, af, j + 1);
    }
}

} // verus!
