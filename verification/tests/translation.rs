use clickhouse_datafusion::federation::{
    dealiased_aggregate_call, dealiased_scalar_call, dealiased_window_call, transformed_or_unchanged, translate_expr,
    FunctionMapper,
};
use datafusion::arrow::datatypes::DataType;
use datafusion::common::tree_node::Transformed;
use datafusion::common::{DataFusionError, Result};
use datafusion::logical_expr::expr::{AggregateFunction, ScalarFunction, WindowFunction};
use datafusion::logical_expr::function::AccumulatorArgs;
use datafusion::logical_expr::{
    Accumulator, AggregateUDF, AggregateUDFImpl, ColumnarValue, Expr, ScalarFunctionArgs, ScalarUDF,
    ScalarUDFImpl, Signature, Volatility, WindowFunctionDefinition,
};
use datafusion::prelude::col;
use std::collections::HashMap;
use std::sync::Arc;

#[derive(Debug, PartialEq, Eq, Hash)]
struct NamedScalar {
    name: String,
    signature: Signature,
}

impl ScalarUDFImpl for NamedScalar {
    fn name(&self) -> &str {
        &self.name
    }
    fn signature(&self) -> &Signature {
        &self.signature
    }
    fn return_type(&self, _arg_types: &[DataType]) -> Result<DataType> {
        Ok(DataType::Int64)
    }
    fn invoke_with_args(&self, _args: ScalarFunctionArgs) -> Result<ColumnarValue> {
        Err(DataFusionError::Internal("not executed here".to_string()))
    }
}

#[derive(Debug, PartialEq, Eq, Hash)]
struct NamedAggregate {
    name: String,
    signature: Signature,
}

impl AggregateUDFImpl for NamedAggregate {
    fn name(&self) -> &str {
        &self.name
    }
    fn signature(&self) -> &Signature {
        &self.signature
    }
    fn return_type(&self, _arg_types: &[DataType]) -> Result<DataType> {
        Ok(DataType::Int64)
    }
    fn accumulator(&self, _acc_args: AccumulatorArgs<'_>) -> Result<Box<dyn Accumulator>> {
        Err(DataFusionError::Internal("not executed here".to_string()))
    }
}

fn scalar(name: &str) -> Arc<ScalarUDF> {
    Arc::new(ScalarUDF::new_from_impl(NamedScalar {
        name: name.to_string(),
        signature: Signature::variadic_any(Volatility::Immutable),
    }))
}

fn aggregate(name: &str) -> Arc<AggregateUDF> {
    Arc::new(AggregateUDF::new_from_impl(NamedAggregate {
        name: name.to_string(),
        signature: Signature::variadic_any(Volatility::Immutable),
    }))
}

#[derive(Debug)]
struct ByName {
    udfs: HashMap<String, Arc<ScalarUDF>>,
    udafs: HashMap<String, Arc<AggregateUDF>>,
}

impl FunctionMapper for ByName {
    fn try_dealias_udf(&self, udf: &Arc<ScalarUDF>) -> Option<Arc<ScalarUDF>> {
        self.udfs.get(udf.name()).cloned()
    }
    fn try_dealias_udaf(&self, udaf: &Arc<AggregateUDF>) -> Option<Arc<AggregateUDF>> {
        self.udafs.get(udaf.name()).cloned()
    }
}

fn mapper() -> ByName {
    let mut udfs = HashMap::new();
    let _ = udfs.insert("groupArray".to_string(), scalar("array_agg"));
    let mut udafs = HashMap::new();
    let _ = udafs.insert("argmax".to_string(), aggregate("argMax"));
    ByName { udfs, udafs }
}

#[test]
fn scalar_call_is_dealiased_keeping_its_arguments() {
    let expr = Expr::ScalarFunction(ScalarFunction::new_udf(scalar("groupArray"), vec![col("x")]));
    let t = translate_expr(expr, &mapper()).unwrap();
    assert!(t.transformed);
    match t.data {
        Expr::ScalarFunction(f) => {
            assert_eq!(f.func.name(), "array_agg");
            assert_eq!(f.args, vec![col("x")]);
        }
        other => panic!("unexpected expression {other:?}"),
    }
}

#[test]
fn aggregate_call_is_dealiased_keeping_its_parameters() {
    let expr = Expr::AggregateFunction(AggregateFunction::new_udf(
        aggregate("argmax"),
        vec![col("v"), col("k")],
        true,
        None,
        vec![],
        None,
    ));
    let t = translate_expr(expr, &mapper()).unwrap();
    assert!(t.transformed);
    match t.data {
        Expr::AggregateFunction(f) => {
            assert_eq!(f.func.name(), "argMax");
            assert_eq!(f.params.args, vec![col("v"), col("k")]);
            assert!(f.params.distinct);
        }
        other => panic!("unexpected expression {other:?}"),
    }
}

#[test]
fn aggregate_window_call_is_dealiased() {
    let expr = Expr::WindowFunction(Box::new(WindowFunction::new(aggregate("argmax"), vec![col("v")])));
    let t = translate_expr(expr, &mapper()).unwrap();
    assert!(t.transformed);
    match t.data {
        Expr::WindowFunction(w) => {
            match &w.fun {
                WindowFunctionDefinition::AggregateUDF(f) => assert_eq!(f.name(), "argMax"),
                other => panic!("unexpected function {other:?}"),
            }
            assert_eq!(w.params.args, vec![col("v")]);
        }
        other => panic!("unexpected expression {other:?}"),
    }
}

#[test]
fn unknown_functions_and_other_expressions_are_unchanged() {
    let expr = Expr::ScalarFunction(ScalarFunction::new_udf(scalar("toDate"), vec![col("x")]));
    let t = translate_expr(expr.clone(), &mapper()).unwrap();
    assert!(!t.transformed);
    assert_eq!(t.data, expr);

    let t = translate_expr(col("x"), &mapper()).unwrap();
    assert!(!t.transformed);
    assert_eq!(t.data, col("x"));
}

#[test]
fn dealiased_calls_take_the_answered_function_or_nothing() {
    let call = Expr::ScalarFunction(ScalarFunction::new_udf(scalar("groupArray"), vec![col("x")]));
    let t = dealiased_scalar_call(&call, Some(scalar("array_agg"))).unwrap();
    assert!(t.transformed);
    match t.data {
        Expr::ScalarFunction(f) => {
            assert_eq!(f.func.name(), "array_agg");
            assert_eq!(f.args, vec![col("x")]);
        }
        other => panic!("unexpected result {other:?}"),
    }
    assert!(dealiased_scalar_call(&call, None).is_none());

    let call = Expr::AggregateFunction(AggregateFunction::new_udf(aggregate("argmax"), vec![col("v")], false, None, vec![], None));
    let t = dealiased_aggregate_call(&call, Some(aggregate("argMax"))).unwrap();
    assert!(t.transformed);
    match t.data {
        Expr::AggregateFunction(f) => {
            assert_eq!(f.func.name(), "argMax");
            assert_eq!(f.params.args, vec![col("v")]);
        }
        other => panic!("unexpected result {other:?}"),
    }
    assert!(dealiased_aggregate_call(&call, None).is_none());

    let call = Expr::WindowFunction(Box::new(WindowFunction::new(aggregate("argmax"), vec![col("v")])));
    let t = dealiased_window_call(&call, Some(aggregate("argMax"))).unwrap();
    assert!(t.transformed);
    match t.data {
        Expr::WindowFunction(w) => match &w.fun {
            WindowFunctionDefinition::AggregateUDF(f) => assert_eq!(f.name(), "argMax"),
            other => panic!("unexpected function {other:?}"),
        },
        other => panic!("unexpected result {other:?}"),
    }
    assert!(dealiased_window_call(&call, None).is_none());
}

#[test]
fn a_missing_rewrite_leaves_the_expression_unchanged() {
    let t = transformed_or_unchanged(col("x"), None);
    assert!(!t.transformed);
    assert_eq!(t.data, col("x"));

    let rewritten = Transformed::yes(col("y"));
    let t = transformed_or_unchanged(col("x"), Some(rewritten));
    assert!(t.transformed);
    assert_eq!(t.data, col("y"));
}
