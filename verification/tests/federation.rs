use clickhouse_datafusion::federation::{
    federated_session, federation_rule_name, rule_outcome, ClickHouseFederationProvider, FederatedContext, FunctionMapper,
    TransformationRule,
};
use datafusion::prelude::SessionContext;
use datafusion::arrow::datatypes::{DataType, Field, Schema};
use datafusion::common::DataFusionError;
use datafusion::logical_expr::expr::ScalarFunction;
use datafusion::common::tree_node::{TreeNode, TreeNodeRecursion};
use datafusion::common::Result;
use datafusion::logical_expr::{
    AggregateUDF, ColumnarValue, Expr, LogicalPlan, LogicalPlanBuilder, ScalarFunctionArgs, ScalarUDF,
    ScalarUDFImpl, Signature, Volatility,
};
use std::sync::Arc;

// Mock function mapper for testing
#[derive(Debug)]
struct MockFunctionMapper {
    udf_mappings: std::collections::HashMap<String, Arc<ScalarUDF>>,
}

impl MockFunctionMapper {
    fn new() -> Self {
        Self { udf_mappings: std::collections::HashMap::new() }
    }
}

impl FunctionMapper for MockFunctionMapper {
    fn try_dealias_udf(&self, udf: &Arc<ScalarUDF>) -> Option<Arc<ScalarUDF>> {
        self.udf_mappings.get(udf.name()).cloned()
    }

    fn try_dealias_udaf(&self, _udaf: &Arc<AggregateUDF>) -> Option<Arc<AggregateUDF>> {
        None
    }
}

// Mock transformation rule for testing
#[derive(Debug)]
struct MockTransformationRule {
    applied: std::sync::Arc<std::sync::atomic::AtomicBool>,
}

impl MockTransformationRule {
    fn new() -> Self {
        Self { applied: std::sync::Arc::new(std::sync::atomic::AtomicBool::new(false)) }
    }

    fn was_applied(&self) -> bool {
        self.applied.load(std::sync::atomic::Ordering::SeqCst)
    }
}

impl TransformationRule for MockTransformationRule {
    fn matches(&self, _plan: &LogicalPlan) -> bool {
        true // Match all plans for testing
    }

    fn transform(&self, plan: &LogicalPlan) -> Result<LogicalPlan> {
        self.applied.store(true, std::sync::atomic::Ordering::SeqCst);
        Ok(plan.clone())
    }
}

// A function that only has a name, standing for one that ClickHouse runs.
#[derive(Debug, PartialEq, Eq, Hash)]
struct NamedUdf {
    name: String,
    signature: Signature,
}

impl NamedUdf {
    fn new(name: &str) -> Self {
        Self { name: name.to_string(), signature: Signature::variadic_any(Volatility::Immutable) }
    }
}

impl ScalarUDFImpl for NamedUdf {
    fn name(&self) -> &str {
        &self.name
    }

    fn signature(&self) -> &Signature {
        &self.signature
    }

    fn return_type(&self, _arg_types: &[DataType]) -> Result<DataType> {
        Ok(DataType::Int32)
    }

    fn invoke_with_args(&self, _args: ScalarFunctionArgs) -> Result<ColumnarValue> {
        Err(DataFusionError::Internal("not executed here".to_string()))
    }
}

#[test]
fn test_federation_provider_creation() {
    let provider = ClickHouseFederationProvider::new();
    assert!(provider.function_mapper().is_none());
    assert!(provider.transformation_rules().is_empty());
}

#[test]
fn test_federation_provider_with_function_mapper() {
    let mapper = Arc::new(MockFunctionMapper::new());
    let provider = ClickHouseFederationProvider::new().with_function_mapper(mapper.clone());
    assert!(provider.function_mapper().is_some());
}

#[test]
fn test_federation_provider_with_rules() {
    let rule = Arc::new(MockTransformationRule::new());
    let provider = ClickHouseFederationProvider::new().with_rules(vec![rule.clone()]);
    assert_eq!(provider.transformation_rules().len(), 1);
}

#[test]
fn test_transform_applies_rules() -> Result<()> {
    let plan = LogicalPlanBuilder::empty(false).build()?;

    let rule = Arc::new(MockTransformationRule::new());
    let provider = ClickHouseFederationProvider::new().with_rules(vec![rule.clone()]);

    let _transformed = provider.transform(&plan)?;

    assert!(rule.was_applied());
    Ok(())
}

#[test]
fn test_transform_without_mapper() -> Result<()> {
    let plan = LogicalPlanBuilder::empty(false).build()?;

    let provider = ClickHouseFederationProvider::new();
    let transformed = provider.transform(&plan)?;

    assert_eq!(transformed.schema().fields().len(), 0);
    Ok(())
}

#[test]
fn test_default_implementation() {
    let provider = ClickHouseFederationProvider::default();
    assert!(provider.function_mapper().is_none());
    assert!(provider.transformation_rules().is_empty());
}

#[test]
fn test_function_mapper_trait_object() {
    let mapper: Arc<dyn FunctionMapper> = Arc::new(MockFunctionMapper::new());
    let provider = ClickHouseFederationProvider::new().with_function_mapper(mapper);
    assert!(provider.function_mapper().is_some());
}

#[test]
fn test_transformation_rule_trait_object() {
    let rule: Arc<dyn TransformationRule> = Arc::new(MockTransformationRule::new());
    let provider = ClickHouseFederationProvider::new().with_rules(vec![rule]);
    assert_eq!(provider.transformation_rules().len(), 1);
}

#[test]
fn test_transform_with_filter() -> Result<()> {
    let plan = LogicalPlanBuilder::empty(false).build()?;

    let provider = ClickHouseFederationProvider::new();
    let transformed = provider.transform(&plan)?;

    assert_eq!(transformed.schema().fields().len(), 0);
    Ok(())
}

#[test]
fn test_transform_with_function_mapper_translates_scalar() -> Result<()> {
    let original_udf = Arc::new(ScalarUDF::new_from_impl(NamedUdf::new("groupArray")));
    let target_udf = Arc::new(ScalarUDF::new_from_impl(NamedUdf::new("array_agg")));

    let mut mapper = MockFunctionMapper::new();
    drop(mapper.udf_mappings.insert("groupArray".to_string(), target_udf));

    let schema = Arc::new(Schema::new(vec![Field::new("x", DataType::Int32, false)]));
    let table_source =
        Arc::new(datafusion::logical_expr::logical_plan::builder::LogicalTableSource::new(schema));
    let plan = LogicalPlanBuilder::scan("t", table_source, None)?
        .project(vec![Expr::ScalarFunction(ScalarFunction::new_udf(
            original_udf,
            vec![datafusion::prelude::col("x")],
        ))])?
        .build()?;

    let provider = ClickHouseFederationProvider::new().with_function_mapper(Arc::new(mapper));
    let transformed = provider.transform(&plan)?;

    let mut found_array_agg = false;
    let _ = transformed.apply(|p| {
        p.apply_expressions(|e| {
            if let Expr::ScalarFunction(sf) = e {
                if sf.func.name() == "array_agg" {
                    found_array_agg = true;
                }
            }
            Ok(TreeNodeRecursion::Continue)
        })
    })?;
    assert!(found_array_agg, "Expected scalar function to be translated to array_agg");
    Ok(())
}

#[test]
fn test_rule_not_applied_when_no_match() -> Result<()> {
    let plan = LogicalPlanBuilder::empty(false).build()?;

    #[derive(Debug)]
    struct NeverMatchRule;
    impl TransformationRule for NeverMatchRule {
        fn matches(&self, _plan: &LogicalPlan) -> bool {
            false
        }
        fn transform(&self, _plan: &LogicalPlan) -> Result<LogicalPlan> {
            panic!("should not be called");
        }
    }

    let rule = Arc::new(NeverMatchRule);
    let provider = ClickHouseFederationProvider::new().with_rules(vec![rule]);
    let _transformed = provider.transform(&plan)?;
    Ok(())
}

#[test]
fn failing_rule_ends_the_run() {
    #[derive(Debug)]
    struct FailingRule;
    impl TransformationRule for FailingRule {
        fn matches(&self, _plan: &LogicalPlan) -> bool {
            true
        }
        fn transform(&self, _plan: &LogicalPlan) -> Result<LogicalPlan> {
            Err(DataFusionError::Plan("rule failed".to_string()))
        }
    }
    let plan = LogicalPlanBuilder::empty(false).build().unwrap();
    let later = Arc::new(MockTransformationRule::new());
    let provider = ClickHouseFederationProvider::new().with_rules(vec![Arc::new(FailingRule), later.clone()]);
    let err = provider.transform(&plan).unwrap_err();
    assert!(err.to_string().contains("rule failed"));
    assert!(!later.was_applied());
}

#[test]
fn unmapped_functions_are_left_alone() -> Result<()> {
    let udf = Arc::new(ScalarUDF::new_from_impl(NamedUdf::new("toDate")));
    let schema = Arc::new(Schema::new(vec![Field::new("x", DataType::Int32, false)]));
    let table_source =
        Arc::new(datafusion::logical_expr::logical_plan::builder::LogicalTableSource::new(schema));
    let plan = LogicalPlanBuilder::scan("t", table_source, None)?
        .project(vec![Expr::ScalarFunction(ScalarFunction::new_udf(udf, vec![datafusion::prelude::col("x")]))])?
        .build()?;
    let provider = ClickHouseFederationProvider::new().with_function_mapper(Arc::new(MockFunctionMapper::new()));
    let transformed = provider.transform(&plan)?;
    assert_eq!(transformed, plan);
    Ok(())
}

#[test]
fn test_federated_context_trait() {
    let ctx = SessionContext::new();
    assert!(!ctx.is_federated());

    let federated_ctx = ctx.federate();
    assert!(federated_ctx.is_federated());
}

#[test]
fn test_federated_context_idempotent() {
    let ctx = SessionContext::new();
    let federated_once = ctx.federate();
    let federated_twice = federated_once.federate();

    // Should still be federated
    assert!(federated_twice.is_federated());
}

#[test]
fn federated_session_keeps_a_session_that_runs_the_rule() {
    let ctx = SessionContext::new();
    assert!(!ctx.is_federated());
    let named = vec!["optimize_projections".to_string(), federation_rule_name().to_string()];
    let kept = federated_session(ctx, &named);
    assert!(!kept.is_federated());

    let rebuilt = federated_session(kept, &["optimize_projections".to_string()]);
    assert!(rebuilt.is_federated());
}

#[test]
fn rule_outcome_keeps_rewrites_and_errors_of_matching_rules_only() -> Result<()> {
    let plan = LogicalPlanBuilder::empty(false).build()?;
    let other = LogicalPlanBuilder::empty(true).build()?;

    // Not matched: the plan is unchanged, whatever the transform would give.
    assert_eq!(rule_outcome(plan.clone(), false, None)?, plan);
    assert_eq!(rule_outcome(plan.clone(), false, Some(Ok(other.clone())))?, plan);

    // Matched and rewritten: the rewrite.
    assert_eq!(rule_outcome(plan.clone(), true, Some(Ok(other.clone())))?, other);

    // Matched and failed: the error.
    let failed = rule_outcome(plan.clone(), true, Some(Err(DataFusionError::Plan("refused".to_string()))));
    match failed {
        Err(DataFusionError::Plan(message)) => assert_eq!(message, "refused"),
        other => panic!("unexpected outcome {other:?}"),
    }
    Ok(())
}
