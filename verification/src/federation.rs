//! Federation of ClickHouse plans: whether a session already runs the
//! federation optimizer rule, and the provider that prepares logical plans
//! for ClickHouse (transformation rules, then function dealiasing).

use datafusion::common::tree_node::{Transformed, TreeNode, TreeNodeRecursion};
use datafusion::common::DataFusionError;
use datafusion::logical_expr::expr::{AggregateFunction, ScalarFunction, WindowFunction};
use datafusion::logical_expr::{AggregateUDF, Expr, LogicalPlan, ScalarUDF, WindowFunctionDefinition};
use datafusion::execution::{SessionState, SessionStateBuilder};
use datafusion::prelude::SessionContext;
use datafusion_federation::{default_optimizer_rules, FederatedQueryPlanner};
use std::sync::Arc;
use vstd::prelude::*;

verus! {

/// The name of the optimizer rule that federates query plans.
pub open spec fn federation_rule() -> Seq<char> {
    "federation_optimizer_rule"@
}

/// The name of the optimizer rule that federates query plans.
pub fn federation_rule_name() -> (n: &'static str)
    ensures
        n@ == federation_rule(),
{
    "federation_optimizer_rule"
}

/// Whether a session whose optimizer runs the rules of the given names is
/// federated: whether one of them is the federation rule.
pub fn has_federation_rule(rule_names: &[String]) -> (b: bool)
    ensures
        b == exists|i: int| 0 <= i < rule_names@.len() && #[trigger] rule_names@[i]@ == federation_rule(),
{
    let rule = federation_rule_name().to_owned();
    let n: usize = rule_names.len();
    for i in 0..n
        invariant
            n == rule_names@.len(),
            rule@ == federation_rule(),
            forall|j: int| 0 <= j < i ==> #[trigger] rule_names@[j]@ != federation_rule(),
    {
        if rule_names[i] == rule {
            return true;
        }
    }
    false
}

/// A DataFusion session.
#[verifier::external_type_specification]
#[verifier::external_body]
pub struct ExSessionContext(SessionContext);

/// The state of a DataFusion session.
#[verifier::external_type_specification]
#[verifier::external_body]
pub struct ExSessionState(SessionState);

/// A builder of DataFusion session states.
#[verifier::external_type_specification]
#[verifier::external_body]
pub struct ExSessionStateBuilder(SessionStateBuilder);

/// The query planner of `datafusion_federation`.
#[verifier::external_type_specification]
#[verifier::external_body]
pub struct ExFederatedQueryPlanner(FederatedQueryPlanner);

/// The names of the rules of a session state's optimizer, in order.
pub uninterp spec fn state_rule_names(s: SessionState) -> Seq<Seq<char>>;

/// Whether a session state plans queries with `datafusion_federation`'s
/// `FederatedQueryPlanner`.
pub uninterp spec fn state_plans_federated(s: SessionState) -> bool;

/// Whether the optimizer that a session state builder holds runs a rule of
/// the given name.
pub uninterp spec fn builder_runs_rule(b: SessionStateBuilder, rule: Seq<char>) -> bool;

/// Whether a session state builder holds `datafusion_federation`'s
/// `FederatedQueryPlanner` as its query planner.
pub uninterp spec fn builder_plans_federated(b: SessionStateBuilder) -> bool;

/// The state a session was made from by `SessionContext::new_with_state`
/// (what the session holds later can change through shared references).
pub uninterp spec fn session_made_from(ctx: SessionContext) -> SessionState;

/// Whether a session state's optimizer runs a rule of the given name.
pub open spec fn state_runs_rule(s: SessionState, rule: Seq<char>) -> bool {
    state_rule_names(s).contains(rule)
}

/// Calls `SessionContext::state`: a copy of the session's current state.
/// Nothing is stated of it: a session's state can change through a shared
/// reference.
#[verifier::external_body]
fn session_state(ctx: &SessionContext) -> SessionState {
    ctx.state()
}

/// The names (`OptimizerRule::name`) of the rules of the state's optimizer
/// (`SessionState::optimizer`), in order.
#[verifier::external_body]
fn optimizer_rule_names(state: &SessionState) -> (names: Vec<String>)
    ensures
        names@.map_values(|n: String| n@) == state_rule_names(*state),
{
    state.optimizer().rules.iter().map(|rule| rule.name().to_string()).collect()
}

/// Calls `SessionContext::into_state_builder`.
#[verifier::external_body]
fn into_state_builder(ctx: SessionContext) -> SessionStateBuilder {
    ctx.into_state_builder()
}

/// Calls `datafusion_federation::default_optimizer_rules` (DataFusion's rules
/// with the federation rule, named `federation_optimizer_rule`, added), and
/// gives them to `SessionStateBuilder::with_optimizer_rules`, which makes the
/// builder's optimizer run exactly those rules.
#[verifier::external_body]
fn with_federation_rules(builder: SessionStateBuilder) -> (r: SessionStateBuilder)
    ensures
        builder_runs_rule(r, federation_rule()),
{
    builder.with_optimizer_rules(default_optimizer_rules())
}

/// Calls `FederatedQueryPlanner::new`.
#[verifier::external_body]
fn federated_query_planner() -> FederatedQueryPlanner {
    FederatedQueryPlanner::new()
}

/// Calls `SessionStateBuilder::with_query_planner` with the given planner,
/// which sets the builder's planner and leaves its optimizer as it was.
#[verifier::external_body]
fn with_query_planner(builder: SessionStateBuilder, planner: FederatedQueryPlanner) -> (r: SessionStateBuilder)
    ensures
        builder_plans_federated(r),
        forall|rule: Seq<char>| #[trigger] builder_runs_rule(r, rule) == builder_runs_rule(builder, rule),
{
    builder.with_query_planner(Arc::new(planner))
}

/// Calls `SessionStateBuilder::build`: the state's optimizer is the builder's
/// (rules are only added after it), and its planner is the builder's planner
/// when one was set.
#[verifier::external_body]
fn build_state(builder: SessionStateBuilder) -> (s: SessionState)
    ensures
        forall|rule: Seq<char>| #[trigger] builder_runs_rule(builder, rule) ==> state_runs_rule(s, rule),
        builder_plans_federated(builder) ==> state_plans_federated(s),
{
    builder.build()
}

/// Calls `SessionContext::new_with_state`, which makes a session that holds
/// the given state.
#[verifier::external_body]
fn session_with_state(state: SessionState) -> (ctx: SessionContext)
    ensures
        session_made_from(ctx) == state,
{
    SessionContext::new_with_state(state)
}

/// Enabling federated query execution on a session: DataFusion's optimizer
/// then pushes whole query subtrees down to the remote ClickHouse server.
pub trait FederatedContext {
    /// The session with federation enabled (the session itself when it is
    /// federated already).
    fn federate(self) -> SessionContext;

    /// Whether the session's optimizer runs the federation rule.
    fn is_federated(&self) -> bool;
}

/// Whether a session state's optimizer runs the federation rule.
pub fn state_is_federated(state: &SessionState) -> (b: bool)
    ensures
        b == state_runs_rule(*state, federation_rule()),
{
    let names = optimizer_rule_names(state);
    let b = has_federation_rule(&names);
    proof {
        let named = names@.map_values(|n: String| n@);
        if b {
            let i = choose|i: int| 0 <= i < names@.len() && #[trigger] names@[i]@ == federation_rule();
            assert(named[i] == federation_rule());
        }
        if state_runs_rule(*state, federation_rule()) {
            let i = choose|i: int| 0 <= i < named.len() && named[i] == federation_rule();
            assert(names@[i]@ == federation_rule());
        }
    }
    b
}

/// The state of the session rebuilt for federation: its optimizer runs
/// DataFusion's rules with the federation rule added, and it plans queries
/// with the federated query planner.
pub fn federated_state(ctx: SessionContext) -> (s: SessionState)
    ensures
        state_runs_rule(s, federation_rule()),
        state_plans_federated(s),
{
    let builder = with_federation_rules(into_state_builder(ctx));
    let planned = with_query_planner(builder, federated_query_planner());
    assert(builder_runs_rule(planned, federation_rule()) == builder_runs_rule(builder, federation_rule()));
    build_state(planned)
}

/// The session with federation enabled, given the names of the rules its
/// optimizer runs: the session itself when one of them is the federation
/// rule, else a session made from its federated state.
pub fn federated_session(ctx: SessionContext, rule_names: &[String]) -> (r: SessionContext)
    ensures
        (exists|i: int| 0 <= i < rule_names@.len() && #[trigger] rule_names@[i]@ == federation_rule())
            ==> r == ctx,
        !(exists|i: int| 0 <= i < rule_names@.len() && #[trigger] rule_names@[i]@ == federation_rule())
            ==> state_runs_rule(session_made_from(r), federation_rule()) && state_plans_federated(
            session_made_from(r),
        ),
{
    if has_federation_rule(rule_names) {
        ctx
    } else {
        session_with_state(federated_state(ctx))
    }
}

impl FederatedContext for SessionContext {
    fn federate(self) -> (r: SessionContext)
        ensures
            r == self || (state_runs_rule(session_made_from(r), federation_rule()) && state_plans_federated(
                session_made_from(r),
            )),
    {
        let state = session_state(&self);
        let rule_names = optimizer_rule_names(&state);
        federated_session(self, &rule_names)
    }

    fn is_federated(&self) -> bool {
        state_is_federated(&session_state(self))
    }
}

/// A logical plan of DataFusion; carried through.
#[verifier::external_type_specification]
#[verifier::external_body]
pub struct ExLogicalPlan(LogicalPlan);

/// An expression of DataFusion; carried through.
#[verifier::external_type_specification]
#[verifier::external_body]
pub struct ExExpr(Expr);

/// A scalar function of DataFusion.
#[verifier::external_type_specification]
#[verifier::external_body]
pub struct ExScalarUDF(ScalarUDF);

/// An aggregate function of DataFusion.
#[verifier::external_type_specification]
#[verifier::external_body]
pub struct ExAggregateUDF(AggregateUDF);

/// An error of DataFusion.
#[verifier::external_type_specification]
#[verifier::external_body]
pub struct ExDataFusionError(DataFusionError);

/// The outcome of a rewrite step of a DataFusion tree.
#[verifier::external_type_specification]
#[verifier::external_body]
#[verifier::reject_recursive_types(T)]
pub struct ExTransformed<T>(Transformed<T>);

/// `LogicalPlan::clone` (a derived `Clone`) gives back an equal plan.
pub assume_specification[ <LogicalPlan as Clone>::clone ](p: &LogicalPlan) -> (r: LogicalPlan)
    ensures
        r == *p,
;

/// Maps functions to the functions they are aliases of, when translating plans
/// for ClickHouse. Implemented by users of the library; nothing is assumed of
/// what an implementation returns.
pub trait FunctionMapper: Send + Sync {
    /// Try to dealias a scalar function (return the original function if aliased).
    fn try_dealias_udf(&self, udf: &Arc<ScalarUDF>) -> Option<Arc<ScalarUDF>>;

    /// Try to dealias an aggregate function.
    fn try_dealias_udaf(&self, udaf: &Arc<AggregateUDF>) -> Option<Arc<AggregateUDF>>;
}

/// A rewrite of logical plans, applied to the plans it matches. Implemented by
/// users of the library; nothing is assumed of what an implementation returns.
///
/// `gives_match` and `gives_transform` relate a plan to the answers the rule
/// gives about it: an answer is one the rule gives about the plan it was
/// asked about. An implementation may answer the same plan differently from
/// one call to the next; one that does not define the relations relates
/// every answer to every plan.
pub trait TransformationRule: Send + Sync {
    /// `answer` is an answer of this rule's `matches` about `plan`.
    closed spec fn gives_match(&self, plan: LogicalPlan, answer: bool) -> bool {
        true
    }

    /// `outcome` is an outcome of this rule's `transform` of `plan`.
    closed spec fn gives_transform(&self, plan: LogicalPlan, outcome: Result<LogicalPlan, DataFusionError>) -> bool {
        true
    }

    /// Check if this rule applies to the given plan.
    fn matches(&self, plan: &LogicalPlan) -> (b: bool)
        ensures
            self.gives_match(*plan, b),
    ;

    /// Transform the plan.
    fn transform(&self, plan: &LogicalPlan) -> (r: Result<LogicalPlan, DataFusionError>)
        ensures
            self.gives_transform(*plan, r),
    ;
}

/// The function that an expression calls, as far as dealiasing is concerned.
pub enum FunctionCall {
    /// A call of a scalar function.
    Scalar(Arc<ScalarUDF>),
    /// A call of an aggregate function.
    Aggregate(Arc<AggregateUDF>),
    /// A window function whose function is an aggregate function.
    AggregateWindow(Arc<AggregateUDF>),
    /// Anything else (other expressions, window functions of their own kind).
    Other,
}

/// The function call that `function_call_of` finds in an expression.
pub uninterp spec fn function_call(e: Expr) -> FunctionCall;

/// The expression that `rebuild_scalar_call` makes: `e`'s scalar call, with `udf`.
pub uninterp spec fn scalar_call_with(e: Expr, udf: Arc<ScalarUDF>) -> Expr;

/// The expression that `rebuild_aggregate_call` makes: `e`'s aggregate call, with `udaf`.
pub uninterp spec fn aggregate_call_with(e: Expr, udaf: Arc<AggregateUDF>) -> Expr;

/// The expression that `rebuild_window_call` makes: `e`'s window call, with `udaf`.
pub uninterp spec fn window_call_with(e: Expr, udaf: Arc<AggregateUDF>) -> Expr;

/// The data of a rewrite outcome of an expression (its `data` field).
pub uninterp spec fn transformed_expr(t: Transformed<Expr>) -> Expr;

/// Whether a rewrite outcome of an expression records a change (its `transformed` field).
pub uninterp spec fn transformed_flag(t: Transformed<Expr>) -> bool;

/// Tells the variants of `Expr` apart: a scalar call, an aggregate call, a
/// window call of an aggregate function, or anything else; gives the
/// function that the call holds.
#[verifier::external_body]
fn function_call_of(e: &Expr) -> (c: FunctionCall)
    ensures
        c == function_call(*e),
{
    match e {
        Expr::ScalarFunction(f) => FunctionCall::Scalar(Arc::clone(&f.func)),
        Expr::AggregateFunction(f) => FunctionCall::Aggregate(Arc::clone(&f.func)),
        Expr::WindowFunction(w) => match &w.fun {
            WindowFunctionDefinition::AggregateUDF(f) => FunctionCall::AggregateWindow(Arc::clone(f)),
            WindowFunctionDefinition::WindowUDF(_) => FunctionCall::Other,
        },
        _ => FunctionCall::Other,
    }
}

/// Calls `ScalarFunction::new_udf` with `udf` and the arguments of `e`'s call.
#[verifier::external_body]
fn rebuild_scalar_call(e: &Expr, udf: Arc<ScalarUDF>) -> (r: Expr)
    requires
        function_call(*e) is Scalar,
    ensures
        r == scalar_call_with(*e, udf),
{
    match e {
        Expr::ScalarFunction(f) => Expr::ScalarFunction(ScalarFunction::new_udf(udf, f.args.clone())),
        other => other.clone(),
    }
}

/// Calls `AggregateFunction::new_udf` with `udaf` and the arguments, distinctness,
/// filter, ordering and null treatment of `e`'s call.
#[verifier::external_body]
fn rebuild_aggregate_call(e: &Expr, udaf: Arc<AggregateUDF>) -> (r: Expr)
    requires
        function_call(*e) is Aggregate,
    ensures
        r == aggregate_call_with(*e, udaf),
{
    match e {
        Expr::AggregateFunction(f) => Expr::AggregateFunction(AggregateFunction::new_udf(
            udaf,
            f.params.args.clone(),
            f.params.distinct,
            f.params.filter.clone(),
            f.params.order_by.clone(),
            f.params.null_treatment,
        )),
        other => other.clone(),
    }
}

/// Makes a `WindowFunction` of `udaf` with the parameters of `e`'s window call.
#[verifier::external_body]
fn rebuild_window_call(e: &Expr, udaf: Arc<AggregateUDF>) -> (r: Expr)
    requires
        function_call(*e) is AggregateWindow,
    ensures
        r == window_call_with(*e, udaf),
{
    match e {
        Expr::WindowFunction(w) => Expr::WindowFunction(Box::new(WindowFunction {
            fun: WindowFunctionDefinition::AggregateUDF(udaf),
            params: w.params.clone(),
        })),
        other => other.clone(),
    }
}

/// Calls `Transformed::new` with `e`, `changed` and `TreeNodeRecursion::Continue`.
#[verifier::external_body]
fn rewrite_outcome(e: Expr, changed: bool) -> (t: Transformed<Expr>)
    ensures
        transformed_expr(t) == e,
        transformed_flag(t) == changed,
{
    Transformed::new(e, changed, TreeNodeRecursion::Continue)
}

/// `d` is the function call of `e` with the function replaced by another of
/// the same kind (scalar, aggregate, or aggregate window).
pub open spec fn is_dealiased_call(e: Expr, d: Expr) -> bool {
    match function_call(e) {
        FunctionCall::Scalar(_) => exists|g: Arc<ScalarUDF>| d == #[trigger] scalar_call_with(e, g),
        FunctionCall::Aggregate(_) => exists|g: Arc<AggregateUDF>| d == #[trigger] aggregate_call_with(e, g),
        FunctionCall::AggregateWindow(_) => exists|g: Arc<AggregateUDF>| d == #[trigger] window_call_with(e, g),
        FunctionCall::Other => false,
    }
}

/// The scalar call `e` with the function the mapper answered, marked as
/// changed; nothing when the mapper answered nothing.
pub fn dealiased_scalar_call(e: &Expr, found: Option<Arc<ScalarUDF>>) -> (r: Option<Transformed<Expr>>)
    requires
        function_call(*e) is Scalar,
    ensures
        found is None ==> r is None,
        found matches Some(g) ==> r matches Some(t) && transformed_flag(t) && transformed_expr(t)
            == scalar_call_with(*e, g),
{
    match found {
        Some(function) => Some(rewrite_outcome(rebuild_scalar_call(e, function), true)),
        None => None,
    }
}

/// Try to transform a scalar function call using the mapper.
fn try_transform_scalar_func<M: FunctionMapper + ?Sized>(e: &Expr, func: &Arc<ScalarUDF>, mapper: &M) -> (r: Option<Transformed<Expr>>)
    requires
        function_call(*e) == FunctionCall::Scalar(*func),
    ensures
        r matches Some(t) ==> transformed_flag(t) && is_dealiased_call(*e, transformed_expr(t)),
{
    dealiased_scalar_call(e, mapper.try_dealias_udf(func))
}

/// The aggregate call `e` with the function the mapper answered, marked as
/// changed; nothing when the mapper answered nothing.
pub fn dealiased_aggregate_call(e: &Expr, found: Option<Arc<AggregateUDF>>) -> (r: Option<Transformed<Expr>>)
    requires
        function_call(*e) is Aggregate,
    ensures
        found is None ==> r is None,
        found matches Some(g) ==> r matches Some(t) && transformed_flag(t) && transformed_expr(t)
            == aggregate_call_with(*e, g),
{
    match found {
        Some(function) => Some(rewrite_outcome(rebuild_aggregate_call(e, function), true)),
        None => None,
    }
}

/// Try to transform an aggregate function call using the mapper.
fn try_transform_aggregate_func<M: FunctionMapper + ?Sized>(e: &Expr, func: &Arc<AggregateUDF>, mapper: &M) -> (r: Option<Transformed<Expr>>)
    requires
        function_call(*e) == FunctionCall::Aggregate(*func),
    ensures
        r matches Some(t) ==> transformed_flag(t) && is_dealiased_call(*e, transformed_expr(t)),
{
    dealiased_aggregate_call(e, mapper.try_dealias_udaf(func))
}

/// The window call `e` with the aggregate function the mapper answered,
/// marked as changed; nothing when the mapper answered nothing.
pub fn dealiased_window_call(e: &Expr, found: Option<Arc<AggregateUDF>>) -> (r: Option<Transformed<Expr>>)
    requires
        function_call(*e) is AggregateWindow,
    ensures
        found is None ==> r is None,
        found matches Some(g) ==> r matches Some(t) && transformed_flag(t) && transformed_expr(t)
            == window_call_with(*e, g),
{
    match found {
        Some(function) => Some(rewrite_outcome(rebuild_window_call(e, function), true)),
        None => None,
    }
}

/// Try to transform a window function using the mapper: only a window
/// function of an aggregate function is dealiased.
fn try_transform_window_func<M: FunctionMapper + ?Sized>(e: &Expr, func: &Arc<AggregateUDF>, mapper: &M) -> (r: Option<Transformed<Expr>>)
    requires
        function_call(*e) == FunctionCall::AggregateWindow(*func),
    ensures
        r matches Some(t) ==> transformed_flag(t) && is_dealiased_call(*e, transformed_expr(t)),
{
    dealiased_window_call(e, mapper.try_dealias_udaf(func))
}

/// The outcome of translating `expr`: the rewrite when there is one, else
/// `expr` itself, marked as unchanged.
pub fn transformed_or_unchanged(expr: Expr, remapped: Option<Transformed<Expr>>) -> (t: Transformed<Expr>)
    ensures
        remapped matches Some(x) ==> t == x,
        remapped is None ==> !transformed_flag(t) && transformed_expr(t) == expr,
{
    match remapped {
        Some(x) => x,
        None => rewrite_outcome(expr, false),
    }
}

/// Translate the function call of one expression using the mapper: the
/// dealiased call, marked as changed, or the expression itself, marked as
/// unchanged. An expression that calls no function is always unchanged.
pub fn translate_expr<M: FunctionMapper + ?Sized>(expr: Expr, mapper: &M) -> (r: Result<Transformed<Expr>, DataFusionError>)
    ensures
        r matches Ok(t) && {
            &&& transformed_flag(t) ==> is_dealiased_call(expr, transformed_expr(t))
            &&& !transformed_flag(t) ==> transformed_expr(t) == expr
            &&& function_call(expr) is Other ==> !transformed_flag(t)
        },
{
    let remapped = match function_call_of(&expr) {
        FunctionCall::Scalar(f) => try_transform_scalar_func(&expr, &f, mapper),
        FunctionCall::Aggregate(f) => try_transform_aggregate_func(&expr, &f, mapper),
        FunctionCall::AggregateWindow(f) => try_transform_window_func(&expr, &f, mapper),
        FunctionCall::Other => None,
    };
    Ok(transformed_or_unchanged(expr, remapped))
}

/// Calls `TreeNode::transform` on `expr`, translating every expression of its
/// tree with `translate_expr`; nothing is stated of the result, which is the
/// outside traversal's.
#[verifier::external_body]
fn translate_expr_tree(expr: Expr, mapper: &dyn FunctionMapper) -> Result<Transformed<Expr>, DataFusionError> {
    expr.transform(|e| translate_expr(e, mapper))
}

/// Calls `LogicalPlan::map_expressions` on `plan`, translating each expression
/// tree of the node; nothing is stated of the result.
#[verifier::external_body]
fn translate_plan(plan: LogicalPlan, mapper: &dyn FunctionMapper) -> Result<Transformed<LogicalPlan>, DataFusionError> {
    plan.map_expressions(|expr| translate_expr_tree(expr, mapper))
}

/// Calls `TreeNode::transform` on `plan`, translating the expressions of each
/// node with `translate_plan`, and keeps the resulting plan; nothing is stated
/// of the result.
#[verifier::external_body]
fn translate_plan_tree(plan: LogicalPlan, mapper: &dyn FunctionMapper) -> Result<LogicalPlan, DataFusionError> {
    plan.transform(|p| translate_plan(p, mapper)).map(|t| t.data)
}

/// Federation provider for ClickHouse: prepares logical plans for execution
/// on ClickHouse with transformation rules and function dealiasing.
pub struct ClickHouseFederationProvider {
    function_mapper: Option<Arc<dyn FunctionMapper>>,
    transformation_rules: Vec<Arc<dyn TransformationRule>>,
}

impl ClickHouseFederationProvider {
    /// The function mapper of the provider.
    pub closed spec fn spec_function_mapper(&self) -> Option<Arc<dyn FunctionMapper>> {
        self.function_mapper
    }

    /// The transformation rules of the provider, in order.
    pub closed spec fn spec_rules(&self) -> Seq<Arc<dyn TransformationRule>> {
        self.transformation_rules@
    }

    /// Create a provider with no function mapper and no rules.
    pub fn new() -> (p: Self)
        ensures
            p.spec_function_mapper() is None,
            p.spec_rules() == Seq::<Arc<dyn TransformationRule>>::empty(),
    {
        ClickHouseFederationProvider { function_mapper: None, transformation_rules: Vec::new() }
    }

    /// Add a function mapper for translating functions during federation.
    pub fn with_function_mapper(self, mapper: Arc<dyn FunctionMapper>) -> (p: Self)
        ensures
            p.spec_function_mapper() == Some(mapper),
            p.spec_rules() == self.spec_rules(),
    {
        let mapper_slot = Option::Some(mapper);
        ClickHouseFederationProvider { function_mapper: mapper_slot, transformation_rules: self.transformation_rules }
    }

    /// Set the transformation rules for plan optimization.
    pub fn with_rules(self, rules: Vec<Arc<dyn TransformationRule>>) -> (p: Self)
        ensures
            p.spec_function_mapper() == self.spec_function_mapper(),
            p.spec_rules() == rules@,
    {
        let mut p = self;
        p.transformation_rules = rules;
        p
    }

    /// The function mapper of the provider.
    pub fn function_mapper(&self) -> (m: &Option<Arc<dyn FunctionMapper>>)
        ensures
            *m == self.spec_function_mapper(),
    {
        &self.function_mapper
    }

    /// The transformation rules of the provider.
    pub fn transformation_rules(&self) -> (r: &Vec<Arc<dyn TransformationRule>>)
        ensures
            r@ == self.spec_rules(),
    {
        &self.transformation_rules
    }

    /// Transform a plan for ClickHouse execution: the rules, in order (each
    /// rewrites the plan when it matches it; the first failure ends the run),
    /// then, with a function mapper, the translation of every function call.
    ///
    /// Rule `i` is asked about the plan as the rules before it left it; the
    /// answers the rules gave (`answers`, one per rule asked) make the result
    /// as `rule_run` says, and no rule is asked after one fails.
    pub fn transform(&self, plan: &LogicalPlan) -> (r: Result<LogicalPlan, DataFusionError>)
        ensures
            self.spec_rules().len() == 0 && self.spec_function_mapper() is None
                ==> r == Ok::<LogicalPlan, DataFusionError>(*plan),
            exists|answers: Seq<RuleAnswer>, ended: Result<LogicalPlan, DataFusionError>|
                #![trigger rules_end_in(*plan, answers, self.spec_rules().len(), ended)]
                rules_end_in(*plan, answers, self.spec_rules().len(), ended)
                    && answers_from_rules(self.spec_rules(), *plan, answers)
                    && (ended is Err || self.spec_function_mapper() is None ==> r == ended),
    {
        let mut transformed_plan = plan.clone();
        let ghost mut answers: Seq<RuleAnswer> = Seq::empty();
        let n: usize = self.transformation_rules.len();
        let mut i: usize = 0;
        while i < n
            invariant
                n == self.spec_rules().len(),
                i <= n,
                answers.len() == i,
                answers_coherent(answers),
                answers_from_rules(self.spec_rules(), *plan, answers),
                rule_run(*plan, answers) == Ok::<LogicalPlan, DataFusionError>(transformed_plan),
            decreases n - i,
        {
            let rule = &self.transformation_rules[i];
            let matched = rule.matches(&transformed_plan);
            let outcome = if matched {
                Some(rule.transform(&transformed_plan))
            } else {
                None
            };
            let ghost before = answers;
            proof {
                answers = answers.push((matched, outcome));
                assert(answers.drop_last() =~= before);
                assert(answers.take(i as int) =~= before);
                assert(answers_coherent(answers));
                assert forall|j: int| 0 <= j < answers.len() implies #[trigger] asked_rule(
                    self.spec_rules(),
                    *plan,
                    answers,
                    j,
                ) by {
                    if j < i {
                        assert(answers.take(j) =~= before.take(j));
                        assert(answers[j] == before[j]);
                        assert(asked_rule(self.spec_rules(), *plan, before, j));
                    }
                }
            }
            match rule_outcome(transformed_plan, matched, outcome) {
                Ok(next) => {
                    transformed_plan = next;
                },
                Err(e) => {
                    assert(rules_end_in(*plan, answers, n as nat, Err::<LogicalPlan, DataFusionError>(e)));
                    return Err(e);
                },
            }
            i = i + 1;
        }
        assert(rules_end_in(*plan, answers, n as nat, Ok::<LogicalPlan, DataFusionError>(transformed_plan)));
        match &self.function_mapper {
            Some(mapper) => translate_plan_tree(transformed_plan, &**mapper),
            None => Ok(transformed_plan),
        }
    }
}

/// What one rule answered about a plan: whether it matched the plan, and
/// what its transform returned when it was asked to rewrite it.
pub type RuleAnswer = (bool, Option<Result<LogicalPlan, DataFusionError>>);

/// What one rule's answer makes of the plan: the transform's outcome when the
/// rule matched and rewrote it, else the plan unchanged.
pub open spec fn rule_step(
    plan: LogicalPlan,
    matched: bool,
    outcome: Option<Result<LogicalPlan, DataFusionError>>,
) -> Result<LogicalPlan, DataFusionError> {
    match outcome {
        Some(result) if matched => result,
        _ => Ok(plan),
    }
}

/// What the rules' answers, in order, make of a plan: each answer applies to
/// the plan the earlier ones left, and the first failure is the result.
pub open spec fn rule_run(plan: LogicalPlan, answers: Seq<RuleAnswer>) -> Result<LogicalPlan, DataFusionError>
    decreases answers.len(),
{
    if answers.len() == 0 {
        Ok(plan)
    } else {
        match rule_run(plan, answers.drop_last()) {
            Ok(q) => rule_step(q, answers.last().0, answers.last().1),
            Err(e) => Err(e),
        }
    }
}

/// Answer `i` is one that rule `i` gave about the plan the answers before it
/// left (and there is such a plan: no earlier rule failed).
pub open spec fn asked_rule(
    rules: Seq<Arc<dyn TransformationRule>>,
    plan: LogicalPlan,
    answers: Seq<RuleAnswer>,
    i: int,
) -> bool {
    match rule_run(plan, answers.take(i)) {
        Ok(q) => rules[i].gives_match(q, answers[i].0) && (answers[i].1 matches Some(o) ==> rules[i].gives_transform(
            q,
            o,
        )),
        Err(_) => false,
    }
}

/// Each answer is one that the rule at its position gave about the plan the
/// answers before it left.
pub open spec fn answers_from_rules(
    rules: Seq<Arc<dyn TransformationRule>>,
    plan: LogicalPlan,
    answers: Seq<RuleAnswer>,
) -> bool {
    forall|i: int| 0 <= i < answers.len() ==> #[trigger] asked_rule(rules, plan, answers, i)
}

/// A rule was asked to rewrite the plan exactly when it matched it.
pub open spec fn answers_coherent(answers: Seq<RuleAnswer>) -> bool {
    forall|i: int| 0 <= i < answers.len() ==> (#[trigger] answers[i]).0 == answers[i].1 is Some
}

/// The run of `n` rules on `plan` with these answers ends in `ended`: either
/// every rule answered and `ended` is the rewritten plan, or the last rule
/// asked failed (those before it did not) and `ended` is its error.
pub open spec fn rules_end_in(
    plan: LogicalPlan,
    answers: Seq<RuleAnswer>,
    n: nat,
    ended: Result<LogicalPlan, DataFusionError>,
) -> bool {
    &&& answers.len() <= n
    &&& answers_coherent(answers)
    &&& rule_run(plan, answers) == ended
    &&& match ended {
        Ok(_) => answers.len() == n,
        Err(_) => answers.len() > 0 && rule_run(plan, answers.drop_last()) is Ok,
    }
}

/// One rule's step of `transform`: the plan the rule's transform returned
/// when it matched (its error, when it failed), else the plan unchanged.
pub fn rule_outcome(
    plan: LogicalPlan,
    matched: bool,
    outcome: Option<Result<LogicalPlan, DataFusionError>>,
) -> (r: Result<LogicalPlan, DataFusionError>)
    ensures
        r == rule_step(plan, matched, outcome),
{
    match outcome {
        Some(result) if matched => result,
        _ => Ok(plan),
    }
}

impl Default for ClickHouseFederationProvider {
    /// A provider with no function mapper and no rules.
    fn default() -> (p: Self)
        ensures
            p.spec_function_mapper() is None,
            p.spec_rules() == Seq::<Arc<dyn TransformationRule>>::empty(),
    {
        Self::new()
    }
}

} // verus!
