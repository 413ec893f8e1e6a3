//! Properties that relate several operations of the library.

use crate::context::alias_is_registered;
use crate::dictget::{dict_get_return_type, DictGetErrorView, ScalarArgumentView};
use crate::dictionary::{DictionaryLayout, DictionaryMetadata, DictionarySchemaProvider};
use crate::federation::{answers_from_rules, asked_rule, rule_run, RuleAnswer, TransformationRule};
use crate::names::NameMap;
use datafusion::logical_expr::LogicalPlan;
use datafusion::common::DataFusionError;
use datafusion::arrow::datatypes::DataType;
use std::sync::Arc;
use vstd::prelude::*;

verus! {

/// After a dictionary is added to a schema (`add_dictionary`), the schema's
/// table names are the earlier ones and the dictionary's name, the table of
/// that name stands for the dictionary, and every other table is as before.
pub proof fn law_added_dictionary_is_a_table(
    before: DictionarySchemaProvider,
    after: DictionarySchemaProvider,
    metadata: Arc<DictionaryMetadata>,
    other: Seq<char>,
)
    requires
        after@ == before@.insert(metadata.name@, metadata),
    ensures
        after@.dom() == before@.dom().insert(metadata.name@),
        *after@[metadata.name@] == *metadata,
        other != metadata.name@ && before@.contains_key(other) ==> after@[other] == before@[other],
{
    assert(after@.dom() =~= before@.dom().insert(metadata.name@));
}

/// `dictGet` with 3 or 4 arguments whose first two are the constant names of
/// a dictionary and of one of its columns returns the type recorded for that
/// column; and whenever it returns a type, that is how it found it.
pub proof fn law_dict_get_returns_recorded_type(
    schema: Map<Seq<char>, Map<Seq<char>, DataType>>,
    arg_types: Seq<DataType>,
    slots: Seq<Option<ScalarArgumentView>>,
)
    ensures
        ({
            &&& arg_types.len() == 3 || arg_types.len() == 4
            &&& slots.len() >= 2
            &&& slots[0] matches Some(ScalarArgumentView::Utf8(d))
            &&& slots[1] matches Some(ScalarArgumentView::Utf8(c))
            &&& schema.contains_key(d)
            &&& schema[d].contains_key(c)
        }) ==> dict_get_return_type(schema, arg_types, slots) == Ok::<DataType, DictGetErrorView>(
            schema[slots[0]->Some_0->Utf8_0][slots[1]->Some_0->Utf8_0],
        ),
        dict_get_return_type(schema, arg_types, slots) matches Ok(t) ==> {
            &&& arg_types.len() == 3 || arg_types.len() == 4
            &&& slots.len() >= 2
            &&& slots[0] matches Some(ScalarArgumentView::Utf8(d))
            &&& slots[1] matches Some(ScalarArgumentView::Utf8(c))
            &&& schema.contains_key(d)
            &&& schema[d].contains_key(c)
            &&& t == schema[d][c]
        },
{
}

/// The outcome of `dictGet` with a wrong number of arguments does not depend
/// on the dictionaries: it is the argument count error.
pub proof fn law_dict_get_checks_count_first(
    schema1: Map<Seq<char>, Map<Seq<char>, DataType>>,
    schema2: Map<Seq<char>, Map<Seq<char>, DataType>>,
    arg_types: Seq<DataType>,
    slots: Seq<Option<ScalarArgumentView>>,
)
    requires
        arg_types.len() != 3 && arg_types.len() != 4,
    ensures
        dict_get_return_type(schema1, arg_types, slots) == dict_get_return_type(schema2, arg_types, slots),
        dict_get_return_type(schema1, arg_types, slots) == Err::<DataType, DictGetErrorView>(
            DictGetErrorView::ArgumentCount(arg_types.len()),
        ),
{
}

/// An alias is registered only for an original that is registered and has
/// it among its aliases; with no original registered, no alias is.
pub proof fn law_aliases_follow_their_originals(
    table: Map<Seq<char>, Set<Seq<char>>>,
    registered: Set<Seq<char>>,
    original: Seq<char>,
    alias: Seq<char>,
)
    ensures
        alias_is_registered(table, registered, original, alias) ==> registered.contains(original)
            && table[original].contains(alias),
        !alias_is_registered(table, Set::<Seq<char>>::empty(), original, alias),
{
}

/// Once a rule has failed, the run's result is that failure: whatever later
/// rules would answer changes nothing.
pub proof fn law_rule_failure_is_final(plan: LogicalPlan, answers: Seq<RuleAnswer>, later: Seq<RuleAnswer>)
    requires
        rule_run(plan, answers) is Err,
    ensures
        rule_run(plan, answers + later) == rule_run(plan, answers),
    decreases later.len(),
{
    if later.len() == 0 {
        assert(answers + later =~= answers);
    } else {
        law_rule_failure_is_final(plan, answers, later.drop_last());
        assert((answers + later).drop_last() =~= answers + later.drop_last());
    }
}

/// Rules that match nothing leave the plan as it was.
pub proof fn law_unmatched_rules_keep_the_plan(plan: LogicalPlan, answers: Seq<RuleAnswer>)
    requires
        forall|i: int| 0 <= i < answers.len() ==> !(#[trigger] answers[i]).0,
    ensures
        rule_run(plan, answers) == Ok::<LogicalPlan, DataFusionError>(plan),
    decreases answers.len(),
{
    if answers.len() > 0 {
        law_unmatched_rules_keep_the_plan(plan, answers.drop_last());
        assert(!answers[answers.len() - 1].0);
    }
}

/// A clone of a map of column types (`NameMap::clone`) holds the same type
/// under every column name as the original, and lists the names in the same
/// order.
pub proof fn law_cloned_columns_keep_their_types(original: NameMap<DataType>, copy: NameMap<DataType>)
    requires
        copy.key_seq() == original.key_seq(),
        copy@.dom() == original@.dom(),
        forall|k: Seq<char>| #[trigger] copy@.contains_key(k) ==> cloned::<DataType>(original@[k], copy@[k]),
    ensures
        copy@ == original@,
        forall|k: Seq<char>| #[trigger] original@.contains_key(k) ==> copy@[k] == original@[k],
{
    assert forall|k: Seq<char>| #[trigger] original@.contains_key(k) implies copy@[k] == original@[k] by {
        assert(copy@.contains_key(k));
        assert(cloned::<DataType>(original@[k], copy@[k]));
    }
    assert(copy@ =~= original@);
}

/// The key columns of a layout are its primary key, for the layouts with one,
/// and every column of a complex key, in order, for a complex-key layout.
pub proof fn law_key_columns_follow_the_layout(layout: DictionaryLayout)
    ensures
        layout matches DictionaryLayout::ComplexKeyHashed { key_columns } ==> layout.spec_key_columns().len()
            == key_columns@.len() && forall|i: int| 0 <= i < key_columns@.len()
            ==> #[trigger] layout.spec_key_columns()[i] == key_columns@[i]@,
        layout matches DictionaryLayout::Hashed { primary_key } ==> layout.spec_key_columns() == seq![primary_key@],
        layout matches DictionaryLayout::Flat { primary_key } ==> layout.spec_key_columns() == seq![primary_key@],
        layout matches DictionaryLayout::Range { primary_key, .. } ==> layout.spec_key_columns() == seq![primary_key@],
{
}

/// In a run of the rules, a rule that follows one that matched and rewrote
/// the plan to `q` is asked about `q`, and its answers are answers about `q`:
/// each rule sees the plan the rules before it left, not the original plan.
pub proof fn law_rules_see_earlier_rewrites(
    rules: Seq<Arc<dyn TransformationRule>>,
    plan: LogicalPlan,
    answers: Seq<RuleAnswer>,
    i: int,
    q: LogicalPlan,
)
    requires
        answers_from_rules(rules, plan, answers),
        0 < i < answers.len(),
        rule_run(plan, answers.take(i - 1)) is Ok,
        answers[i - 1] == (true, Some(Ok::<LogicalPlan, DataFusionError>(q))),
    ensures
        rule_run(plan, answers.take(i)) == Ok::<LogicalPlan, DataFusionError>(q),
        rules[i].gives_match(q, answers[i].0),
        answers[i].1 matches Some(o) ==> rules[i].gives_transform(q, o),
{
    assert(answers.take(i).drop_last() =~= answers.take(i - 1));
    assert(answers.take(i).last() == answers[i - 1]);
    assert(asked_rule(rules, plan, answers, i));
}

} // verus!
