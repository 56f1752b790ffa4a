//! Properties that relate several runs of the evaluators.

use vstd::prelude::*;

use crate::checks::{arguments_fail, class_fails, evaluation, method_fail};
use crate::classfile::{ClassFile, Constant, MethodInfo};
use crate::descriptor::parameter_count;
use crate::pool::lookup_utf8;
use crate::config::{configured_rule, rules_for, selected_rules, Setting};
use crate::rule::{all_rule_kinds, kind_of_key, lemma_key_names_kind, result_text, Rule, RuleKind, RuleResultView};

verus! {

/// Running a rule depends on the rule, the class and the file name alone: two
/// runs on the same inputs give equal results, hence the same report text.
pub proof fn lemma_run_is_pure(rule: Rule, c: ClassFile, file: Seq<char>, first: RuleResultView, second: RuleResultView)
    requires
        first == evaluation(c, rule.spec_kind(), rule.spec_parameter(), file),
        second == evaluation(c, rule.spec_kind(), rule.spec_parameter(), file),
    ensures
        first == second,
        result_text(first) == result_text(second),
{
}

/// For a method whose name and descriptor resolve and whose descriptor parses,
/// `TooManyArguments` flags it exactly when its parameter count exceeds the threshold.
pub proof fn lemma_arguments_threshold(pool: Seq<Constant>, m: MethodInfo, max_arguments: u8)
    requires
        lookup_utf8(pool, m.name_index as int) is Ok,
        lookup_utf8(pool, m.descriptor_index as int) is Ok,
        parameter_count(lookup_utf8(pool, m.descriptor_index as int)->Ok_0) is Some,
    ensures
        arguments_fail(pool, m, max_arguments) is Some
            <==> parameter_count(lookup_utf8(pool, m.descriptor_index as int)->Ok_0)->Some_0 > max_arguments,
{
}

/// Raising the threshold of `TooManyArguments` never flags a method that a
/// lower threshold passed.
pub proof fn lemma_arguments_monotone(pool: Seq<Constant>, m: MethodInfo, low: u8, high: u8)
    requires
        low <= high,
    ensures
        arguments_fail(pool, m, high) is Some ==> arguments_fail(pool, m, low) is Some,
{
}

/// Raising the threshold of `TooManyArguments` never adds a violation to a
/// class's result: there are at most as many, and a class that passes at the
/// lower threshold passes at the higher one.
pub proof fn lemma_too_many_arguments_monotone(c: ClassFile, file: Seq<char>, low: u8, high: u8)
    requires
        low <= high,
    ensures
        class_fails(c.const_pool@, c.methods@, RuleKind::TooManyArguments, high).len()
            <= class_fails(c.const_pool@, c.methods@, RuleKind::TooManyArguments, low).len(),
        evaluation(c, RuleKind::TooManyArguments, low, file).result is Ok
            ==> evaluation(c, RuleKind::TooManyArguments, high, file).result is Ok,
{
    lemma_fails_monotone(c.const_pool@, c.methods@, low, high);
}

/// A configuration key that names no rule is ignored: adding it, with any
/// value, selects the same rules.
pub proof fn lemma_unknown_key_ignored(settings: Map<Seq<char>, Setting>, key: Seq<char>, value: Setting)
    requires
        kind_of_key(key) is None,
    ensures
        selected_rules(settings.insert(key, value)) == selected_rules(settings),
{
    let more = settings.insert(key, value);
    assert forall|kind: RuleKind| #[trigger] configured_rule(more, kind) == configured_rule(settings, kind) by {
        lemma_key_names_kind(kind);
    }
    lemma_same_configuration(more, settings, all_rule_kinds());
}

proof fn lemma_same_configuration(a: Map<Seq<char>, Setting>, b: Map<Seq<char>, Setting>, kinds: Seq<RuleKind>)
    requires
        forall|kind: RuleKind| #[trigger] configured_rule(a, kind) == configured_rule(b, kind),
    ensures
        rules_for(a, kinds) == rules_for(b, kinds),
    decreases kinds.len(),
{
    if kinds.len() > 0 {
        lemma_same_configuration(a, b, kinds.drop_last());
        assert(configured_rule(a, kinds.last()) == configured_rule(b, kinds.last()));
    }
}

proof fn lemma_fails_monotone(pool: Seq<Constant>, methods: Seq<MethodInfo>, low: u8, high: u8)
    requires
        low <= high,
    ensures
        class_fails(pool, methods, RuleKind::TooManyArguments, high).len()
            <= class_fails(pool, methods, RuleKind::TooManyArguments, low).len(),
    decreases methods.len(),
{
    if methods.len() > 0 {
        lemma_fails_monotone(pool, methods.drop_last(), low, high);
        lemma_arguments_monotone(pool, methods.last(), low, high);
        assert(method_fail(pool, methods.last(), RuleKind::TooManyArguments, high) == arguments_fail(pool, methods.last(), high));
        assert(method_fail(pool, methods.last(), RuleKind::TooManyArguments, low) == arguments_fail(pool, methods.last(), low));
    }
}

} // verus!
