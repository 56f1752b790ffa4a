//! Rule selection from a TOML configuration document.

use vstd::prelude::*;

use crate::errors::GenericErrorKind;
use crate::rule::{all_rule_kinds, lemma_key_names_kind, rule_key, Rule, RuleKind, setting_rule};

verus! {

/// A configuration value, reduced to what rule selection reads.
#[derive(Debug, Clone, Copy, PartialEq, Eq, Structural)]
pub enum Setting {
    Flag(bool),
    Integer(i64),
    /// A string, float, date, array or table.
    Other,
}

#[verifier::external_type_specification]
#[verifier::external_body]
#[verifier::reject_recursive_types(K)]
#[verifier::reject_recursive_types(V)]
pub struct ExTomlMap<K, V>(toml::map::Map<K, V>);

#[verifier::external_type_specification]
#[verifier::external_body]
pub struct ExTomlValue(toml::Value);

/// The top-level entries of a TOML table, each value reduced to a `Setting`.
pub uninterp spec fn table_settings(t: toml::Table) -> Map<Seq<char>, Setting>;

/// The top-level entries of the TOML document `text`, or `None` when it is not valid TOML.
pub uninterp spec fn toml_document(text: Seq<char>) -> Option<Map<Seq<char>, Setting>>;

/// Relies on `<toml::Table as FromStr>::from_str`, which parses a whole TOML
/// document; the outcome depends on the text alone.
#[verifier::external_body]
fn parse_toml_table(text: &str) -> (r: Option<toml::Table>)
    ensures
        r is Some <==> toml_document(text@) is Some,
        r is Some ==> table_settings(r->Some_0) == toml_document(text@)->Some_0,
{
    text.parse::<toml::Table>().ok()
}

/// Relies on toml::map::Map::get: the value stored under `key`, if any.
#[verifier::external_body]
pub(crate) fn table_get(t: &toml::Table, key: &str) -> (r: Option<Setting>)
    ensures
        r is Some <==> table_settings(*t).dom().contains(key@),
        r is Some ==> r->Some_0 == table_settings(*t)[key@],
{
    match t.get(key) {
        None => None,
        Some(toml::Value::Boolean(b)) => Some(Setting::Flag(*b)),
        Some(toml::Value::Integer(i)) => Some(Setting::Integer(*i)),
        Some(_) => Some(Setting::Other),
    }
}

/// The setting stored under `key`, if any.
pub open spec fn setting_at(settings: Map<Seq<char>, Setting>, key: Seq<char>) -> Option<Setting> {
    if settings.dom().contains(key) {
        Some(settings[key])
    } else {
        None
    }
}

/// The rule that `settings` configure for `kind`, if it is active.
pub open spec fn configured_rule(settings: Map<Seq<char>, Setting>, kind: RuleKind) -> Option<(RuleKind, u8)> {
    setting_rule(setting_at(settings, rule_key(kind)), kind)
}

/// The active rules among `kinds`, in their order.
pub open spec fn rules_for(settings: Map<Seq<char>, Setting>, kinds: Seq<RuleKind>) -> Seq<(RuleKind, u8)>
    decreases kinds.len(),
{
    if kinds.len() == 0 {
        Seq::empty()
    } else {
        let prev = rules_for(settings, kinds.drop_last());
        match configured_rule(settings, kinds.last()) {
            Some(r) => prev.push(r),
            None => prev,
        }
    }
}

/// The active rules that `settings` select, in reporting order.
pub open spec fn selected_rules(settings: Map<Seq<char>, Setting>) -> Seq<(RuleKind, u8)> {
    rules_for(settings, all_rule_kinds())
}

pub open spec fn rule_pairs(rules: Seq<Rule>) -> Seq<(RuleKind, u8)> {
    rules.map_values(|r: Rule| (r.spec_kind(), r.spec_parameter()))
}

/// Parses a configuration document; `ParseError` when it is not valid TOML.
pub fn parse_config(content: &str) -> (r: Result<toml::Table, GenericErrorKind>)
    ensures
        r is Ok <==> toml_document(content@) is Some,
        r is Ok ==> table_settings(r->Ok_0) == toml_document(content@)->Some_0,
        r is Err ==> r->Err_0 == GenericErrorKind::ParseError,
{
    match parse_toml_table(content) {
        Some(table) => Ok(table),
        None => Err(GenericErrorKind::ParseError),
    }
}

/// The active rules of a configuration table, in reporting order; `None` when
/// no rule is active.
pub fn select_rules(table: toml::Table) -> (r: Option<Vec<Rule>>)
    ensures
        r is None <==> selected_rules(table_settings(table)).len() == 0,
        r is Some ==> rule_pairs(r->Some_0@) == selected_rules(table_settings(table)),
{
    let ghost settings = table_settings(table);
    let kinds = RuleKind::iterator();
    let mut vector: Vec<Rule> = Vec::new();
    let mut i: usize = 0;
    while i < kinds.len()
        invariant
            i <= kinds.len(),
            kinds@ == all_rule_kinds(),
            settings == table_settings(table),
            rule_pairs(vector@) == rules_for(settings, kinds@.subrange(0, i as int)),
        decreases kinds.len() - i,
    {
        let kind = kinds[i];
        let found = Rule::new(&table, kind.to_key());
        proof {
            lemma_key_names_kind(kind);
        }
        assert(kinds@.subrange(0, i + 1).drop_last() =~= kinds@.subrange(0, i as int));
        assert(kind == kinds@.subrange(0, i + 1).last());
        match found {
            Some(rule) => {
                let ghost before = vector@;
                vector.push(rule);
                assert(rule_pairs(vector@) =~= rule_pairs(before).push((rule.spec_kind(), rule.spec_parameter())));
            },
            None => {},
        }
        i = i + 1;
    }
    assert(kinds@.subrange(0, kinds.len() as int) =~= kinds@);
    if vector.len() == 0 {
        return None;
    }
    Some(vector)
}

/// The active rules of a configuration document; `None` when it is empty,
/// when it is not valid TOML, or when it activates no rule.
pub fn rules_from_config(content: &str) -> (r: Option<Vec<Rule>>)
    ensures
        content@.len() == 0 ==> r is None,
        content@.len() > 0 ==> match toml_document(content@) {
            None => r is None,
            Some(settings) => {
                &&& (r is None <==> selected_rules(settings).len() == 0)
                &&& (r is Some ==> rule_pairs(r->Some_0@) == selected_rules(settings))
            },
        },
{
    if content.is_empty() {
        return None;
    }
    match parse_config(content) {
        Ok(table) => select_rules(table),
        Err(_) => None,
    }
}

} // verus!
