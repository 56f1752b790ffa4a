//! Rule kinds, configured rules, and the result of a rule on one file.

use vstd::prelude::*;

use crate::checks::{evaluate, evaluation};
use crate::classfile::ClassFile;
use crate::config::{setting_at, table_get, table_settings, Setting};
use crate::errors::{fail_text, Fail, FailView};
use crate::text::same_text;

verus! {

/// The closed set of rules, in the fixed order in which they are reported.
#[derive(Debug, Clone, Copy, PartialEq, Eq, Structural)]
pub enum RuleKind {
    NoBinaryInNames,
    TooManyArguments,
    CheckNoVoid,
}

/// The configuration key of a rule.
pub open spec fn rule_key(kind: RuleKind) -> Seq<char> {
    match kind {
        RuleKind::NoBinaryInNames => "no_binary_in_names"@,
        RuleKind::TooManyArguments => "too_many_arguments"@,
        RuleKind::CheckNoVoid => "check_no_void"@,
    }
}

/// The name under which a rule is reported.
pub open spec fn rule_name(kind: RuleKind) -> Seq<char> {
    match kind {
        RuleKind::NoBinaryInNames => "No \"And\" or \"Or\" in Method Names"@,
        RuleKind::TooManyArguments => "Too Many Arguments"@,
        RuleKind::CheckNoVoid => "No Void Return"@,
    }
}

/// Every rule, in reporting order.
pub open spec fn all_rule_kinds() -> Seq<RuleKind> {
    seq![RuleKind::NoBinaryInNames, RuleKind::TooManyArguments, RuleKind::CheckNoVoid]
}

impl RuleKind {
    pub fn to_key(&self) -> (r: &'static str)
        ensures
            r@ == rule_key(*self),
    {
        match self {
            RuleKind::NoBinaryInNames => "no_binary_in_names",
            RuleKind::TooManyArguments => "too_many_arguments",
            RuleKind::CheckNoVoid => "check_no_void",
        }
    }

    pub fn name(&self) -> (r: &'static str)
        ensures
            r@ == rule_name(*self),
    {
        match self {
            RuleKind::NoBinaryInNames => "No \"And\" or \"Or\" in Method Names",
            RuleKind::TooManyArguments => "Too Many Arguments",
            RuleKind::CheckNoVoid => "No Void Return",
        }
    }

    /// Every rule kind, in reporting order.
    pub fn iterator() -> (r: Vec<RuleKind>)
        ensures
            r@ == all_rule_kinds(),
    {
        let r = vec![RuleKind::NoBinaryInNames, RuleKind::TooManyArguments, RuleKind::CheckNoVoid];
        assert(r@ =~= all_rule_kinds());
        r
    }
}

/// An active rule: its kind and its parameter (the threshold of
/// `TooManyArguments`; unused by the other kinds).
#[derive(Debug, Clone, Copy, PartialEq, Eq, Structural)]
pub struct Rule {
    kind: RuleKind,
    parameter: u8,
}

/// The rule that a configuration value makes of `kind`: `true` activates it
/// with parameter 0, an integer above 0 activates it with that integer as
/// parameter (capped at 255, the largest parameter count a method can have),
/// and anything else, or no value, leaves it off.
pub open spec fn setting_rule(value: Option<Setting>, kind: RuleKind) -> Option<(RuleKind, u8)> {
    match value {
        Some(Setting::Flag(true)) => Some((kind, 0u8)),
        Some(Setting::Integer(i)) => if i > 0 {
            Some((kind, if i > 255 { 255u8 } else { i as u8 }))
        } else {
            None
        },
        _ => None,
    }
}

/// The rule kind whose configuration key is `key`.
pub open spec fn kind_of_key(key: Seq<char>) -> Option<RuleKind> {
    if key == rule_key(RuleKind::CheckNoVoid) {
        Some(RuleKind::CheckNoVoid)
    } else if key == rule_key(RuleKind::NoBinaryInNames) {
        Some(RuleKind::NoBinaryInNames)
    } else if key == rule_key(RuleKind::TooManyArguments) {
        Some(RuleKind::TooManyArguments)
    } else {
        None
    }
}

/// Each rule kind is found again from its own key.
pub proof fn lemma_key_names_kind(kind: RuleKind)
    ensures
        kind_of_key(rule_key(kind)) == Some(kind),
{
    reveal_strlit("check_no_void");
    reveal_strlit("no_binary_in_names");
    reveal_strlit("too_many_arguments");
    assert("check_no_void"@.len() != "no_binary_in_names"@.len());
    assert("check_no_void"@.len() != "too_many_arguments"@.len());
    assert("no_binary_in_names"@[0] != "too_many_arguments"@[0]);
}

pub open spec fn rule_of(r: Option<Rule>) -> Option<(RuleKind, u8)> {
    match r {
        Some(r) => Some((r.spec_kind(), r.spec_parameter())),
        None => None,
    }
}

impl Rule {
    /// The rule that `table` configures under `rule_key`; `None` for a key that
    /// names no rule, or a rule that is not active.
    pub fn new(table: &toml::Table, rule_key: &str) -> (r: Option<Self>)
        ensures
            rule_of(r) == match kind_of_key(rule_key@) {
                Some(kind) => setting_rule(setting_at(table_settings(*table), rule_key@), kind),
                None => None,
            },
    {
        if same_text(rule_key, "check_no_void") {
            Self::select_rule(table_get(table, rule_key), RuleKind::CheckNoVoid)
        } else if same_text(rule_key, "no_binary_in_names") {
            Self::select_rule(table_get(table, rule_key), RuleKind::NoBinaryInNames)
        } else if same_text(rule_key, "too_many_arguments") {
            Self::select_rule(table_get(table, rule_key), RuleKind::TooManyArguments)
        } else {
            None
        }
    }

    fn select_rule(value: Option<Setting>, kind: RuleKind) -> (r: Option<Self>)
        ensures
            rule_of(r) == setting_rule(value, kind),
    {
        match value {
            Some(Setting::Flag(flag)) => if flag {
                Some(Self { kind, parameter: 0 })
            } else {
                None
            },
            Some(Setting::Integer(number)) => if number > 0 {
                let parameter: u8 = if number > 255 { 255 } else { number as u8 };
                Some(Self { kind, parameter })
            } else {
                None
            },
            _ => None,
        }
    }

    /// Applies this rule to `class_file`, read from `file`.
    pub fn run(&self, class_file: &ClassFile, file: &str) -> (r: RuleResult)
        ensures
            r@ == evaluation(*class_file, self.spec_kind(), self.spec_parameter(), file@),
    {
        evaluate(class_file, file, self.kind, self.parameter)
    }

    pub closed spec fn spec_kind(self) -> RuleKind {
        self.kind
    }

    pub closed spec fn spec_parameter(self) -> u8 {
        self.parameter
    }

    pub fn kind(self) -> (r: RuleKind)
        ensures
            r == self.spec_kind(),
    {
        self.kind
    }

    pub fn parameter(self) -> (r: u8)
        ensures
            r == self.spec_parameter(),
    {
        self.parameter
    }
}

/// What a `RuleResult` holds, as mathematical values.
pub struct RuleResultView {
    pub file: Seq<char>,
    pub rule: RuleKind,
    pub result: Result<(), Seq<FailView>>,
}

pub open spec fn fails_view(v: Seq<Fail>) -> Seq<FailView> {
    v.map_values(|f: Fail| f@)
}

pub open spec fn outcome_view(r: Result<(), Vec<Fail>>) -> Result<(), Seq<FailView>> {
    match r {
        Ok(()) => Ok(()),
        Err(v) => Err(fails_view(v@)),
    }
}

/// The outcome of one rule on one file.
#[derive(Debug)]
pub struct RuleResult {
    file: String,
    rule: RuleKind,
    result: Result<(), Vec<Fail>>,
}

impl View for RuleResult {
    type V = RuleResultView;

    closed spec fn view(&self) -> RuleResultView {
        RuleResultView { file: self.file@, rule: self.rule, result: outcome_view(self.result) }
    }
}

/// The report line of a passed rule.
pub open spec fn ok_line(file: Seq<char>, rule: RuleKind) -> Seq<char> {
    "[OK] (file: "@ + file + "), Rule: "@ + rule_name(rule)
}

/// The report line of one violation, ending in a newline.
pub open spec fn fail_line(file: Seq<char>, rule: RuleKind, f: FailView) -> Seq<char> {
    "[FAIL] (file: "@ + file + "), Rule: "@ + rule_name(rule) + ", "@ + fail_text(f) + "\n"@
}

pub open spec fn fail_lines(file: Seq<char>, rule: RuleKind, fails: Seq<FailView>) -> Seq<char>
    decreases fails.len(),
{
    if fails.len() == 0 {
        Seq::empty()
    } else {
        fail_lines(file, rule, fails.drop_last()) + fail_line(file, rule, fails.last())
    }
}

/// The report text of a result: one `[OK]` line, or one `[FAIL]` line per violation.
pub open spec fn result_text(r: RuleResultView) -> Seq<char> {
    match r.result {
        Ok(()) => ok_line(r.file, r.rule),
        Err(fails) => fail_lines(r.file, r.rule, fails),
    }
}

impl RuleResult {
    pub fn new(file: String, rule: RuleKind, result: Result<(), Vec<Fail>>) -> (r: Self)
        ensures
            r@ == (RuleResultView { file: file@, rule, result: outcome_view(result) }),
    {
        Self { file, rule, result }
    }

    pub fn file(&self) -> (r: &String)
        ensures
            r@ == self@.file,
    {
        &self.file
    }

    pub fn result(&self) -> (r: &Result<(), Vec<Fail>>)
        ensures
            outcome_view(*r) == self@.result,
    {
        &self.result
    }

    pub fn rule(&self) -> (r: RuleKind)
        ensures
            r == self@.rule,
    {
        self.rule
    }

    /// Whether the rule passed.
    pub fn is_ok(&self) -> (r: bool)
        ensures
            r == self@.result is Ok,
    {
        self.result.is_ok()
    }

    /// The report text of this result.
    pub fn to_string(&self) -> (r: String)
        ensures
            r@ == result_text(self@),
    {
        let mut s = String::new();
        match &self.result {
            Ok(()) => {
                s.append("[OK] (file: ");
                s.append(self.file.as_str());
                s.append("), Rule: ");
                s.append(self.rule.name());
            },
            Err(fails) => {
                let ghost fv = fails_view(fails@);
                let mut i: usize = 0;
                while i < fails.len()
                    invariant
                        i <= fails.len(),
                        fv == fails_view(fails@),
                        s@ == fail_lines(self.file@, self.rule, fv.subrange(0, i as int)),
                    decreases fails.len() - i,
                {
                    let f = &fails[i];
                    s.append("[FAIL] (file: ");
                    s.append(self.file.as_str());
                    s.append("), Rule: ");
                    s.append(self.rule.name());
                    s.append(", ");
                    s.append(f.to_string().as_str());
                    s.append("\n");
                    assert(fv.subrange(0, i + 1).drop_last() =~= fv.subrange(0, i as int));
                    i = i + 1;
                }
                assert(fv.subrange(0, fails.len() as int) =~= fv);
            },
        }
        s
    }
}

} // verus!
