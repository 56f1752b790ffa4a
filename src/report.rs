//! Per-file pass and violation records with their report text.

use vstd::prelude::*;

use crate::errors::{kind_text, GenericErrorKind};

verus! {

/// The rules as named in per-violation reports.
#[derive(Debug, Clone, Copy, PartialEq, Eq, Structural)]
pub enum Rules {
    NoBinaryInNames,
    TooManyArguments,
    CheckNoVoid,
}

/// The directory name under which a rule's sample inputs are kept.
pub open spec fn dir_text(rule: Rules) -> Seq<char> {
    match rule {
        Rules::NoBinaryInNames => "no_binary_in_names"@,
        Rules::TooManyArguments => "too_many_arguments"@,
        Rules::CheckNoVoid => "check_no_void"@,
    }
}

/// The name under which a rule is reported.
pub open spec fn rules_text(rule: Rules) -> Seq<char> {
    match rule {
        Rules::NoBinaryInNames => "No \"And\" or \"Or\" in Method Names"@,
        Rules::TooManyArguments => "Too Many Arguments"@,
        Rules::CheckNoVoid => "This method has a Void return type"@,
    }
}

impl Rules {
    pub fn to_dir_string(&self) -> (r: &'static str)
        ensures
            r@ == dir_text(*self),
    {
        match self {
            Rules::NoBinaryInNames => "no_binary_in_names",
            Rules::TooManyArguments => "too_many_arguments",
            Rules::CheckNoVoid => "check_no_void",
        }
    }

    pub fn name(&self) -> (r: &'static str)
        ensures
            r@ == rules_text(*self),
    {
        match self {
            Rules::NoBinaryInNames => "No \"And\" or \"Or\" in Method Names",
            Rules::TooManyArguments => "Too Many Arguments",
            Rules::CheckNoVoid => "This method has a Void return type",
        }
    }
}

/// A rule that a file passed.
#[derive(Debug)]
pub struct PassedRule {
    file: String,
    rule: Rules,
}

impl PassedRule {
    pub closed spec fn spec_file(&self) -> Seq<char> {
        self.file@
    }

    pub closed spec fn spec_rule(&self) -> Rules {
        self.rule
    }

    pub fn new(file: String, rule: Rules) -> (r: Self)
        ensures
            r.spec_file() == file@,
            r.spec_rule() == rule,
    {
        Self { file, rule }
    }

    pub fn file(&self) -> (r: &String)
        ensures
            r@ == self.spec_file(),
    {
        &self.file
    }

    pub fn rule(&self) -> (r: Rules)
        ensures
            r == self.spec_rule(),
    {
        self.rule
    }

    /// `OK: [file: <file>], Rule: <rule>`
    pub fn to_string(&self) -> (r: String)
        ensures
            r@ == "OK: [file: "@ + self.spec_file() + "], Rule: "@ + rules_text(self.spec_rule()),
    {
        let mut s = String::from_str("OK: [file: ");
        s.append(self.file.as_str());
        s.append("], Rule: ");
        s.append(self.rule.name());
        s
    }
}

/// One violation found in a file, with the file and the rule.
#[derive(Debug, Clone)]
pub struct FailedRule {
    file: String,
    rule: Rules,
    method: String,
    message: String,
    kind: GenericErrorKind,
}

/// The report text of a violation: a rule violation names the rule and the
/// method, any other failure its kind.
pub open spec fn failed_text(file: Seq<char>, rule: Rules, method: Seq<char>, message: Seq<char>, kind: GenericErrorKind) -> Seq<char> {
    let head = "FAIL: [file: "@ + file + "],"@;
    if kind == GenericErrorKind::RuleCheckFailed {
        head + " Rule: "@ + rules_text(rule) + ", trace: (method: "@ + method + ") - "@ + message
    } else {
        head + " error: "@ + kind_text(kind) + ", trace: "@ + message
    }
}

impl FailedRule {
    pub closed spec fn spec_file(&self) -> Seq<char> {
        self.file@
    }

    pub closed spec fn spec_rule(&self) -> Rules {
        self.rule
    }

    pub closed spec fn spec_method(&self) -> Seq<char> {
        self.method@
    }

    pub closed spec fn spec_message(&self) -> Seq<char> {
        self.message@
    }

    pub closed spec fn spec_kind(&self) -> GenericErrorKind {
        self.kind
    }

    pub fn new(file: String, rule: Rules, method: String, message: String, kind: GenericErrorKind) -> (r: Self)
        ensures
            r.spec_file() == file@,
            r.spec_rule() == rule,
            r.spec_method() == method@,
            r.spec_message() == message@,
            r.spec_kind() == kind,
    {
        Self { file, rule, method, message, kind }
    }

    pub fn file(&self) -> (r: &String)
        ensures
            r@ == self.spec_file(),
    {
        &self.file
    }

    pub fn rule(&self) -> (r: Rules)
        ensures
            r == self.spec_rule(),
    {
        self.rule
    }

    pub fn method(&self) -> (r: &String)
        ensures
            r@ == self.spec_method(),
    {
        &self.method
    }

    pub fn message(&self) -> (r: &String)
        ensures
            r@ == self.spec_message(),
    {
        &self.message
    }

    pub fn kind(&self) -> (r: GenericErrorKind)
        ensures
            r == self.spec_kind(),
    {
        self.kind
    }

    pub fn to_string(&self) -> (r: String)
        ensures
            r@ == failed_text(self.spec_file(), self.spec_rule(), self.spec_method(), self.spec_message(), self.spec_kind()),
    {
        let mut s = String::from_str("FAIL: [file: ");
        s.append(self.file.as_str());
        s.append("],");
        match self.kind {
            GenericErrorKind::RuleCheckFailed => {
                s.append(" Rule: ");
                s.append(self.rule.name());
                s.append(", trace: (method: ");
                s.append(self.method.as_str());
                s.append(") - ");
                s.append(self.message.as_str());
            },
            _ => {
                s.append(" error: ");
                s.append(self.kind.name());
                s.append(", trace: ");
                s.append(self.message.as_str());
            },
        }
        s
    }
}

} // verus!
