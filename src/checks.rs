//! The rule evaluators, each a function of a decoded class.

use vstd::prelude::*;

use crate::classfile::{ClassFile, Constant, MethodInfo};
use crate::descriptor::{count_parameters, is_void_return, parameter_count, returns_void};
use crate::errors::{Fail, FailView, GenericErrorKind};
use crate::names::{has_binary_connective, is_binary_name, is_exempt, is_exempt_name};
use crate::pool::{extract_method_descriptor, extract_method_name, lookup_fail, lookup_utf8, unknown_method};
use crate::rule::{fails_view, outcome_view, RuleKind, RuleResult, RuleResultView};
use crate::text::{append_decimal, decimal_text};

verus! {

/// A violation of a rule by the method `name`.
pub open spec fn rule_fail(name: Seq<char>, message: Seq<char>) -> FailView {
    FailView { method: name, message, kind: GenericErrorKind::RuleCheckFailed }
}

pub open spec fn binary_message() -> Seq<char> {
    "This method's name contains and/or"@
}

pub open spec fn void_message() -> Seq<char> {
    "This method has return type of void"@
}

pub open spec fn too_many_message(max_arguments: u8) -> Seq<char> {
    "This method has too many arguments (max: "@ + decimal_text(max_arguments as nat) + ")"@
}

pub open spec fn descriptor_message() -> Seq<char> {
    "Invalid method descriptor."@
}

/// The violation, if any, of `NoBinaryInNames` by the method `m`.
pub open spec fn binary_name_fail(pool: Seq<Constant>, m: MethodInfo) -> Option<FailView> {
    match lookup_utf8(pool, m.name_index as int) {
        Err(k) => Some(lookup_fail(unknown_method(), k)),
        Ok(name) => if has_binary_connective(name) {
            Some(rule_fail(name, binary_message()))
        } else {
            None
        },
    }
}

/// The violation, if any, of `CheckNoVoid` by the method `m`.
pub open spec fn void_fail(pool: Seq<Constant>, m: MethodInfo) -> Option<FailView> {
    match lookup_utf8(pool, m.name_index as int) {
        Err(k) => Some(lookup_fail(unknown_method(), k)),
        Ok(name) => match lookup_utf8(pool, m.descriptor_index as int) {
            Err(k) => Some(lookup_fail(name, k)),
            Ok(d) => if !is_exempt_name(name) && returns_void(d) {
                Some(rule_fail(name, void_message()))
            } else {
                None
            },
        },
    }
}

/// The violation, if any, of `TooManyArguments` with threshold `max_arguments`
/// by the method `m`.
pub open spec fn arguments_fail(pool: Seq<Constant>, m: MethodInfo, max_arguments: u8) -> Option<FailView> {
    match lookup_utf8(pool, m.name_index as int) {
        Err(k) => Some(lookup_fail(unknown_method(), k)),
        Ok(name) => match lookup_utf8(pool, m.descriptor_index as int) {
            Err(k) => Some(lookup_fail(name, k)),
            Ok(d) => match parameter_count(d) {
                None => Some(FailView {
                    method: name,
                    message: descriptor_message(),
                    kind: GenericErrorKind::InvalidDescriptorSyntax,
                }),
                Some(n) => if n > max_arguments {
                    Some(rule_fail(name, too_many_message(max_arguments)))
                } else {
                    None
                },
            },
        },
    }
}

/// The violation, if any, of the rule `kind` (with parameter `parameter`) by `m`.
pub open spec fn method_fail(pool: Seq<Constant>, m: MethodInfo, kind: RuleKind, parameter: u8) -> Option<FailView> {
    match kind {
        RuleKind::NoBinaryInNames => binary_name_fail(pool, m),
        RuleKind::CheckNoVoid => void_fail(pool, m),
        RuleKind::TooManyArguments => arguments_fail(pool, m, parameter),
    }
}

/// The violations of a rule by the methods `methods`, in method-table order.
pub open spec fn class_fails(pool: Seq<Constant>, methods: Seq<MethodInfo>, kind: RuleKind, parameter: u8) -> Seq<FailView>
    decreases methods.len(),
{
    if methods.len() == 0 {
        Seq::empty()
    } else {
        let prev = class_fails(pool, methods.drop_last(), kind, parameter);
        match method_fail(pool, methods.last(), kind, parameter) {
            Some(f) => prev.push(f),
            None => prev,
        }
    }
}

/// Success when there is no violation, else the violations.
pub open spec fn outcome(fails: Seq<FailView>) -> Result<(), Seq<FailView>> {
    if fails.len() == 0 {
        Ok(())
    } else {
        Err(fails)
    }
}

/// The result of the rule `kind` with parameter `parameter` on the class `c` read from `file`.
pub open spec fn evaluation(c: ClassFile, kind: RuleKind, parameter: u8, file: Seq<char>) -> RuleResultView {
    RuleResultView {
        file,
        rule: kind,
        result: outcome(class_fails(c.const_pool@, c.methods@, kind, parameter)),
    }
}

pub open spec fn fail_view_of(o: Option<Fail>) -> Option<FailView> {
    match o {
        Some(f) => Some(f@),
        None => None,
    }
}

fn rule_violation(name: &String, message: &str) -> (r: Fail)
    ensures
        r@ == rule_fail(name@, message@),
{
    Fail::new(name.clone(), String::from_str(message), GenericErrorKind::RuleCheckFailed)
}

fn binary_name_violation(pool: &Vec<Constant>, m: MethodInfo) -> (r: Option<Fail>)
    ensures
        fail_view_of(r) == binary_name_fail(pool@, m),
{
    let name = match extract_method_name(pool, m.name_index) {
        Ok(name) => name,
        Err(e) => return Some(e),
    };
    if is_binary_name(name.as_str()) {
        Some(rule_violation(name, "This method's name contains and/or"))
    } else {
        None
    }
}

fn void_violation(pool: &Vec<Constant>, m: MethodInfo) -> (r: Option<Fail>)
    ensures
        fail_view_of(r) == void_fail(pool@, m),
{
    let name = match extract_method_name(pool, m.name_index) {
        Ok(name) => name,
        Err(e) => return Some(e),
    };
    let descriptor = match extract_method_descriptor(pool, m.descriptor_index, name) {
        Ok(descriptor) => descriptor,
        Err(e) => return Some(e),
    };
    if !is_exempt(name.as_str()) && is_void_return(descriptor.as_str()) {
        Some(rule_violation(name, "This method has return type of void"))
    } else {
        None
    }
}

fn arguments_violation(pool: &Vec<Constant>, m: MethodInfo, max_arguments: u8) -> (r: Option<Fail>)
    ensures
        fail_view_of(r) == arguments_fail(pool@, m, max_arguments),
{
    let name = match extract_method_name(pool, m.name_index) {
        Ok(name) => name,
        Err(e) => return Some(e),
    };
    let descriptor = match extract_method_descriptor(pool, m.descriptor_index, name) {
        Ok(descriptor) => descriptor,
        Err(e) => return Some(e),
    };
    match count_parameters(descriptor.as_str()) {
        None => Some(Fail::new(
            name.clone(),
            String::from_str("Invalid method descriptor."),
            GenericErrorKind::InvalidDescriptorSyntax,
        )),
        Some(n) => if n > max_arguments as usize {
            let mut message = String::from_str("This method has too many arguments (max: ");
            append_decimal(&mut message, max_arguments);
            message.append(")");
            Some(Fail::new(name.clone(), message, GenericErrorKind::RuleCheckFailed))
        } else {
            None
        },
    }
}

fn method_violation(pool: &Vec<Constant>, m: MethodInfo, kind: RuleKind, parameter: u8) -> (r: Option<Fail>)
    ensures
        fail_view_of(r) == method_fail(pool@, m, kind, parameter),
{
    match kind {
        RuleKind::NoBinaryInNames => binary_name_violation(pool, m),
        RuleKind::CheckNoVoid => void_violation(pool, m),
        RuleKind::TooManyArguments => arguments_violation(pool, m, parameter),
    }
}

/// Applies the rule `kind` to every method of `class_file`, in method-table order.
pub fn evaluate(class_file: &ClassFile, file: &str, kind: RuleKind, parameter: u8) -> (r: RuleResult)
    ensures
        r@ == evaluation(*class_file, kind, parameter, file@),
{
    let pool = &class_file.const_pool;
    let methods = &class_file.methods;
    let mut errors: Vec<Fail> = Vec::new();
    let mut i: usize = 0;
    while i < methods.len()
        invariant
            i <= methods.len(),
            pool@ == class_file.const_pool@,
            methods@ == class_file.methods@,
            fails_view(errors@) == class_fails(pool@, methods@.subrange(0, i as int), kind, parameter),
        decreases methods.len() - i,
    {
        let found = method_violation(pool, methods[i], kind, parameter);
        assert(methods@.subrange(0, i + 1).drop_last() =~= methods@.subrange(0, i as int));
        match found {
            Some(f) => {
                errors.push(f);
                assert(fails_view(errors@) =~= class_fails(pool@, methods@.subrange(0, i as int), kind, parameter).push(f@));
            },
            None => {},
        }
        i = i + 1;
    }
    assert(methods@.subrange(0, methods.len() as int) =~= methods@);
    let result = if errors.len() == 0 {
        Ok(())
    } else {
        Err(errors)
    };
    RuleResult::new(String::from_str(file), kind, result)
}

/// `NoBinaryInNames` on every method of `class_file`.
pub fn no_binary_in_names(class_file: &ClassFile, file: &str) -> (r: RuleResult)
    ensures
        r@ == evaluation(*class_file, RuleKind::NoBinaryInNames, 0, file@),
{
    evaluate(class_file, file, RuleKind::NoBinaryInNames, 0)
}

/// `CheckNoVoid` on every method of `class_file`.
pub fn check_no_void(class_file: &ClassFile, file: &str) -> (r: RuleResult)
    ensures
        r@ == evaluation(*class_file, RuleKind::CheckNoVoid, 0, file@),
{
    evaluate(class_file, file, RuleKind::CheckNoVoid, 0)
}

/// Another name for `check_no_void`.
pub fn check_void(class_file: &ClassFile, file: &str) -> (r: RuleResult)
    ensures
        r@ == evaluation(*class_file, RuleKind::CheckNoVoid, 0, file@),
{
    check_no_void(class_file, file)
}

/// `TooManyArguments` with threshold `max_arguments` on every method of `class_file`.
pub fn too_many_arguments(class_file: &ClassFile, file: &str, max_arguments: u8) -> (r: RuleResult)
    ensures
        r@ == evaluation(*class_file, RuleKind::TooManyArguments, max_arguments, file@),
{
    evaluate(class_file, file, RuleKind::TooManyArguments, max_arguments)
}

} // verus!
