//! Running the active rules over a set of class files.

use vstd::prelude::*;

use crate::checks::evaluation;
use crate::classfile::{class_view, decode_class, decodes, parsed_class, ClassFile, ClassView};
use crate::errors::IError;
use crate::rule::{Rule, RuleResult, RuleResultView};

verus! {

pub open spec fn results_view(v: Seq<RuleResult>) -> Seq<RuleResultView> {
    v.map_values(|r: RuleResult| r@)
}

/// The results of every rule of `rules`, in order, on the class `c` read from `file`.
pub open spec fn class_results(file: Seq<char>, c: ClassFile, rules: Seq<Rule>) -> Seq<RuleResultView> {
    rules.map_values(|r: Rule| evaluation(c, r.spec_kind(), r.spec_parameter(), file))
}

/// The results of a run: input order outer, rule order inner.
pub open spec fn lint_results(classes: Seq<(String, ClassFile)>, rules: Seq<Rule>) -> Seq<RuleResultView>
    decreases classes.len(),
{
    if classes.len() == 0 {
        Seq::empty()
    } else {
        lint_results(classes.drop_last(), rules) + class_results(classes.last().0@, classes.last().1, rules)
    }
}

/// Applies every rule of `rules` to every class of `classes`: one result per
/// (class, rule) pair, in class order and then rule order.
pub fn lint_classes(classes: &Vec<(String, ClassFile)>, rules: &Vec<Rule>) -> (r: Vec<RuleResult>)
    ensures
        results_view(r@) == lint_results(classes@, rules@),
{
    let mut out: Vec<RuleResult> = Vec::new();
    let mut i: usize = 0;
    while i < classes.len()
        invariant
            i <= classes.len(),
            results_view(out@) == lint_results(classes@.subrange(0, i as int), rules@),
        decreases classes.len() - i,
    {
        let file = &classes[i].0;
        let class_file = &classes[i].1;
        let ghost before = results_view(out@);
        let mut j: usize = 0;
        while j < rules.len()
            invariant
                i < classes.len(),
                j <= rules.len(),
                file == &classes@[i as int].0,
                class_file == &classes@[i as int].1,
                results_view(out@) == before + class_results(file@, *class_file, rules@.subrange(0, j as int)),
            decreases rules.len() - j,
        {
            let result = rules[j].run(class_file, file.as_str());
            let ghost prev = out@;
            out.push(result);
            assert(results_view(out@) =~= results_view(prev).push(result@));
            assert(class_results(file@, *class_file, rules@.subrange(0, j + 1)) =~= class_results(file@, *class_file, rules@.subrange(0, j as int)).push(result@));
            j = j + 1;
        }
        assert(rules@.subrange(0, rules.len() as int) =~= rules@);
        assert(classes@.subrange(0, i + 1).drop_last() =~= classes@.subrange(0, i as int));
        i = i + 1;
    }
    assert(classes@.subrange(0, classes.len() as int) =~= classes@);
    out
}

/// The process outcome of a run: 0 when every file decoded and every result
/// passed, 1 otherwise.
pub fn exit_code(results: &Vec<RuleResult>, decode_failures: usize) -> (r: i32)
    ensures
        r == 0 || r == 1,
        r == 0 <==> (decode_failures == 0 && forall|k: int| 0 <= k < results@.len() ==> (#[trigger] results@[k])@.result is Ok),
{
    if decode_failures > 0 {
        return 1;
    }
    let mut k: usize = 0;
    while k < results.len()
        invariant
            k <= results.len(),
            forall|m: int| 0 <= m < k ==> (#[trigger] results@[m])@.result is Ok,
        decreases results.len() - k,
    {
        if !results[k].is_ok() {
            return 1;
        }
        k = k + 1;
    }
    0
}

/// The inputs of `files` that decode, in input order, each with its name and
/// the class decoded from it.
pub open spec fn decoded_inputs(files: Seq<(String, Vec<u8>)>) -> Seq<(Seq<char>, ClassView)>
    decreases files.len(),
{
    if files.len() == 0 {
        Seq::empty()
    } else {
        let prev = decoded_inputs(files.drop_last());
        let (name, bytes) = files.last();
        if decodes(bytes@) {
            prev.push((name@, parsed_class(bytes@)->Some_0))
        } else {
            prev
        }
    }
}

/// The names of the inputs of `files` that do not decode, in input order.
pub open spec fn refused_inputs(files: Seq<(String, Vec<u8>)>) -> Seq<Seq<char>>
    decreases files.len(),
{
    if files.len() == 0 {
        Seq::empty()
    } else {
        let prev = refused_inputs(files.drop_last());
        let (name, bytes) = files.last();
        if decodes(bytes@) {
            prev
        } else {
            prev.push(name@)
        }
    }
}

pub open spec fn classes_view(classes: Seq<(String, ClassFile)>) -> Seq<(Seq<char>, ClassView)> {
    classes.map_values(|p: (String, ClassFile)| (p.0@, class_view(p.1)))
}

pub open spec fn error_names(errors: Seq<(String, IError)>) -> Seq<Seq<char>> {
    errors.map_values(|p: (String, IError)| p.0@)
}

/// What a run over a set of input files produced.
pub struct LintReport {
    /// The inputs that decoded, in input order.
    pub classes: Vec<(String, ClassFile)>,
    /// The results over `classes`, input order outer, rule order inner.
    pub results: Vec<RuleResult>,
    /// The inputs that did not decode, with the reason.
    pub decode_errors: Vec<(String, IError)>,
}

impl LintReport {
    /// The process outcome of the run (see `exit_code`).
    pub fn code(&self) -> (r: i32)
        ensures
            r == 0 || r == 1,
            r == 0 <==> (self.decode_errors@.len() == 0 && forall|k: int| 0 <= k < self.results@.len() ==> (#[trigger] self.results@[k])@.result is Ok),
    {
        exit_code(&self.results, self.decode_errors.len())
    }
}

/// Decodes every input, in order, and applies every rule of `rules` to each
/// input that decoded; an input that does not decode is set aside with its
/// error and does not stop the run.
pub fn lint_files(files: &Vec<(String, Vec<u8>)>, rules: &Vec<Rule>) -> (r: LintReport)
    ensures
        classes_view(r.classes@) == decoded_inputs(files@),
        error_names(r.decode_errors@) == refused_inputs(files@),
        r.decode_errors@.len() == 0 <==> forall|i: int| 0 <= i < files@.len() ==> decodes((#[trigger] files@[i]).1@),
        results_view(r.results@) == lint_results(r.classes@, rules@),
{
    let mut classes: Vec<(String, ClassFile)> = Vec::new();
    let mut decode_errors: Vec<(String, IError)> = Vec::new();
    let mut i: usize = 0;
    while i < files.len()
        invariant
            i <= files.len(),
            classes_view(classes@) == decoded_inputs(files@.subrange(0, i as int)),
            error_names(decode_errors@) == refused_inputs(files@.subrange(0, i as int)),
            decode_errors@.len() == 0 <==> forall|k: int| 0 <= k < i ==> decodes((#[trigger] files@[k]).1@),
        decreases files.len() - i,
    {
        let name = files[i].0.clone();
        let ghost prefix = files@.subrange(0, i as int);
        assert(files@.subrange(0, i + 1).drop_last() =~= prefix);
        assert(files@.subrange(0, i + 1).last() == files@[i as int]);
        match decode_class(files[i].1.as_slice()) {
            Ok(c) => {
                let ghost before = classes@;
                classes.push((name, c));
                assert(classes_view(classes@) =~= classes_view(before).push((name@, class_view(c))));
            },
            Err(e) => {
                let ghost before = decode_errors@;
                decode_errors.push((name, e));
                assert(error_names(decode_errors@) =~= error_names(before).push(name@));
            },
        }
        i = i + 1;
    }
    assert(files@.subrange(0, files.len() as int) =~= files@);
    let results = lint_classes(&classes, rules);
    LintReport { classes, results, decode_errors }
}

} // verus!
