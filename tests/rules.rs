use classlint::checks::check_no_void;
use classlint::classfile::{ClassFile, Constant, MethodInfo};
use classlint::config::{parse_config, rules_from_config, select_rules};
use classlint::descriptor::{count_parameters, is_void_return};
use classlint::errors::{Fail, GenericErrorKind, IError};
use classlint::lint::{exit_code, lint_classes, lint_files};
use classlint::names::{is_binary_name, is_exempt};
use classlint::report::{FailedRule, PassedRule, Rules};
use classlint::rule::{Rule, RuleKind, RuleResult};

fn rule_from(text: &str, key: &str) -> Option<Rule> {
    let table = parse_config(text).unwrap();
    Rule::new(&table, key)
}

/// A class whose pool holds the given texts and whose methods are (name, descriptor) index pairs.
fn class_of(texts: &[&str], methods: &[(u16, u16)]) -> ClassFile {
    ClassFile {
        minor_version: 0,
        major_version: 52,
        const_pool_size: texts.len() as u16 + 1,
        const_pool: texts.iter().map(|t| Constant::Utf8(String::from(*t))).collect(),
        methods_count: methods.len() as u16,
        methods: methods
            .iter()
            .map(|(n, d)| MethodInfo { access_flags: 1, name_index: *n, descriptor_index: *d })
            .collect(),
    }
}

#[test]
fn test_rule_kind_iter() {
    let rule_kind: [RuleKind; 3] = [
        RuleKind::NoBinaryInNames,
        RuleKind::TooManyArguments,
        RuleKind::CheckNoVoid,
    ];
    let expected = rule_kind.iter();
    assert_eq!(RuleKind::iterator().iter().eq(expected), true);
}

#[test]
fn rule_keys_and_names() {
    assert_eq!(RuleKind::NoBinaryInNames.to_key(), "no_binary_in_names");
    assert_eq!(RuleKind::TooManyArguments.to_key(), "too_many_arguments");
    assert_eq!(RuleKind::CheckNoVoid.to_key(), "check_no_void");
    assert_eq!(RuleKind::NoBinaryInNames.name(), "No \"And\" or \"Or\" in Method Names");
    assert_eq!(RuleKind::TooManyArguments.name(), "Too Many Arguments");
    assert_eq!(RuleKind::CheckNoVoid.name(), "No Void Return");
}

#[test]
fn new_rule_from_config() {
    let rule = rule_from("too_many_arguments = 4", "too_many_arguments").unwrap();
    assert_eq!(rule.kind(), RuleKind::TooManyArguments);
    assert_eq!(rule.parameter(), 4);
    assert!(rule_from("too_many_arguments = 0", "too_many_arguments").is_none());
    assert!(rule_from("too_many_arguments = -3", "too_many_arguments").is_none());
    let rule = rule_from("check_no_void = true", "check_no_void").unwrap();
    assert_eq!(rule.kind(), RuleKind::CheckNoVoid);
    assert_eq!(rule.parameter(), 0);
    assert!(rule_from("check_no_void = false", "check_no_void").is_none());
    let rule = rule_from("no_binary_in_names = true", "no_binary_in_names").unwrap();
    assert_eq!(rule.kind(), RuleKind::NoBinaryInNames);
    assert!(rule_from("no_rule = true", "no_rule").is_none());
    assert!(rule_from("check_no_void = \"yes\"", "check_no_void").is_none());
    assert!(rule_from("check_no_void = [true]", "check_no_void").is_none());
    assert!(rule_from("other = 1", "check_no_void").is_none());
    assert_eq!(rule_from("too_many_arguments = 300", "too_many_arguments").unwrap().parameter(), 255);
    assert_eq!(rule_from("too_many_arguments = 255", "too_many_arguments").unwrap().parameter(), 255);
}

#[test]
fn select_rules_in_catalog_order() {
    let table = parse_config("check_no_void = true\nunknown = 3\ntoo_many_arguments = 4\nno_binary_in_names = true\n").unwrap();
    let rules = select_rules(table).unwrap();
    let kinds: Vec<RuleKind> = rules.iter().map(|r| r.kind()).collect();
    assert_eq!(kinds, vec![RuleKind::NoBinaryInNames, RuleKind::TooManyArguments, RuleKind::CheckNoVoid]);
    assert_eq!(rules[1].parameter(), 4);
    let some = rules_from_config("check_no_void = true\nno_binary_in_names = false\nextra = true").unwrap();
    assert_eq!(some.len(), 1);
}

#[test]
fn empty_or_malformed_config_selects_no_rules() {
    assert!(rules_from_config("").is_none());
    assert!(rules_from_config("unrelated = true").is_none());
    assert!(rules_from_config("check_no_void = = true").is_none());
    assert_eq!(parse_config("check_no_void = = true").unwrap_err(), GenericErrorKind::ParseError);
    assert!(parse_config("").is_ok());
}

#[test]
fn descriptor_parameter_counts() {
    assert_eq!(count_parameters("()V"), Some(0));
    assert_eq!(count_parameters("(I)V"), Some(1));
    assert_eq!(count_parameters("([[I)V"), Some(1));
    assert_eq!(count_parameters("(Ljava/lang/String;I)V"), Some(2));
    assert_eq!(count_parameters("(La)b;J)V"), Some(2));
    assert_eq!(count_parameters("([Ljava/util/List;[[DZ)[I"), Some(3));
    assert_eq!(count_parameters("I)V"), None);
    assert_eq!(count_parameters("(I"), None);
    assert_eq!(count_parameters("(I)"), None);
    assert_eq!(count_parameters("(Ljava/lang/String)V"), None);
    assert_eq!(count_parameters("([)V"), None);
    assert_eq!(count_parameters("((I)V"), None);
    assert_eq!(count_parameters(""), None);
    assert_eq!(count_parameters("(X)V"), None);
    assert_eq!(count_parameters("(I)VV"), None);
    assert_eq!(count_parameters("(I)Ljava/lang/String;"), Some(1));
    assert!(is_void_return("(I)V"));
    assert!(!is_void_return("(V)I"));
    assert!(!is_void_return(""));
}

#[test]
fn binary_name_pattern() {
    for name in ["doAndThen", "andThen", "_orElse", "get_and_Set", "x_OR_y", "readOrWrite", "aOrB", "AND_more"] {
        assert!(is_binary_name(name), "{}", name);
    }
    for name in ["LowerAndNameOnly", "andThe"] {
        assert!(is_binary_name(name), "{}", name);
    }
    for name in ["lowerandname", "Sandbox", "order", "andT", "orX", "android", "AndThen", "getand", "x_or", "brandNew", ""] {
        assert!(!is_binary_name(name), "{}", name);
    }
    assert!(is_exempt("<init>"));
    assert!(is_exempt("<clinit>"));
    assert!(is_exempt("main"));
    assert!(!is_exempt("mainly"));
    assert!(!is_exempt("x<init>"));
}

#[test]
fn binary_name_pattern_agrees_with_regular_expression() {
    let re = regex::Regex::new(r"^(_?|.*_)(and|or|AND|OR)([A-Z]|_).+|.+[a-z](And|Or)[A-Z].*$").unwrap();
    let names = [
        "doAndThen", "andThen", "orElse", "_orElse", "get_and_Set", "x_OR_y", "readOrWrite", "Sandbox",
        "order", "android", "AndThen", "x_or", "brandNew", "isAndroid", "reader_ORX", "oneAndTwo", "a_andB",
        "and_", "AND_x", "ORx", "setOrGetValue", "lowerandnameonly", "alpha_beta_orGamma",
    ];
    for name in names {
        assert_eq!(is_binary_name(name), re.is_match(name), "{}", name);
    }
}

#[test]
fn report_text() {
    let c = class_of(&["doIt", "()V", "size", "()I"], &[(1, 2), (3, 4)]);
    let r = check_no_void(&c, "A.class");
    assert_eq!(
        r.to_string(),
        "[FAIL] (file: A.class), Rule: No Void Return, (method: doIt) - error: Rule Check Failed, trace: This method has return type of void\n"
    );
    let ok = RuleResult::new(String::from("B.class"), RuleKind::TooManyArguments, Ok(()));
    assert_eq!(ok.to_string(), "[OK] (file: B.class), Rule: Too Many Arguments");
    assert!(ok.is_ok());
    assert_eq!(ok.rule(), RuleKind::TooManyArguments);
    assert_eq!(ok.file(), "B.class");
}

#[test]
fn same_run_twice_gives_same_text() {
    let c = class_of(&["doIt", "()V", "read_or_Write", "(II)I"], &[(1, 2), (3, 4), (7, 2)]);
    for kind in RuleKind::iterator() {
        let table = parse_config("check_no_void = true\nno_binary_in_names = true\ntoo_many_arguments = 1").unwrap();
        let rule = Rule::new(&table, kind.to_key()).unwrap();
        let first = rule.run(&c, "A.class");
        let second = rule.run(&c, "A.class");
        assert_eq!(first.to_string(), second.to_string());
        assert!(first.result().is_err());
    }
}

#[test]
fn lint_orders_files_then_rules() {
    let a = class_of(&["doIt", "()V"], &[(1, 2)]);
    let b = class_of(&["size", "()I"], &[(1, 2)]);
    let rules = rules_from_config("check_no_void = true\nno_binary_in_names = true").unwrap();
    let classes = vec![(String::from("a.class"), a), (String::from("b.class"), b)];
    let only_b = vec![classes[1].clone()];
    let results = lint_classes(&classes, &rules);
    assert_eq!(results.len(), 4);
    let order: Vec<(String, RuleKind, bool)> = results.iter().map(|r| (r.file().clone(), r.rule(), r.is_ok())).collect();
    assert_eq!(order, vec![
        (String::from("a.class"), RuleKind::NoBinaryInNames, true),
        (String::from("a.class"), RuleKind::CheckNoVoid, false),
        (String::from("b.class"), RuleKind::NoBinaryInNames, true),
        (String::from("b.class"), RuleKind::CheckNoVoid, true),
    ]);
    assert_eq!(exit_code(&results, 0), 1);
    let results_b = lint_classes(&only_b, &rules);
    assert_eq!(exit_code(&results_b, 0), 0);
    assert_eq!(exit_code(&results_b, 1), 1);
}

#[test]
fn lint_files_sets_aside_undecodable_inputs() {
    let rules = rules_from_config("check_no_void = true").unwrap();
    let files = vec![(String::from("junk.class"), vec![1u8, 2, 3])];
    let report = lint_files(&files, &rules);
    assert_eq!(report.classes.len(), 0);
    assert_eq!(report.results.len(), 0);
    assert_eq!(report.decode_errors.len(), 1);
    assert_eq!(report.decode_errors[0].0, "junk.class");
    assert_eq!(report.code(), 1);
}

#[test]
fn error_values() {
    let e = IError::new(GenericErrorKind::NotFound, String::from("gone"));
    assert_eq!(e.to_string(), "error: Not Found, trace: gone");
    let f = Fail::new(String::from("m"), String::from("bad"), GenericErrorKind::InvalidFormat);
    assert_eq!(f.to_string(), "(method: m) - error: Invalid Format, trace: bad");
    assert_eq!(GenericErrorKind::ParseError.name(), "Parser Error");
    assert_eq!(GenericErrorKind::InvalidDescriptorSyntax.name(), "Invalid Descriptor Syntax");
}

#[test]
fn passed_and_failed_rule_text() {
    let p = PassedRule::new(String::from("A.class"), Rules::CheckNoVoid);
    assert_eq!(p.to_string(), "OK: [file: A.class], Rule: This method has a Void return type");
    assert_eq!(p.file(), "A.class");
    assert_eq!(p.rule(), Rules::CheckNoVoid);
    let f = FailedRule::new(
        String::from("A.class"),
        Rules::CheckNoVoid,
        String::from("run"),
        String::from("This method has return type of void"),
        GenericErrorKind::RuleCheckFailed,
    );
    assert_eq!(f.to_string(), "FAIL: [file: A.class], Rule: This method has a Void return type, trace: (method: run) - This method has return type of void");
    assert_eq!(f.method(), "run");
    assert_eq!(f.kind(), GenericErrorKind::RuleCheckFailed);
    let g = FailedRule::new(String::from("B.class"), Rules::TooManyArguments, String::from("N/A"), String::from("x"), GenericErrorKind::NotFound);
    assert_eq!(g.to_string(), "FAIL: [file: B.class], error: Not Found, trace: x");
    assert_eq!(g.message(), "x");
    assert_eq!(g.file(), "B.class");
    assert_eq!(g.rule(), Rules::TooManyArguments);
}
