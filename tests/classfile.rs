use classlint::checks::{check_no_void, check_void, no_binary_in_names, too_many_arguments};
use classlint::classfile::{decode_class, ClassFile, Constant, MethodInfo};
use classlint::errors::GenericErrorKind;
use classlint::config::rules_from_config;
use classlint::lint::lint_files;
use classlint::pool::{extract_method_descriptor, extract_method_name, extract_utf8_constant};
use classlint::report::Rules;

/// Bytes of a class file whose constant pool holds `texts` (entries 1..)
/// followed by one long constant, and whose methods refer to pool indices.
fn class_bytes(texts: &[&str], methods: &[(u16, u16)]) -> Vec<u8> {
    let mut b: Vec<u8> = vec![0xCA, 0xFE, 0xBA, 0xBE, 0, 0, 0, 52];
    let count = texts.len() as u16 + 3;
    b.extend_from_slice(&count.to_be_bytes());
    for t in texts {
        b.push(1);
        b.extend_from_slice(&(t.len() as u16).to_be_bytes());
        b.extend_from_slice(t.as_bytes());
    }
    b.push(5);
    b.extend_from_slice(&7i64.to_be_bytes());
    b.extend_from_slice(&[0, 0x21, 0, 1, 0, 1, 0, 0, 0, 0]);
    b.extend_from_slice(&(methods.len() as u16).to_be_bytes());
    for (name, descriptor) in methods {
        b.extend_from_slice(&[0, 1]);
        b.extend_from_slice(&name.to_be_bytes());
        b.extend_from_slice(&descriptor.to_be_bytes());
        b.extend_from_slice(&[0, 0]);
    }
    b.extend_from_slice(&[0, 0]);
    b
}

/// A class with one method per (name, descriptor) pair.
fn class_with(methods: &[(&str, &str)]) -> ClassFile {
    let mut texts: Vec<&str> = Vec::new();
    let mut refs: Vec<(u16, u16)> = Vec::new();
    for (name, descriptor) in methods {
        texts.push(name);
        texts.push(descriptor);
        refs.push((texts.len() as u16 - 1, texts.len() as u16));
    }
    decode_class(&class_bytes(&texts, &refs)).unwrap()
}

fn valid_void_inputs() -> Vec<(String, ClassFile)> {
    vec![
        (String::from("valid/Test.class"), class_with(&[("<init>", "()V"), ("main", "([Ljava/lang/String;)V"), ("getValue", "()I")])),
        (String::from("valid/Static.class"), class_with(&[("<clinit>", "()V"), ("name", "()Ljava/lang/String;")])),
    ]
}

fn invalid_void_inputs() -> Vec<(String, ClassFile)> {
    vec![
        (String::from("invalid/Example.class"), class_with(&[("<init>", "()V"), ("doSomething", "()V")])),
        (String::from("invalid/Setter.class"), class_with(&[("setValue", "(I)V")])),
    ]
}

#[test]
fn parse_ok() {
    let inputs_valid = valid_void_inputs();
    let inputs_invalid = invalid_void_inputs();
    assert!(!inputs_valid.is_empty());
    assert!(!inputs_invalid.is_empty());
}

#[test]
#[should_panic]
fn parse_fail() {
    let faulty_file: Vec<u8> = Vec::new();
    decode_class(&faulty_file).unwrap();
}

#[test]
fn check_void_ok() {
    for (file, class_file) in valid_void_inputs() {
        assert!(check_void(&class_file, file.as_str()).result().is_ok());
    }
}

#[test]
fn check_void_fail() {
    for (file, class_file) in invalid_void_inputs() {
        assert!(!check_void(&class_file, file.as_str()).result().is_ok());
    }
}

#[test]
fn decoded_method_count_matches_header() {
    let bytes = class_bytes(&["a", "()V", "b", "(I)I", "c"], &[(1, 2), (3, 4), (5, 2)]);
    let c = decode_class(&bytes).unwrap();
    assert_eq!(c.methods_count, 3);
    assert_eq!(c.methods.len(), 3);
    assert_eq!(c.major_version, 52);
    assert_eq!(c.const_pool_size, 8);
    assert_eq!(c.methods[1], MethodInfo { access_flags: 1, name_index: 3, descriptor_index: 4 });
    // the long constant takes two slots
    assert!(matches!(c.const_pool[5], Constant::Wide));
    assert!(matches!(c.const_pool[6], Constant::Unusable));
}

#[test]
fn decode_rejects_short_and_bad_headers() {
    let e = decode_class(&[0xCA, 0xFE, 0xBA]).unwrap_err();
    assert_eq!(e.kind(), GenericErrorKind::ParseError);
    assert_eq!(e.message(), "unexpected end of input");
    let e = decode_class(&[0xCA, 0xFE, 0xBA, 0xBF, 0, 0, 0, 52, 0, 1]).unwrap_err();
    assert_eq!(e.message(), "malformed header");
    let e = decode_class(&[0xCA, 0xFE, 0xBA, 0xBE, 0, 0, 0, 52, 0, 0]).unwrap_err();
    assert_eq!(e.message(), "malformed header");
    let mut truncated = class_bytes(&["a", "()V"], &[(1, 2)]);
    truncated.truncate(truncated.len() - 6);
    assert_eq!(decode_class(&truncated).unwrap_err().kind(), GenericErrorKind::ParseError);
    let mut unknown_tag = class_bytes(&["a", "()V"], &[(1, 2)]);
    unknown_tag[10] = 2;
    assert!(decode_class(&unknown_tag).is_err());
}

#[test]
fn utf8_lookup_errors() {
    let c = class_with(&[("run", "()V")]);
    assert_eq!(extract_utf8_constant(&c.const_pool, 1).unwrap(), "run");
    let e = extract_utf8_constant(&c.const_pool, 0).unwrap_err();
    assert_eq!(e.kind(), GenericErrorKind::NotFound);
    assert_eq!(e.message(), "Index out of bound for constant pool.");
    let e = extract_utf8_constant(&c.const_pool, 9).unwrap_err();
    assert_eq!(e.kind(), GenericErrorKind::NotFound);
    // the second slot of the long constant
    let e = extract_utf8_constant(&c.const_pool, 4).unwrap_err();
    assert_eq!(e.kind(), GenericErrorKind::InvalidFormat);
    assert_eq!(e.message(), "Not an Utf8Constant.");
}

#[test]
fn name_failure_loses_method_descriptor_failure_keeps_it() {
    let c = class_with(&[("run", "()V")]);
    let f = extract_method_name(&c.const_pool, 3).unwrap_err();
    assert_eq!(f.method(), "N/A");
    assert_eq!(f.kind(), GenericErrorKind::InvalidFormat);
    let name = extract_method_name(&c.const_pool, 1).unwrap().clone();
    let f = extract_method_descriptor(&c.const_pool, 40, &name).unwrap_err();
    assert_eq!(f.method(), "run");
    assert_eq!(f.kind(), GenericErrorKind::NotFound);
    assert_eq!(extract_method_descriptor(&c.const_pool, 2, &name).unwrap(), "()V");
}

#[test]
fn resolution_failures_become_violations_and_evaluation_goes_on() {
    let bytes = class_bytes(&["first", "()V", "last"], &[(1, 2), (3, 9), (40, 2), (1, 2)]);
    let c = decode_class(&bytes).unwrap();
    let r = check_no_void(&c, "A.class");
    let fails = r.result().as_ref().unwrap_err();
    assert_eq!(fails.len(), 4);
    assert_eq!(fails[0].method(), "first");
    assert_eq!(fails[0].kind(), GenericErrorKind::RuleCheckFailed);
    assert_eq!(fails[1].method(), "last");
    assert_eq!(fails[1].kind(), GenericErrorKind::NotFound);
    assert_eq!(fails[2].method(), "N/A");
    assert_eq!(fails[2].kind(), GenericErrorKind::NotFound);
    assert_eq!(fails[3].method(), "first");
}

#[test]
fn check_no_void_scenarios() {
    let c = class_with(&[("<init>", "()V")]);
    assert!(check_no_void(&c, "A.class").result().is_ok());
    let c = class_with(&[("doSomething", "()V")]);
    let r = check_no_void(&c, "A.class");
    let fails = r.result().as_ref().unwrap_err();
    assert_eq!(fails.len(), 1);
    assert_eq!(fails[0].method(), "doSomething");
    assert_eq!(fails[0].message(), "This method has return type of void");
    let c = class_with(&[("doSomething", "()I")]);
    assert!(check_no_void(&c, "A.class").result().is_ok());
    // exemption is by exact name only
    let c = class_with(&[("domain", "()V"), ("main", "()V")]);
    assert_eq!(check_no_void(&c, "A.class").result().as_ref().unwrap_err().len(), 1);
}

#[test]
fn end_to_end_two_void_methods_in_order() {
    let c = class_with(&[
        ("<init>", "()V"),
        ("first", "(I)V"),
        ("size", "()I"),
        ("second", "()V"),
        ("name", "()Ljava/lang/String;"),
    ]);
    assert_eq!(c.methods.len(), 5);
    let r = check_no_void(&c, "Five.class");
    assert_eq!(r.file(), "Five.class");
    let fails = r.result().as_ref().unwrap_err();
    assert_eq!(fails.len(), 2);
    assert_eq!(fails[0].method(), "first");
    assert_eq!(fails[1].method(), "second");
}

#[test]
fn no_binary_in_names_fixtures() {
    let lower_and = class_with(&[("lowerandnameonly", "()I"), ("sandbox", "()I")]);
    assert!(no_binary_in_names(&lower_and, "LowerAndNameOnly.class").result().is_ok());
    let camel = class_with(&[("doAndThen", "()I")]);
    assert!(no_binary_in_names(&camel, "AndInNameCamelCase.class").result().is_err());
    let start = class_with(&[("andThen", "()I")]);
    assert!(no_binary_in_names(&start, "AndInNameCamelCaseStart.class").result().is_err());
    let snake = class_with(&[("read_or_write", "()I")]);
    assert!(no_binary_in_names(&snake, "OrInNameSnakeCase.class").result().is_err());
    let snake_upper = class_with(&[("READ_OR_WRITE", "()I")]);
    assert!(no_binary_in_names(&snake_upper, "OrInNameSnakeCaseUpper.class").result().is_err());
    let snake_mixed = class_with(&[("read_and_Write", "()I")]);
    let r = no_binary_in_names(&snake_mixed, "AndInNameSnakeCase.class");
    let fails = r.result().as_ref().unwrap_err();
    assert_eq!(fails[0].message(), "This method's name contains and/or");
    let sandbox = class_with(&[("Sandbox", "()I"), ("order", "()I"), ("Orange", "()I")]);
    assert!(no_binary_in_names(&sandbox, "UpperAndNameOnly.class").result().is_ok());
}

/// Methods with 0 to 5 parameters, one of each.
fn arguments_class() -> ClassFile {
    class_with(&[
        ("zero", "()V"),
        ("one", "(I)V"),
        ("two", "(J[[Ljava/lang/String;)V"),
        ("three", "(Ljava/lang/Object;[IZ)V"),
        ("four", "(BCDF)V"),
        ("five", "(La/b;La/c;[[[SIJ)I"),
    ])
}

#[test]
fn too_many_arguments_counts_per_threshold() {
    let c = arguments_class();
    let expected = [5usize, 4, 3, 2, 1, 0, 0];
    for (max, errors) in expected.iter().enumerate() {
        let r = too_many_arguments(&c, "Args.class", max as u8);
        match r.result() {
            Ok(()) => assert_eq!(*errors, 0),
            Err(fails) => assert_eq!(fails.len(), *errors),
        }
    }
    let r = too_many_arguments(&c, "Args.class", 3);
    let fails = r.result().as_ref().unwrap_err();
    assert_eq!(fails[0].method(), "four");
    assert_eq!(fails[0].message(), "This method has too many arguments (max: 3)");
    let r = too_many_arguments(&c, "Args.class", 0);
    assert_eq!(r.result().as_ref().unwrap_err()[0].message(), "This method has too many arguments (max: 0)");
}

#[test]
fn too_many_arguments_is_monotone_in_threshold() {
    let c = arguments_class();
    let mut previous = usize::MAX;
    for max in 0..=255u8 {
        let count = match too_many_arguments(&c, "Args.class", max).result() {
            Ok(()) => 0,
            Err(fails) => fails.len(),
        };
        assert!(count <= previous);
        previous = count;
    }
}

#[test]
fn malformed_descriptor_is_reported() {
    let c = class_with(&[("broken", "(Ljava/lang/String"), ("open", "(I")]);
    let r = too_many_arguments(&c, "Bad.class", 10);
    let fails = r.result().as_ref().unwrap_err();
    assert_eq!(fails.len(), 2);
    assert_eq!(fails[0].kind(), GenericErrorKind::InvalidDescriptorSyntax);
    assert_eq!(fails[0].method(), "broken");
}

#[test]
fn rules_dir_names() {
    assert_eq!(Rules::CheckNoVoid.to_dir_string(), "check_no_void");
    assert_eq!(Rules::NoBinaryInNames.to_dir_string(), "no_binary_in_names");
    assert_eq!(Rules::TooManyArguments.to_dir_string(), "too_many_arguments");
}

#[test]
fn lint_files_keeps_input_order_and_sets_aside_failures() {
    let rules = rules_from_config("check_no_void = true\ntoo_many_arguments = 1").unwrap();
    let files = vec![
        (String::from("a.class"), class_bytes(&["run", "()V"], &[(1, 2)])),
        (String::from("short.class"), vec![0xCA, 0xFE]),
        (String::from("b.class"), class_bytes(&["size", "(II)I"], &[(1, 2)])),
        (String::from("bad.class"), vec![0, 0, 0, 0, 0, 0, 0, 52, 0, 1]),
    ];
    let report = lint_files(&files, &rules);
    let names: Vec<&str> = report.classes.iter().map(|c| c.0.as_str()).collect();
    assert_eq!(names, vec!["a.class", "b.class"]);
    let failed: Vec<&str> = report.decode_errors.iter().map(|e| e.0.as_str()).collect();
    assert_eq!(failed, vec!["short.class", "bad.class"]);
    let outcome: Vec<(&str, bool)> = report.results.iter().map(|r| (r.file().as_str(), r.is_ok())).collect();
    assert_eq!(outcome, vec![("a.class", true), ("a.class", false), ("b.class", false), ("b.class", true)]);
    assert_eq!(report.code(), 1);
    let clean = vec![(String::from("b.class"), class_bytes(&["size", "()I"], &[(1, 2)]))];
    assert_eq!(lint_files(&clean, &rules).code(), 0);
}
