use substrate_lint::config::{
    BenchmarkingConfig, Config, MockUsageConfig, RuleOverride, TerminologyConfig,
    TestSmellsConfig, ValidationOrderConfig,
};
use substrate_lint::rules::all_rules;
use substrate_lint::rules::semantic::strip_strings_and_line_comments;
use substrate_lint::rustdoc_analysis::{contains_unbounded_exec, JsonValue};

fn config(rules: Vec<RuleOverride>) -> Config {
    Config {
        rules,
        terminology: TerminologyConfig {
            british_english: Vec::new(),
            forbidden_terms: Vec::new(),
            check_strings: false,
            check_identifiers: false,
        },
        benchmarking: BenchmarkingConfig { verification_patterns: Vec::new() },
        mock_usage: MockUsageConfig { mock_patterns: Vec::new(), max_mock_expectations: 5 },
        test_smells: TestSmellsConfig { internal_field_patterns: Vec::new() },
        validation_order: ValidationOrderConfig {
            heavy_operations: Vec::new(),
            cheap_validations: Vec::new(),
        },
    }
}

fn strip(text: &str) -> String {
    strip_strings_and_line_comments(&text.chars().collect()).into_iter().collect()
}

#[test]
fn stripping_twice_is_stripping_once() {
    for line in [
        "let x = \"a // b\"; // trailing",
        "/\"x\"/ y",
        "call(\"esc \\\" quote\") + 1",
        "\"unterminated // still string",
        "plain code / with / slashes",
    ] {
        let once = strip(line);
        assert_eq!(strip(&once), once);
    }
    assert_eq!(strip("let a = b / c;"), "let a = b / c;");
    assert_eq!(strip("let x = \"a // b\"; // trailing"), "let x =   ; ");
}

#[test]
fn disabling_a_rule_only_removes_it_from_the_list() {
    let everything = all_rules(&config(Vec::new()));
    let fewer = all_rules(&config(vec![RuleOverride {
        rule_id: "SEM008".to_string(),
        enabled: false,
        severity: None,
    }]));
    assert_eq!(fewer.len() + 1, everything.len());
    let filtered: Vec<_> = everything.iter().copied().filter(|r| r.id() != "SEM008").collect();
    assert_eq!(fewer, filtered);
}

fn resolved(path: &str, args: Vec<JsonValue>) -> JsonValue {
    let arg_values = args
        .into_iter()
        .map(|t| JsonValue::Object(vec![("type".to_string(), t)]))
        .collect();
    let angle = JsonValue::Object(vec![("args".to_string(), JsonValue::Array(arg_values))]);
    let args = JsonValue::Object(vec![("angle_bracketed".to_string(), angle)]);
    JsonValue::Object(vec![(
        "resolved_path".to_string(),
        JsonValue::Object(vec![
            ("path".to_string(), JsonValue::String(path.to_string())),
            ("args".to_string(), args),
        ]),
    )])
}

#[test]
fn nothing_is_unbounded_under_the_bounded_flag() {
    let vec_of_vec = resolved("alloc::vec::Vec", vec![resolved("alloc::vec::Vec", Vec::new())]);
    assert!(contains_unbounded_exec(&vec_of_vec, false));
    assert!(!contains_unbounded_exec(&vec_of_vec, true));
    let map = resolved("std::collections::BTreeMap", Vec::new());
    assert!(!contains_unbounded_exec(&JsonValue::Array(vec![map]), true));
}
