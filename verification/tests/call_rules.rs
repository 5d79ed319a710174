use substrate_lint::config::{
    BenchmarkingConfig, Config, MockUsageConfig, TerminologyConfig, TestSmellsConfig,
    ValidationOrderConfig,
};
use substrate_lint::context::FileContext;
use substrate_lint::diagnostics::Severity;
use substrate_lint::rules::call_rules::{ContainsKeyIf, PathCallSite, XorSite};
use substrate_lint::rules::semantic::{
    MissingDecodeDepthLimit, RedundantContainsKeyBeforeRemove, UnboundedClearPrefix, XorAsExponentiation,
};

fn call_config() -> Config {
    Config {
        rules: Vec::new(),
        terminology: TerminologyConfig {
            british_english: Vec::new(),
            forbidden_terms: Vec::new(),
            check_strings: false,
            check_identifiers: false,
        },
        benchmarking: BenchmarkingConfig { verification_patterns: Vec::new() },
        mock_usage: MockUsageConfig { mock_patterns: Vec::new(), max_mock_expectations: 5 },
        test_smells: TestSmellsConfig { internal_field_patterns: Vec::new() },
        validation_order: ValidationOrderConfig { heavy_operations: Vec::new(), cheap_validations: Vec::new() },
    }
}

fn call_ctx(content: &str, test: bool) -> FileContext {
    FileContext {
        path: "substrate/frame/society/src/lib.rs".to_string(),
        rel_path: "substrate/frame/society/src/lib.rs".to_string(),
        content: content.to_string(),
        is_rust: true,
        is_text: false,
        is_test_file: test,
        is_benchmark_file: false,
        is_proc_macro_target: false,
        in_cfg_gated_module: false,
    }
}

fn strings(v: &[&str]) -> Vec<String> {
    v.iter().map(|s| s.to_string()).collect()
}

const BODY: &str = "fn f() {\n    if Members::<T>::contains_key(&who) {\n        Members::<T>::remove(&who);\n        Other::<T>::take(&who);\n    }\n}\n";

#[test]
fn sem009_reports_contains_key_before_remove() {
    let ctx = call_ctx(BODY, false);
    let site = ContainsKeyIf {
        path: strings(&["Members", "contains_key"]),
        line: 2,
        column: 8,
        then_calls: vec![(strings(&["Members", "remove"]), 3), (strings(&["Other", "take"]), 4)],
    };
    let found = RedundantContainsKeyBeforeRemove.check(&ctx, &call_config(), Some(vec![site])).unwrap();
    assert_eq!(found.len(), 1);
    let d = &found[0];
    assert_eq!((d.line, d.column, d.end_line), (2, Some(8), Some(3)));
    assert_eq!(d.severity, Severity::Advisory);
    assert_eq!(d.message, "`Members::contains_key()` before `Members::remove()`/`take()` is a wasted storage read");
}

#[test]
fn sem009_needs_a_removal_of_the_same_map() {
    let ctx = call_ctx(BODY, false);
    let other = ContainsKeyIf {
        path: strings(&["Members", "contains_key"]),
        line: 2,
        column: 8,
        then_calls: vec![(strings(&["Other", "remove"]), 3), (strings(&["remove"]), 4)],
    };
    assert!(RedundantContainsKeyBeforeRemove.check(&ctx, &call_config(), Some(vec![other])).is_none());
    let bare = ContainsKeyIf { path: strings(&["contains_key"]), line: 2, column: 8, then_calls: vec![(strings(&["Members", "remove"]), 3)] };
    assert!(RedundantContainsKeyBeforeRemove.check(&ctx, &call_config(), Some(vec![bare])).is_none());
    let in_tests = call_ctx(BODY, true);
    let site = ContainsKeyIf { path: strings(&["M", "contains_key"]), line: 2, column: 8, then_calls: vec![(strings(&["M", "take"]), 3)] };
    assert!(RedundantContainsKeyBeforeRemove.check(&in_tests, &call_config(), Some(vec![site])).is_none());
}

#[test]
fn sem010_reports_xor_written_for_a_power() {
    let ctx = call_ctx("const X: u128 = 10 ^ 16;\n", false);
    let sites = vec![
        XorSite { line: 1, column: 17, left: Some(10), right: Some(16) },
        XorSite { line: 1, column: 17, left: Some(10), right: Some(3) },
        XorSite { line: 1, column: 17, left: Some(3), right: Some(16) },
        XorSite { line: 1, column: 17, left: Some(2), right: None },
    ];
    let found = XorAsExponentiation.check(&ctx, &call_config(), Some(sites)).unwrap();
    assert_eq!(found.len(), 1);
    assert_eq!(found[0].message, "`10 ^ 16` is bitwise XOR (= 26), not exponentiation");
    assert_eq!(found[0].suggestion.as_deref(), Some("Use `10_u128.pow(16)` instead"));
    assert_eq!(found[0].severity, Severity::Error);
    let found = XorAsExponentiation
        .check(&ctx, &call_config(), Some(vec![XorSite { line: 1, column: 1, left: Some(100), right: Some(64) }]))
        .unwrap();
    assert_eq!(found[0].message, "`100 ^ 64` is bitwise XOR (= 36), not exponentiation");
}

fn path_call(path: &[&str], compact: &str, line: usize, unbounded: bool) -> PathCallSite {
    PathCallSite { path: strings(path), compact: compact.to_string(), line, column: 9, unbounded_second_arg: unbounded }
}

#[test]
fn sec003_reports_runtime_call_decoding_without_limit() {
    let ctx = call_ctx(BODY, false);
    let calls = vec![
        path_call(&["RuntimeCall", "decode"], "<T as Config>::RuntimeCall::decode", 2, false),
        path_call(&["Balance", "decode"], "Balance::decode", 3, false),
        path_call(&["RuntimeCall", "decode_with_depth_limit"], "RuntimeCall::decode_with_depth_limit", 4, false),
        path_call(&["DecodeLimit", "decode"], "DecodeLimit::<RuntimeCall>::decode", 5, false),
    ];
    let found = MissingDecodeDepthLimit.check(&ctx, &call_config(), Some(calls)).unwrap();
    let lines: Vec<usize> = found.iter().map(|d| d.line).collect();
    assert_eq!(lines, vec![2]);
    assert_eq!(found[0].rule_id, "SEC003");
}

#[test]
fn sec012_reports_an_unbounded_clear_prefix() {
    let content = "fn f() {\n    let _ = Keys::<T>::clear_prefix(id, u32::MAX, None);\n    // Safe to remove unbounded: at most a few keys.\n    let _ = Few::<T>::clear_prefix(id, u32::MAX, None);\n    let _ = Keys::<T>::clear_prefix(id, 10, None);\n}\n";
    let ctx = call_ctx(content, false);
    let calls = vec![
        path_call(&["Keys", "clear_prefix"], "Keys::<T>::clear_prefix", 2, true),
        path_call(&["Few", "clear_prefix"], "Few::<T>::clear_prefix", 4, true),
        path_call(&["Keys", "clear_prefix"], "Keys::<T>::clear_prefix", 5, false),
    ];
    let found = UnboundedClearPrefix.check(&ctx, &call_config(), Some(calls)).unwrap();
    let lines: Vec<usize> = found.iter().map(|d| d.line).collect();
    assert_eq!(lines, vec![2]);
    assert_eq!(found[0].message, "`clear_prefix` is called with an unbounded deletion limit");
}
