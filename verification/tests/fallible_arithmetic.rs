use substrate_lint::config::{
    BenchmarkingConfig, Config, MockUsageConfig, TerminologyConfig, TestSmellsConfig,
    ValidationOrderConfig,
};
use substrate_lint::context::FileContext;
use substrate_lint::diagnostics::Severity;
use substrate_lint::rules::fallible_arithmetic::{ArithOp, ArithSite, ArithSiteKind, FnArithSites};
use substrate_lint::rules::semantic::RawArithmeticInFallible;

fn arith_config() -> Config {
    Config {
        rules: Vec::new(),
        terminology: TerminologyConfig {
            british_english: Vec::new(),
            forbidden_terms: Vec::new(),
            check_strings: false,
            check_identifiers: false,
        },
        benchmarking: BenchmarkingConfig { verification_patterns: Vec::new() },
        mock_usage: MockUsageConfig { mock_patterns: Vec::new(), max_mock_expectations: 5 },
        test_smells: TestSmellsConfig { internal_field_patterns: Vec::new() },
        validation_order: ValidationOrderConfig { heavy_operations: Vec::new(), cheap_validations: Vec::new() },
    }
}

fn arith_ctx(path: &str, content: &str) -> FileContext {
    FileContext {
        path: path.to_string(),
        rel_path: path.to_string(),
        content: content.to_string(),
        is_rust: true,
        is_text: false,
        is_test_file: false,
        is_benchmark_file: false,
        is_proc_macro_target: false,
        in_cfg_gated_module: false,
    }
}

fn pair(a: &str, b: &str) -> (String, String) {
    (a.to_string(), b.to_string())
}

fn binary(op: ArithOp, line: usize, left: &str, right: &str) -> ArithSite {
    ArithSite {
        kind: ArithSiteKind::Binary,
        line,
        column: 13,
        op,
        operands: pair(left, right),
        left_max: None,
        right_min: None,
        in_group_conversion: false,
        safe_subtractions: Vec::new(),
        name: String::new(),
        tokens: String::new(),
    }
}

fn mac(name: &str, line: usize, tokens: &str) -> ArithSite {
    ArithSite {
        kind: ArithSiteKind::MacroCall,
        name: name.to_string(),
        tokens: tokens.to_string(),
        ..binary(ArithOp::Other, line, "", "")
    }
}

fn fallible(sites: Vec<ArithSite>) -> FnArithSites {
    FnArithSites { output: Some("DispatchResult".to_string()), sites }
}

const PALLET: &str = "substrate/frame/staking/src/pallet/impls.rs";
const BODY: &str = "fn f() -> DispatchResult {\n    let a = x + y;\n    let b = x - y;\n    let c = x * y;\n    let d = x / y;\n    let e = x + y + z;\n    Ok(())\n}\n";

#[test]
fn sec009_reports_add_sub_mul_in_fallible_functions() {
    let ctx = arith_ctx(PALLET, BODY);
    let fns = vec![fallible(vec![
        binary(ArithOp::Add, 2, "x", "y"),
        binary(ArithOp::Sub, 3, "x", "y"),
        binary(ArithOp::Mul, 4, "x", "y"),
        binary(ArithOp::Other, 5, "x", "y"),
        binary(ArithOp::Add, 6, "x+y", "z"),
        binary(ArithOp::Add, 6, "x", "y"),
    ])];
    let found = RawArithmeticInFallible.check(&ctx, &arith_config(), Some(fns)).unwrap();
    let lines: Vec<usize> = found.iter().map(|d| d.line).collect();
    assert_eq!(lines, vec![2, 3, 4, 6]);
    let d = &found[0];
    assert_eq!(d.rule_id, "SEC009");
    assert_eq!(d.rule_name, "raw-arithmetic-in-fallible");
    assert_eq!(d.severity, Severity::Advisory);
    assert_eq!(d.column, Some(13));
    assert_eq!(d.message, "Raw arithmetic in fallible function — wrapping overflow risk");
    assert_eq!(
        d.suggestion.as_deref(),
        Some("Replace `a + b` with `a.checked_add(b).ok_or(Error::Overflow)?` or `a.saturating_add(b)`")
    );
}

#[test]
fn sec009_ignores_functions_that_cannot_fail() {
    let ctx = arith_ctx(PALLET, BODY);
    let fns = vec![
        FnArithSites { output: None, sites: vec![binary(ArithOp::Add, 2, "x", "y")] },
        FnArithSites { output: Some("u32".to_string()), sites: vec![binary(ArithOp::Add, 3, "x", "y")] },
        FnArithSites { output: Some("TransactionValidity".to_string()), sites: vec![binary(ArithOp::Add, 4, "x", "y")] },
    ];
    let found = RawArithmeticInFallible.check(&ctx, &arith_config(), Some(fns)).unwrap();
    let lines: Vec<usize> = found.iter().map(|d| d.line).collect();
    assert_eq!(lines, vec![4]);
}

#[test]
fn sec009_accepts_guarded_and_ordered_subtractions() {
    let ctx = arith_ctx(PALLET, BODY);
    let mut guarded = binary(ArithOp::Sub, 2, "x", "y");
    guarded.safe_subtractions = vec![pair("a", "b"), pair("x", "y")];
    let mut reversed = binary(ArithOp::Sub, 3, "y", "x");
    reversed.safe_subtractions = vec![pair("x", "y")];
    let mut spread = binary(ArithOp::Sub, 4, "a.max(b)", "a.min(b)");
    spread.left_max = Some(pair("a", "b"));
    spread.right_min = Some(pair("b", "a"));
    let mut other_spread = binary(ArithOp::Sub, 5, "a.max(b)", "a.min(c)");
    other_spread.left_max = Some(pair("a", "b"));
    other_spread.right_min = Some(pair("a", "c"));
    let mut group = binary(ArithOp::Add, 6, "p", "q");
    group.in_group_conversion = true;
    let fns = vec![fallible(vec![guarded, reversed, spread, other_spread, group])];
    let found = RawArithmeticInFallible.check(&ctx, &arith_config(), Some(fns)).unwrap();
    let lines: Vec<usize> = found.iter().map(|d| d.line).collect();
    assert_eq!(lines, vec![3, 5]);
}

#[test]
fn sec009_reads_ensure_conditions() {
    let ctx = arith_ctx(PALLET, BODY);
    let fns = vec![fallible(vec![
        mac("ensure", 2, "a + b <= max , Error :: < T > :: TooMany"),
        mac("ensure", 3, "a . checked_add (b) . is_some () , Error :: < T > :: Overflow"),
        mac("ensure", 4, "\"a + b\" == name , Error :: < T > :: Bad"),
        mac("ensure", 5, "x >= - 1 , Error :: < T > :: Bad"),
        mac("assert", 6, "a + b > 0"),
    ])];
    let found = RawArithmeticInFallible.check(&ctx, &arith_config(), Some(fns)).unwrap();
    let lines: Vec<usize> = found.iter().map(|d| d.line).collect();
    assert_eq!(lines, vec![2]);
}

#[test]
fn sec009_skips_test_code_weights_and_unparsed_files() {
    let content = "fn live() -> DispatchResult { a + b }\n#[cfg(test)]\nmod tests {\n    fn t() -> DispatchResult { a + b }\n}\n";
    let ctx = arith_ctx(PALLET, content);
    let fns = vec![fallible(vec![binary(ArithOp::Add, 1, "a", "b")]), fallible(vec![binary(ArithOp::Add, 4, "a", "b")])];
    let found = RawArithmeticInFallible.check(&ctx, &arith_config(), Some(fns)).unwrap();
    let lines: Vec<usize> = found.iter().map(|d| d.line).collect();
    assert_eq!(lines, vec![1]);
    let weights = arith_ctx("substrate/frame/staking/src/weights.rs", content);
    assert!(RawArithmeticInFallible
        .check(&weights, &arith_config(), Some(vec![fallible(vec![binary(ArithOp::Add, 1, "a", "b")])]))
        .is_none());
    assert!(RawArithmeticInFallible.check(&ctx, &arith_config(), None).is_none());
}
