use substrate_lint::config::{
    BenchmarkingConfig, Config, MockUsageConfig, TerminologyConfig, TestSmellsConfig,
    ValidationOrderConfig,
};
use substrate_lint::context::FileContext;
use substrate_lint::rules::discarded_result::WildLetSite;
use substrate_lint::rules::semantic::LetUnderscoreResult;

fn discard_config() -> Config {
    Config {
        rules: Vec::new(),
        terminology: TerminologyConfig {
            british_english: Vec::new(),
            forbidden_terms: Vec::new(),
            check_strings: false,
            check_identifiers: false,
        },
        benchmarking: BenchmarkingConfig { verification_patterns: Vec::new() },
        mock_usage: MockUsageConfig { mock_patterns: Vec::new(), max_mock_expectations: 5 },
        test_smells: TestSmellsConfig { internal_field_patterns: Vec::new() },
        validation_order: ValidationOrderConfig { heavy_operations: Vec::new(), cheap_validations: Vec::new() },
    }
}

fn discard_ctx(path: &str, content: &str) -> FileContext {
    FileContext {
        path: path.to_string(),
        rel_path: path.to_string(),
        content: content.to_string(),
        is_rust: true,
        is_text: false,
        is_test_file: false,
        is_benchmark_file: false,
        is_proc_macro_target: false,
        in_cfg_gated_module: false,
    }
}

fn wild(line: usize, tokens: &str) -> WildLetSite {
    WildLetSite { line, column: 5, top_level_try: false, tokens: tokens.to_string() }
}

const PALLET: &str = "substrate/frame/treasury/src/lib.rs";

#[test]
fn sec007_reports_a_dropped_transfer() {
    let content = "fn f() {\n    let _ = T::Currency::transfer(&a, &b, x, KeepAlive);\n}\n";
    let ctx = discard_ctx(PALLET, content);
    let found = LetUnderscoreResult
        .check(&ctx, &discard_config(), Some(vec![wild(2, "T :: Currency :: transfer (& a , & b , x , KeepAlive)")]))
        .unwrap();
    assert_eq!(found.len(), 1);
    let d = &found[0];
    assert_eq!((d.rule_id.as_str(), d.line, d.column), ("SEC007", 2, Some(5)));
    assert_eq!(d.message, "`let _ =` discards a likely Result — error silently swallowed");
}

#[test]
fn sec007_ignores_values_without_a_result_hint_or_with_try() {
    let content = "fn f() {\n    let _ = compute(a);\n    let _ = T::Currency::transfer(&a, &b, x, KeepAlive)?;\n}\n";
    let ctx = discard_ctx(PALLET, content);
    let mut with_try = wild(3, "T :: Currency :: transfer (& a , & b , x , KeepAlive) ?");
    with_try.top_level_try = true;
    let sites = vec![wild(2, "compute (a)"), with_try];
    assert!(LetUnderscoreResult.check(&ctx, &discard_config(), Some(sites)).is_none());
}

#[test]
fn sec007_accepts_a_comment_and_logged_or_control_flow_errors() {
    let content = "fn f() {\n    // Best effort: the error is irrelevant here.\n    let _ = T::Currency::withdraw(&a, x);\n    let _ = Q::<T>::try_mutate(|q| { if q.is_empty() { return Err(()) } Ok(()) });\n    let _ = call().map_err(|e| log!(error, \"{:?}\", e));\n}\n";
    let ctx = discard_ctx(PALLET, content);
    let sites = vec![
        wild(3, "T :: Currency :: withdraw (& a , x)"),
        wild(4, "Q :: < T > :: try_mutate (| q | { if q . is_empty () { return Err (()) } Ok (()) })"),
        wild(5, "call () . map_err (| e | log ! (error , \"{:?}\" , e))"),
    ];
    assert!(LetUnderscoreResult.check(&ctx, &discard_config(), Some(sites)).is_none());
}

#[test]
fn sec007_runs_only_on_runtime_and_pallet_production_code() {
    let content = "fn f() {\n    let _ = T::Currency::transfer(&a, &b, x, KeepAlive);\n}\n";
    let client = discard_ctx("substrate/client/service/src/lib.rs", content);
    let sites = vec![wild(2, "T :: Currency :: transfer (& a , & b , x , KeepAlive)")];
    assert!(LetUnderscoreResult.check(&client, &discard_config(), Some(sites)).is_none());
    let ctx = discard_ctx(PALLET, content);
    assert!(LetUnderscoreResult.check(&ctx, &discard_config(), None).is_none());
}
