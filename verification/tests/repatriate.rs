use substrate_lint::config::{
    BenchmarkingConfig, Config, MockUsageConfig, TerminologyConfig, TestSmellsConfig,
    ValidationOrderConfig,
};
use substrate_lint::context::FileContext;
use substrate_lint::rules::repatriate::{LetBinding, RepatriateSite};
use substrate_lint::rules::semantic::UncheckedRepatriateReserved;

fn repatriate_config() -> Config {
    Config {
        rules: Vec::new(),
        terminology: TerminologyConfig {
            british_english: Vec::new(),
            forbidden_terms: Vec::new(),
            check_strings: false,
            check_identifiers: false,
        },
        benchmarking: BenchmarkingConfig { verification_patterns: Vec::new() },
        mock_usage: MockUsageConfig { mock_patterns: Vec::new(), max_mock_expectations: 5 },
        test_smells: TestSmellsConfig { internal_field_patterns: Vec::new() },
        validation_order: ValidationOrderConfig { heavy_operations: Vec::new(), cheap_validations: Vec::new() },
    }
}

fn repatriate_ctx(content: &str) -> FileContext {
    FileContext {
        path: "substrate/frame/treasury/src/lib.rs".to_string(),
        rel_path: "substrate/frame/treasury/src/lib.rs".to_string(),
        content: content.to_string(),
        is_rust: true,
        is_text: false,
        is_test_file: false,
        is_benchmark_file: false,
        is_proc_macro_target: false,
        in_cfg_gated_module: false,
    }
}

fn bound(name: &str, line: usize) -> RepatriateSite {
    RepatriateSite { line, column: 5, binding: LetBinding::Ident(name.to_string()) }
}

#[test]
fn sec006_reports_a_dropped_result() {
    let content = "fn f() {\n    let _ = T::Currency::repatriate_reserved(&a, &b, x, Free);\n}\n";
    let ctx = repatriate_ctx(content);
    let sites = vec![RepatriateSite { line: 2, column: 5, binding: LetBinding::Wild }];
    let found = UncheckedRepatriateReserved.check(&ctx, &repatriate_config(), Some(sites)).unwrap();
    assert_eq!(found.len(), 1);
    let d = &found[0];
    assert_eq!((d.rule_id.as_str(), d.line, d.column), ("SEC006", 2, Some(5)));
    assert_eq!(d.message, "Return value of `repatriate_reserved` is discarded — accounting risk");
}

#[test]
fn sec006_reports_a_binding_never_checked() {
    let content = "fn f() {\n    let remaining = T::Currency::repatriate_reserved(&a, &b, x, Free)?;\n    Self::deposit_event(Event::Moved);\n}\n";
    let ctx = repatriate_ctx(content);
    let found = UncheckedRepatriateReserved.check(&ctx, &repatriate_config(), Some(vec![bound("remaining", 2)])).unwrap();
    assert_eq!(found.len(), 1);
    assert_eq!(found[0].message, "`repatriate_reserved` return value is bound to `remaining` but never checked");
    assert_eq!(found[0].suggestion.as_deref(), Some("Add an explicit check such as `ensure!(remaining.is_zero(), ...)`"));
}

#[test]
fn sec006_accepts_a_check_below() {
    let content = "fn f() {\n    let remaining = T::Currency::repatriate_reserved(&a, &b, x, Free)?;\n    ensure!(remaining.is_zero(), Error::<T>::Partial);\n}\n";
    let ctx = repatriate_ctx(content);
    assert!(UncheckedRepatriateReserved.check(&ctx, &repatriate_config(), Some(vec![bound("remaining", 2)])).is_none());
    let content = "fn f() {\n    let rest = T::Currency::repatriate_reserved(&a, &b, x, Free)?;\n    if rest > Zero::zero() {\n    }\n}\n";
    let ctx = repatriate_ctx(content);
    assert!(UncheckedRepatriateReserved.check(&ctx, &repatriate_config(), Some(vec![bound("rest", 2)])).is_none());
}

#[test]
fn sec006_ignores_a_check_thirteen_lines_below() {
    let mut content = String::from("fn f() {\n    let rest = T::Currency::repatriate_reserved(&a, &b, x, Free)?;\n");
    for _ in 0..12 {
        content.push_str("    step();\n");
    }
    content.push_str("    ensure!(rest.is_zero(), Error::<T>::Partial);\n}\n");
    let ctx = repatriate_ctx(&content);
    assert!(UncheckedRepatriateReserved.check(&ctx, &repatriate_config(), Some(vec![bound("rest", 2)])).is_some());
}

#[test]
fn sec006_accepts_an_amount_that_accounts_for_the_remainder() {
    let content = "fn f() {\n    let missing = T::Currency::repatriate_reserved(&a, &b, x, Free)?;\n    let moved = x.saturating_sub( missing );\n}\n";
    let ctx = repatriate_ctx(content);
    assert!(UncheckedRepatriateReserved.check(&ctx, &repatriate_config(), Some(vec![bound("missing", 2)])).is_none());
}

#[test]
fn sec006_accepts_a_documented_infallible_assert() {
    let content = "fn f() {\n    // There is no reason this should fail.\n    let res = T::Currency::repatriate_reserved(&a, &b, x, Free);\n    debug_assert!(res.is_ok());\n}\n";
    let ctx = repatriate_ctx(content);
    assert!(UncheckedRepatriateReserved.check(&ctx, &repatriate_config(), Some(vec![bound("res", 3)])).is_none());
    let undocumented = "fn f() {\n    let res = T::Currency::repatriate_reserved(&a, &b, x, Free);\n    debug_assert!(res.is_ok());\n}\n";
    let ctx = repatriate_ctx(undocumented);
    assert!(UncheckedRepatriateReserved.check(&ctx, &repatriate_config(), Some(vec![bound("res", 2)])).is_some());
}

#[test]
fn sec006_skips_test_code_and_other_patterns() {
    let content = "#[cfg(test)]\nmod tests {\n    fn t() { let _ = repatriate_reserved(a, b, x, Free); }\n}\nfn g() { let (a, b) = T::Currency::repatriate_reserved(a, b, x, Free); }\n";
    let ctx = repatriate_ctx(content);
    let sites = vec![
        RepatriateSite { line: 3, column: 14, binding: LetBinding::Wild },
        RepatriateSite { line: 5, column: 10, binding: LetBinding::Other },
    ];
    assert!(UncheckedRepatriateReserved.check(&ctx, &repatriate_config(), Some(sites)).is_none());
    assert!(UncheckedRepatriateReserved.check(&ctx, &repatriate_config(), None).is_none());
}

fn wild_on_line_2(_: &syn::File) -> Vec<RepatriateSite> {
    vec![RepatriateSite { line: 2, column: 5, binding: LetBinding::Wild }]
}

fn wild_past_the_end(_: &syn::File) -> Vec<RepatriateSite> {
    vec![RepatriateSite { line: 9, column: 5, binding: LetBinding::Wild }]
}

#[test]
fn sec006_reads_sites_off_a_parsed_file() {
    let content = "fn f() {\n    let _ = T::Currency::repatriate_reserved(&a, &b, x, Free);\n}\n";
    let ctx = repatriate_ctx(content);
    let found = UncheckedRepatriateReserved.check_file(&ctx, &repatriate_config(), wild_on_line_2).unwrap();
    assert_eq!(found.len(), 1);
    assert_eq!(found[0].line, 2);
    assert!(UncheckedRepatriateReserved.check_file(&ctx, &repatriate_config(), wild_past_the_end).is_none());
    let broken = repatriate_ctx("fn f() {\n    let _ = repatriate_reserved(\n");
    assert!(UncheckedRepatriateReserved.check_file(&broken, &repatriate_config(), wild_on_line_2).is_none());
}
