use substrate_lint::config::{
    BenchmarkingConfig, Config, MockUsageConfig, TerminologyConfig, TestSmellsConfig,
    ValidationOrderConfig,
};
use substrate_lint::context::FileContext;
use substrate_lint::rules::dispatch_bypass::BypassSite;
use substrate_lint::rules::semantic::DispatchBypassFilterInProduction;

fn bypass_config() -> Config {
    Config {
        rules: Vec::new(),
        terminology: TerminologyConfig {
            british_english: Vec::new(),
            forbidden_terms: Vec::new(),
            check_strings: false,
            check_identifiers: false,
        },
        benchmarking: BenchmarkingConfig { verification_patterns: Vec::new() },
        mock_usage: MockUsageConfig { mock_patterns: Vec::new(), max_mock_expectations: 5 },
        test_smells: TestSmellsConfig { internal_field_patterns: Vec::new() },
        validation_order: ValidationOrderConfig { heavy_operations: Vec::new(), cheap_validations: Vec::new() },
    }
}

fn bypass_ctx(content: &str) -> FileContext {
    FileContext {
        path: "substrate/frame/utility/src/lib.rs".to_string(),
        rel_path: "substrate/frame/utility/src/lib.rs".to_string(),
        content: content.to_string(),
        is_rust: true,
        is_text: false,
        is_test_file: false,
        is_benchmark_file: false,
        is_proc_macro_target: false,
        in_cfg_gated_module: false,
    }
}

fn site(method: &str, line: usize, root: bool, guards: &[usize]) -> BypassSite {
    BypassSite {
        method: method.to_string(),
        line,
        column: 9,
        in_root_context: root,
        root_guard_lines: guards.to_vec(),
    }
}

const BODY: &str = "fn f(origin: OriginFor<T>, call: Call) {\n    let a = call.clone();\n    call.dispatch_bypass_filter(origin);\n    ensure_root(o)?;\n    call.dispatch_bypass_filter(origin);\n}\n";

#[test]
fn sec015_reports_an_unguarded_bypass() {
    let ctx = bypass_ctx(BODY);
    let sites = vec![site("clone", 2, false, &[4]), site("dispatch_bypass_filter", 3, false, &[4]), site("dispatch_bypass_filter", 5, false, &[4])];
    let found = DispatchBypassFilterInProduction.check(&ctx, &bypass_config(), Some(sites)).unwrap();
    assert_eq!(found.len(), 1);
    let d = &found[0];
    assert_eq!((d.rule_id.as_str(), d.line, d.column), ("SEC015", 3, Some(9)));
    assert_eq!(d.message, "`dispatch_bypass_filter` is used in production code");
}

#[test]
fn sec015_accepts_a_root_branch() {
    let ctx = bypass_ctx(BODY);
    let sites = vec![site("dispatch_bypass_filter", 3, true, &[])];
    assert!(DispatchBypassFilterInProduction.check(&ctx, &bypass_config(), Some(sites)).is_none());
}

#[test]
fn sec015_skips_tests_and_unparsed_files() {
    let content = "#[cfg(test)]\nmod tests {\n    fn t() { call.dispatch_bypass_filter(o); }\n}\n";
    let ctx = bypass_ctx(content);
    let sites = vec![site("dispatch_bypass_filter", 3, false, &[])];
    assert!(DispatchBypassFilterInProduction.check(&ctx, &bypass_config(), Some(sites)).is_none());
    assert!(DispatchBypassFilterInProduction.check(&bypass_ctx(BODY), &bypass_config(), None).is_none());
}

fn sites_of_body(_: &syn::File) -> Vec<BypassSite> {
    vec![site("clone", 2, false, &[4]), site("dispatch_bypass_filter", 3, false, &[4]), site("dispatch_bypass_filter", 5, false, &[4])]
}

#[test]
fn sec015_reads_sites_off_a_parsed_file() {
    let found = DispatchBypassFilterInProduction
        .check_file(&bypass_ctx(BODY), &bypass_config(), sites_of_body)
        .unwrap();
    assert_eq!(found.len(), 1);
    assert_eq!(found[0].line, 3);
}

#[test]
fn sec015_reports_nothing_when_the_file_does_not_parse() {
    let broken = bypass_ctx("fn f( {\n    call.dispatch_bypass_filter(origin);\n");
    assert!(DispatchBypassFilterInProduction.check_file(&broken, &bypass_config(), sites_of_body).is_none());
    let mut text = bypass_ctx(BODY);
    text.is_rust = false;
    assert!(DispatchBypassFilterInProduction.check_file(&text, &bypass_config(), sites_of_body).is_none());
}
