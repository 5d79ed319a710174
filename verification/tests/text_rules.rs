use substrate_lint::config::{
    BenchmarkingConfig, Config, MockUsageConfig, RuleOverride, TerminologyConfig,
    TestSmellsConfig, ValidationOrderConfig,
};
use substrate_lint::context::FileContext;
use substrate_lint::diagnostics::Severity;
use substrate_lint::rules::benchmarking::BenchmarkVerification;
use substrate_lint::rules::semantic::{SpStdDeprecated, SubmitTransactionLogTarget, ValidationBeforeHeavyRead};
use substrate_lint::rules::terminology::{find_line_comment, SpellingConventions};
use substrate_lint::rules::{all_rules, compiler_backed_rule_default_severity};

fn text_config() -> Config {
    Config {
        rules: Vec::new(),
        terminology: TerminologyConfig {
            british_english: vec![("colour".to_string(), "color".to_string())],
            forbidden_terms: vec![("whitelist".to_string(), "allowlist".to_string())],
            check_strings: true,
            check_identifiers: false,
        },
        benchmarking: BenchmarkingConfig { verification_patterns: vec!["assert_last_event".to_string()] },
        mock_usage: MockUsageConfig { mock_patterns: Vec::new(), max_mock_expectations: 5 },
        test_smells: TestSmellsConfig { internal_field_patterns: Vec::new() },
        validation_order: ValidationOrderConfig {
            heavy_operations: vec!["::get(".to_string()],
            cheap_validations: vec!["ensure!(".to_string()],
        },
    }
}

fn text_ctx(path: &str, content: &str) -> FileContext {
    FileContext {
        path: path.to_string(),
        rel_path: path.to_string(),
        content: content.to_string(),
        is_rust: true,
        is_text: false,
        is_test_file: false,
        is_benchmark_file: false,
        is_proc_macro_target: false,
        in_cfg_gated_module: false,
    }
}

#[test]
fn sp_std_use_is_reported_with_byte_column() {
    let ctx = text_ctx("pallet/src/lib.rs", "use sp_std::vec::Vec;\n// sp_std::x in a comment\nlet s = \"sp_std::\";\n");
    let found = SpStdDeprecated.check(&ctx, &text_config()).unwrap();
    assert_eq!(found.len(), 1);
    assert_eq!(found[0].line, 1);
    assert_eq!(found[0].column, Some(5));
    assert_eq!(found[0].message, "`sp_std` is deprecated — use `alloc` instead");
}

#[test]
fn heavy_read_before_cheap_check_is_reported() {
    let content = "pub fn transfer(origin: O) {\n    let balance = Balances::get(&who);\n    ensure!(amount > 0, Error::Zero);\n}\n";
    let ctx = text_ctx("pallet/src/lib.rs", content);
    let found = ValidationBeforeHeavyRead.check(&ctx, &text_config()).unwrap();
    assert_eq!(found.len(), 1);
    assert_eq!(found[0].line, 2);
    assert_eq!(found[0].end_line, Some(3));
    assert_eq!(
        found[0].message,
        "Heavy operation `::get(` at line 2 occurs before cheap validation `ensure!(` at line 3"
    );
}

#[test]
fn validation_depending_on_the_read_is_not_reported() {
    let content = "pub fn transfer(origin: O) {\n    let balance = Balances::get(&who);\n    ensure!(balance > 0, Error::Zero);\n}\n";
    let ctx = text_ctx("pallet/src/lib.rs", content);
    assert!(ValidationBeforeHeavyRead.check(&ctx, &text_config()).is_none());
}

#[test]
fn submit_transaction_log_without_target_is_reported() {
    let content = "fn offchain() {\n    let r = SubmitTransaction::<T, Call<T>>::submit_transaction(xt);\n    log::error!(\"failed\");\n}\n";
    let ctx = text_ctx("pallet/src/lib.rs", content);
    let found = SubmitTransactionLogTarget.check(&ctx, &text_config()).unwrap();
    assert_eq!(found.len(), 1);
    assert_eq!(found[0].rule_id, "SEM014");
    assert_eq!(found[0].line, 3);
    assert_eq!(found[0].end_line, Some(4));
}

#[test]
fn spelling_and_forbidden_terms_in_comments_and_strings() {
    let content = "// The colour of the sky\nlet x = \"whitelist\"; // fine\n// SPDX colour\n";
    let ctx = text_ctx("pallet/src/lib.rs", content);
    let found = SpellingConventions.check(&ctx, &text_config()).unwrap();
    assert_eq!(found.len(), 2);
    assert_eq!(found[0].line, 1);
    assert_eq!(found[0].message, "Non-standard spelling `colour` — prefer `color`");
    assert_eq!(found[0].severity, Severity::Advisory);
    assert_eq!(found[1].line, 2);
    assert_eq!(found[1].message, "Forbidden term `whitelist` — use `allowlist` instead");
}

#[test]
fn spelling_is_case_blind_but_forbidden_terms_are_not() {
    let content = "// COLOUR and WHITELIST\n";
    let ctx = text_ctx("pallet/src/lib.rs", content);
    let found = SpellingConventions.check(&ctx, &text_config()).unwrap();
    assert_eq!(found.len(), 1);
    assert_eq!(found[0].message, "Non-standard spelling `colour` — prefer `color`");
}

#[test]
fn line_comment_outside_strings_is_found() {
    let line: Vec<char> = "let s = \"a // b\"; // c".chars().collect();
    assert_eq!(find_line_comment(&line), Some(18));
    let none: Vec<char> = "let s = \"//\";".chars().collect();
    assert_eq!(find_line_comment(&none), None);
}

#[test]
fn benchmark_without_verification_is_reported() {
    let content = "#[benchmarks]\nmod benchmarks {\n    #[benchmark]\n    fn transfer() {\n        #[extrinsic_call]\n        transfer(origin);\n    }\n}\n";
    let mut ctx = text_ctx("pallet/src/benchmarking.rs", content);
    ctx.is_benchmark_file = true;
    let found = BenchmarkVerification.check(&ctx, &text_config());
    assert!(found.is_some());
    let found = found.unwrap();
    assert_eq!(found[0].rule_id, "BEN002");
    assert_eq!(found[0].message, "Benchmark `transfer` has no verification/postcondition check");
}

#[test]
fn compiler_backed_defaults() {
    assert_eq!(compiler_backed_rule_default_severity("SEM009"), Severity::Advisory);
    assert_eq!(compiler_backed_rule_default_severity("SEM010"), Severity::Error);
    assert_eq!(compiler_backed_rule_default_severity("SEC001"), Severity::Warning);
}

#[test]
fn disabled_rules_leave_the_registry() {
    let mut config = text_config();
    assert_eq!(all_rules(&config).len(), 23);
    config.rules.push(RuleOverride { rule_id: "TRM001".to_string(), enabled: false, severity: None });
    let rules = all_rules(&config);
    assert_eq!(rules.len(), 22);
    assert!(rules.iter().all(|r| r.id() != "TRM001"));
}

#[test]
fn severity_override_takes_the_first_setting() {
    let mut config = text_config();
    config.rules.push(RuleOverride { rule_id: "SEM008".to_string(), enabled: true, severity: Some(Severity::Error) });
    config.rules.push(RuleOverride { rule_id: "SEM008".to_string(), enabled: true, severity: Some(Severity::Advisory) });
    assert_eq!(config.rule_severity("SEM008", Severity::Warning), Severity::Error);
    assert_eq!(config.rule_severity("SEM002", Severity::Warning), Severity::Warning);
    assert!(config.rule_enabled("SEM008"));
}
