use substrate_lint::config::{
    BenchmarkingConfig, Config, MockUsageConfig, TerminologyConfig, TestSmellsConfig,
    ValidationOrderConfig,
};
use substrate_lint::context::FileContext;
use substrate_lint::diagnostics::Severity;
use substrate_lint::rules::runtime_upgrade::{BodyCall, UpgradeFnSite};
use substrate_lint::rules::semantic::MissingStorageVersionCheckInRuntimeUpgrade;

fn upgrade_config() -> Config {
    Config {
        rules: Vec::new(),
        terminology: TerminologyConfig {
            british_english: Vec::new(),
            forbidden_terms: Vec::new(),
            check_strings: false,
            check_identifiers: false,
        },
        benchmarking: BenchmarkingConfig { verification_patterns: Vec::new() },
        mock_usage: MockUsageConfig { mock_patterns: Vec::new(), max_mock_expectations: 5 },
        test_smells: TestSmellsConfig { internal_field_patterns: Vec::new() },
        validation_order: ValidationOrderConfig { heavy_operations: Vec::new(), cheap_validations: Vec::new() },
    }
}

fn upgrade_ctx(path: &str, content: &str) -> FileContext {
    FileContext {
        path: path.to_string(),
        rel_path: path.to_string(),
        content: content.to_string(),
        is_rust: true,
        is_text: false,
        is_test_file: false,
        is_benchmark_file: false,
        is_proc_macro_target: false,
        in_cfg_gated_module: false,
    }
}

fn call(name: &str, arg: Option<&str>, reconciling: Option<&[&str]>) -> BodyCall {
    BodyCall {
        name: name.to_string(),
        first_arg: arg.map(|a| a.to_string()),
        reconciling: reconciling.map(|vs| vs.iter().map(|v| v.to_string()).collect()),
    }
}

fn upgrade_fn(line: usize, calls: Vec<BodyCall>, segments: &[&str]) -> UpgradeFnSite {
    UpgradeFnSite {
        name: "on_runtime_upgrade".to_string(),
        item_line: line,
        line,
        column: 8,
        calls,
        path_segments: segments.iter().map(|s| s.to_string()).collect(),
    }
}

const PATH: &str = "substrate/frame/staking/src/migrations.rs";
const UPGRADE: &str = "impl<T: Config> OnRuntimeUpgrade for Migrate<T> {\n    fn on_runtime_upgrade() -> Weight {\n        Value::<T>::put(5);\n        Weight::zero()\n    }\n}\n";

#[test]
fn sec016_reports_an_unversioned_storage_write() {
    let ctx = upgrade_ctx(PATH, UPGRADE);
    let fns = vec![upgrade_fn(2, vec![call("put", Some("5"), None), call("zero", None, None)], &["Value", "T", "put", "Weight", "zero"])];
    let found = MissingStorageVersionCheckInRuntimeUpgrade.check(&ctx, &upgrade_config(), Some(fns)).unwrap();
    assert_eq!(found.len(), 1);
    let d = &found[0];
    assert_eq!(d.rule_id, "SEC016");
    assert_eq!(d.rule_name, "missing-storage-version-check-in-runtime-upgrade");
    assert_eq!(d.severity, Severity::Warning);
    assert_eq!((d.line, d.column), (2, Some(8)));
    assert_eq!(d.message, "`on_runtime_upgrade` writes storage without checking `StorageVersion`");
    assert_eq!(
        d.suggestion.as_deref(),
        Some("Gate the writes with an `on_chain_storage_version()` / `StorageVersion::get()` check")
    );
}

#[test]
fn sec016_accepts_a_version_check_or_no_write() {
    let ctx = upgrade_ctx(PATH, UPGRADE);
    let checked = upgrade_fn(2, vec![call("put", Some("5"), None)], &["Pallet", "on_chain_storage_version"]);
    assert!(MissingStorageVersionCheckInRuntimeUpgrade.check(&ctx, &upgrade_config(), Some(vec![checked])).is_none());
    let reads_only = upgrade_fn(2, vec![call("get", None, None)], &["Value", "get"]);
    assert!(MissingStorageVersionCheckInRuntimeUpgrade.check(&ctx, &upgrade_config(), Some(vec![reads_only])).is_none());
    let mut other_name = upgrade_fn(2, vec![call("put", Some("5"), None)], &[]);
    other_name.name = "migrate".to_string();
    assert!(MissingStorageVersionCheckInRuntimeUpgrade.check(&ctx, &upgrade_config(), Some(vec![other_name])).is_none());
}

#[test]
fn sec016_accepts_writes_that_reconcile_the_current_value() {
    let ctx = upgrade_ctx(PATH, UPGRADE);
    let reconciling = upgrade_fn(2, vec![call("put", Some("current"), Some(&["stored", "current"]))], &[]);
    assert!(MissingStorageVersionCheckInRuntimeUpgrade.check(&ctx, &upgrade_config(), Some(vec![reconciling])).is_none());
    let insert = upgrade_fn(2, vec![call("insert", Some("current"), Some(&["stored", "current"]))], &[]);
    assert!(MissingStorageVersionCheckInRuntimeUpgrade.check(&ctx, &upgrade_config(), Some(vec![insert])).is_some());
    let other_value = upgrade_fn(2, vec![call("set", Some("other"), Some(&["stored", "current"]))], &[]);
    assert!(MissingStorageVersionCheckInRuntimeUpgrade.check(&ctx, &upgrade_config(), Some(vec![other_value])).is_some());
}

#[test]
fn sec016_accepts_an_idempotence_comment_above() {
    let content = "// This migration is idempotent.\nimpl<T: Config> OnRuntimeUpgrade for Migrate<T> {\n    fn on_runtime_upgrade() -> Weight {\n        Value::<T>::kill();\n        Weight::zero()\n    }\n}\n";
    let ctx = upgrade_ctx(PATH, content);
    let fns = vec![upgrade_fn(3, vec![call("kill", None, None)], &[])];
    assert!(MissingStorageVersionCheckInRuntimeUpgrade.check(&ctx, &upgrade_config(), Some(fns)).is_none());
}

#[test]
fn sec016_skips_test_modules_and_migration_infrastructure() {
    let content = "#[cfg(test)]\nmod tests {\n    fn on_runtime_upgrade() -> Weight {\n        Value::put(1);\n        Weight::zero()\n    }\n}\n";
    let ctx = upgrade_ctx(PATH, content);
    let fns = vec![upgrade_fn(3, vec![call("put", Some("1"), None)], &[])];
    assert!(MissingStorageVersionCheckInRuntimeUpgrade.check(&ctx, &upgrade_config(), Some(fns)).is_none());
    let infra = upgrade_ctx("substrate/frame/support/src/migrations.rs", UPGRADE);
    let fns = vec![upgrade_fn(2, vec![call("put", Some("5"), None)], &[])];
    assert!(MissingStorageVersionCheckInRuntimeUpgrade.check(&infra, &upgrade_config(), Some(fns)).is_none());
    assert!(MissingStorageVersionCheckInRuntimeUpgrade.check(&ctx, &upgrade_config(), None).is_none());
}
