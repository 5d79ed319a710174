use substrate_lint::config::{
    BenchmarkingConfig, Config, MockUsageConfig, TerminologyConfig, TestSmellsConfig,
    ValidationOrderConfig,
};
use substrate_lint::context::FileContext;
use substrate_lint::rules::impl_fn_rules::{HookSite, ImplFnSite, ImplSite};
use substrate_lint::rules::semantic::{MissingAuthorizeCallInCreateAuthorizedTransaction, MissingTransactionalInHook};

fn impl_config() -> Config {
    Config {
        rules: Vec::new(),
        terminology: TerminologyConfig {
            british_english: Vec::new(),
            forbidden_terms: Vec::new(),
            check_strings: false,
            check_identifiers: false,
        },
        benchmarking: BenchmarkingConfig { verification_patterns: Vec::new() },
        mock_usage: MockUsageConfig { mock_patterns: Vec::new(), max_mock_expectations: 5 },
        test_smells: TestSmellsConfig { internal_field_patterns: Vec::new() },
        validation_order: ValidationOrderConfig { heavy_operations: Vec::new(), cheap_validations: Vec::new() },
    }
}

fn impl_ctx(content: &str) -> FileContext {
    FileContext {
        path: "substrate/frame/scheduler/src/lib.rs".to_string(),
        rel_path: "substrate/frame/scheduler/src/lib.rs".to_string(),
        content: content.to_string(),
        is_rust: true,
        is_text: false,
        is_test_file: false,
        is_benchmark_file: false,
        is_proc_macro_target: false,
        in_cfg_gated_module: false,
    }
}

fn paths(v: &[&[&str]]) -> Vec<Vec<String>> {
    v.iter().map(|p| p.iter().map(|s| s.to_string()).collect()).collect()
}

fn hook(name: &str, calls: &[&[&str]], fallible: bool) -> HookSite {
    HookSite { name: name.to_string(), line: 2, column: 5, attr_paths: Vec::new(), call_paths: paths(calls), fallible }
}

const HOOKS: &str = "impl<T: Config> Hooks<BlockNumberFor<T>> for Pallet<T> {\n    fn on_initialize(n: BlockNumberFor<T>) -> Weight {\n        A::<T>::put(1);\n        B::<T>::insert(n, 2);\n        Weight::zero()\n    }\n}\n";

#[test]
fn sec010_reports_a_fallible_hook_with_two_writes() {
    let ctx = impl_ctx(HOOKS);
    let h = hook("on_initialize", &[&["A", "put"], &["B", "insert"], &["Weight", "zero"]], true);
    let found = MissingTransactionalInHook.check(&ctx, &impl_config(), Some(vec![h])).unwrap();
    assert_eq!(found.len(), 1);
    assert_eq!(found[0].message, "Hook `on_initialize` has 2 storage writes without `with_storage_layer` — partial state risk");
    assert_eq!(
        found[0].suggestion.as_deref(),
        Some("Wrap the body of `on_initialize` in `frame_support::storage::with_storage_layer(|| { ... })`")
    );
    assert_eq!((found[0].line, found[0].column), (2, Some(5)));
}

#[test]
fn sec010_accepts_infallible_single_write_and_layered_hooks() {
    let ctx = impl_ctx(HOOKS);
    let infallible = hook("on_initialize", &[&["A", "put"], &["B", "insert"]], false);
    assert!(MissingTransactionalInHook.check(&ctx, &impl_config(), Some(vec![infallible])).is_none());
    let one_write = hook("on_idle", &[&["A", "put"], &["A", "get"]], true);
    assert!(MissingTransactionalInHook.check(&ctx, &impl_config(), Some(vec![one_write])).is_none());
    let layered = hook("on_poll", &[&["A", "put"], &["B", "kill"], &["storage", "with_storage_layer"]], true);
    assert!(MissingTransactionalInHook.check(&ctx, &impl_config(), Some(vec![layered])).is_none());
    let mut marked = hook("on_finalize", &[&["A", "put"], &["B", "kill"]], true);
    marked.attr_paths = paths(&[&["transactional"]]);
    assert!(MissingTransactionalInHook.check(&ctx, &impl_config(), Some(vec![marked])).is_none());
    let other = hook("helper", &[&["A", "put"], &["B", "kill"]], true);
    assert!(MissingTransactionalInHook.check(&ctx, &impl_config(), Some(vec![other])).is_none());
}

fn ext_fn(name: &str, calls: &[&[&str]]) -> ImplFnSite {
    ImplFnSite { name: name.to_string(), item_line: 2, line: 2, column: 8, call_paths: paths(calls) }
}

const AUTH: &str = "impl<C> CreateAuthorizedTransaction<C> for Runtime {\n    fn create_extension() -> Self::Extension {\n        (CheckNonce::new(),)\n    }\n}\n";

#[test]
fn sem016_reports_a_create_extension_without_authorize_call() {
    let ctx = impl_ctx(AUTH);
    let site = ImplSite {
        line: 1,
        trait_path: Some(paths(&[&["frame_system", "CreateAuthorizedTransaction"]])[0].clone()),
        fns: vec![ext_fn("create_extension", &[&["CheckNonce", "new"]]), ext_fn("other", &[])],
    };
    let found = MissingAuthorizeCallInCreateAuthorizedTransaction.check(&ctx, &impl_config(), Some(vec![site])).unwrap();
    assert_eq!(found.len(), 1);
    assert_eq!(found[0].rule_id, "SEM016");
    assert_eq!((found[0].line, found[0].column), (2, Some(8)));
}

#[test]
fn sem016_accepts_authorize_call_and_other_impls() {
    let ctx = impl_ctx(AUTH);
    let with_call = ImplSite {
        line: 1,
        trait_path: Some(paths(&[&["CreateAuthorizedTransaction"]])[0].clone()),
        fns: vec![ext_fn("create_extension", &[&["frame_system", "AuthorizeCall", "new"]])],
    };
    assert!(MissingAuthorizeCallInCreateAuthorizedTransaction.check(&ctx, &impl_config(), Some(vec![with_call])).is_none());
    let other_trait = ImplSite { line: 1, trait_path: Some(paths(&[&["Other"]])[0].clone()), fns: vec![ext_fn("create_extension", &[])] };
    let inherent = ImplSite { line: 1, trait_path: None, fns: vec![ext_fn("create_extension", &[])] };
    assert!(MissingAuthorizeCallInCreateAuthorizedTransaction
        .check(&ctx, &impl_config(), Some(vec![other_trait, inherent]))
        .is_none());
}
