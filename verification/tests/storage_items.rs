use substrate_lint::config::{
    BenchmarkingConfig, Config, MockUsageConfig, TerminologyConfig, TestSmellsConfig,
    ValidationOrderConfig,
};
use substrate_lint::context::FileContext;
use substrate_lint::rules::semantic::{IdentityHasherOnCommonKeys, UnboundedStorageCollections};
use substrate_lint::rules::syntax_rules::AttrSite;
use substrate_lint::rules::storage_items::{StorageTypeSite, TypeArg};

fn hasher_config() -> Config {
    Config {
        rules: Vec::new(),
        terminology: TerminologyConfig {
            british_english: Vec::new(),
            forbidden_terms: Vec::new(),
            check_strings: false,
            check_identifiers: false,
        },
        benchmarking: BenchmarkingConfig { verification_patterns: Vec::new() },
        mock_usage: MockUsageConfig { mock_patterns: Vec::new(), max_mock_expectations: 5 },
        test_smells: TestSmellsConfig { internal_field_patterns: Vec::new() },
        validation_order: ValidationOrderConfig { heavy_operations: Vec::new(), cheap_validations: Vec::new() },
    }
}

fn hasher_ctx(content: &str) -> FileContext {
    FileContext {
        path: "substrate/frame/assets/src/lib.rs".to_string(),
        rel_path: "substrate/frame/assets/src/lib.rs".to_string(),
        content: content.to_string(),
        is_rust: true,
        is_text: false,
        is_test_file: false,
        is_benchmark_file: false,
        is_proc_macro_target: false,
        in_cfg_gated_module: false,
    }
}

fn arg(name: &str, inside: &[&str]) -> TypeArg {
    TypeArg { name: Some(name.to_string()), names_inside: inside.iter().map(|s| s.to_string()).collect() }
}

fn storage(line: usize, kind: &str, args: Vec<TypeArg>, docs: &[&str]) -> StorageTypeSite {
    StorageTypeSite {
        line,
        column: 1,
        attr_paths: vec![vec!["pallet".to_string(), "storage".to_string()]],
        storage: Some((kind.to_string(), args)),
        docs: docs.iter().map(|s| s.to_string()).collect(),
        unbounded_collection: false,
    }
}

const CONTENT: &str = "#[pallet::storage]\npub type Owners<T> = StorageMap<_, Identity, T::AccountId, u32>;\n";

#[test]
fn sec014_reports_identity_on_an_account_key() {
    let ctx = hasher_ctx(CONTENT);
    let site = storage(1, "StorageMap", vec![arg("_", &["_"]), arg("Identity", &["Identity"]), arg("AccountId", &["T", "AccountId"]), arg("u32", &["u32"])], &[]);
    let found = IdentityHasherOnCommonKeys.check(&ctx, &hasher_config(), Some(vec![site])).unwrap();
    assert_eq!(found.len(), 1);
    assert_eq!(found[0].rule_id, "SEC014");
    assert_eq!(found[0].message, "Storage map uses `Identity` hasher on a common key type");
}

#[test]
fn sec014_reads_both_keys_of_a_double_map() {
    let ctx = hasher_ctx(CONTENT);
    let second = storage(1, "StorageDoubleMap", vec![arg("_", &[]), arg("Blake2_128Concat", &[]), arg("H256", &[]), arg("Identity", &[]), arg("BlockNumberFor", &["BlockNumberFor"]), arg("u8", &[])], &[]);
    assert!(IdentityHasherOnCommonKeys.check(&ctx, &hasher_config(), Some(vec![second])).is_none());
    let balance = storage(1, "StorageDoubleMap", vec![arg("_", &[]), arg("Blake2_128Concat", &[]), arg("H256", &[]), arg("Identity", &[]), arg("BalanceOf", &["BalanceOf", "Balance"]), arg("u8", &[])], &[]);
    assert!(IdentityHasherOnCommonKeys.check(&ctx, &hasher_config(), Some(vec![balance])).is_some());
}

#[test]
fn sec014_accepts_a_documented_numeric_layout() {
    let ctx = hasher_ctx(CONTENT);
    let ring = storage(1, "StorageMap", vec![arg("_", &[]), arg("Identity", &[]), arg("u32", &["u32"]), arg("H256", &[])], &["A ring", "buffer of recent hashes."]);
    assert!(IdentityHasherOnCommonKeys.check(&ctx, &hasher_config(), Some(vec![ring])).is_none());
    let undocumented = storage(1, "StorageMap", vec![arg("_", &[]), arg("Identity", &[]), arg("u64", &["u64"]), arg("H256", &[])], &["Recent hashes."]);
    assert!(IdentityHasherOnCommonKeys.check(&ctx, &hasher_config(), Some(vec![undocumented])).is_some());
}

#[test]
fn sec014_needs_a_pallet_storage_map() {
    let ctx = hasher_ctx(CONTENT);
    let mut plain = storage(1, "StorageMap", vec![arg("_", &[]), arg("Identity", &[]), arg("u32", &["u32"])], &[]);
    plain.attr_paths = vec![vec!["doc".to_string()]];
    assert!(IdentityHasherOnCommonKeys.check(&ctx, &hasher_config(), Some(vec![plain])).is_none());
    let value = storage(1, "StorageValue", vec![arg("_", &[]), arg("Identity", &[]), arg("u32", &["u32"])], &[]);
    assert!(IdentityHasherOnCommonKeys.check(&ctx, &hasher_config(), Some(vec![value])).is_none());
    assert!(IdentityHasherOnCommonKeys.check(&ctx, &hasher_config(), None).is_none());
}

fn collection(line: usize, docs: &[&str]) -> StorageTypeSite {
    let mut s = storage(line, "StorageValue", vec![arg("_", &[]), arg("Vec", &["Vec", "u8"])], docs);
    s.unbounded_collection = true;
    s
}

fn attr(path: &[&str], tokens: &str) -> AttrSite {
    AttrSite {
        path: path.iter().map(|s| s.to_string()).collect(),
        tokens: tokens.to_string(),
        line: 1,
        column: 1,
        arg_call: None,
        arg_method_calls: None,
        arg_paths: None,
    }
}

const VALUE: &str = "#[pallet::storage]\npub type Names<T> = StorageValue<_, Vec<u8>>;\n";

#[test]
fn sec013_reports_an_unbounded_collection() {
    let ctx = hasher_ctx(VALUE);
    let found = UnboundedStorageCollections.check(&ctx, &hasher_config(), Some((vec![collection(1, &[])], Vec::new()))).unwrap();
    assert_eq!(found.len(), 1);
    assert_eq!(found[0].rule_id, "SEC013");
    assert_eq!(found[0].message, "Storage item uses `Vec`/`BTreeMap` without `#[pallet::unbounded]`");
}

#[test]
fn sec013_accepts_unbounded_attribute_bounding_docs_and_dev_mode() {
    let ctx = hasher_ctx(VALUE);
    let mut marked = collection(1, &[]);
    marked.attr_paths.push(vec!["pallet".to_string(), "unbounded".to_string()]);
    assert!(UnboundedStorageCollections.check(&ctx, &hasher_config(), Some((vec![marked], Vec::new()))).is_none());
    let documented = collection(1, &["The length is limited by", "`MaxNames`."]);
    assert!(UnboundedStorageCollections.check(&ctx, &hasher_config(), Some((vec![documented], Vec::new()))).is_none());
    let disclaimed = collection(1, &["Bounded by nothing: unbounded in practice."]);
    assert!(UnboundedStorageCollections.check(&ctx, &hasher_config(), Some((vec![disclaimed], Vec::new()))).is_some());
    let dev = vec![attr(&["frame_support", "pallet"], "# [frame_support :: pallet (dev_mode)]")];
    assert!(UnboundedStorageCollections.check(&ctx, &hasher_config(), Some((vec![collection(1, &[])], dev))).is_none());
    let bounded = storage(1, "StorageValue", vec![arg("_", &[]), arg("BoundedVec", &["BoundedVec", "u8"])], &[]);
    assert!(UnboundedStorageCollections.check(&ctx, &hasher_config(), Some((vec![bounded], Vec::new()))).is_none());
    assert!(UnboundedStorageCollections.check(&ctx, &hasher_config(), None).is_none());
}
