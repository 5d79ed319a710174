use substrate_lint::config::{
    BenchmarkingConfig, Config, MockUsageConfig, TerminologyConfig, TestSmellsConfig,
    ValidationOrderConfig,
};
use substrate_lint::context::FileContext;
use substrate_lint::rules::semantic::{DbWeightMissingPov, ExpensiveWeightCalculation, UnsafeWeightArithmetic};
use substrate_lint::rules::syntax_rules::MethodCallSite;
use substrate_lint::rules::weight_exprs::{WeightAttrSite, WeightNode};

fn weight_config() -> Config {
    Config {
        rules: Vec::new(),
        terminology: TerminologyConfig {
            british_english: Vec::new(),
            forbidden_terms: Vec::new(),
            check_strings: false,
            check_identifiers: false,
        },
        benchmarking: BenchmarkingConfig { verification_patterns: Vec::new() },
        mock_usage: MockUsageConfig { mock_patterns: Vec::new(), max_mock_expectations: 5 },
        test_smells: TestSmellsConfig { internal_field_patterns: Vec::new() },
        validation_order: ValidationOrderConfig { heavy_operations: Vec::new(), cheap_validations: Vec::new() },
    }
}

fn weight_ctx(path: &str, content: &str) -> FileContext {
    FileContext {
        path: path.to_string(),
        rel_path: path.to_string(),
        content: content.to_string(),
        is_rust: true,
        is_text: false,
        is_test_file: false,
        is_benchmark_file: false,
        is_proc_macro_target: false,
        in_cfg_gated_module: false,
    }
}

fn strings(v: &[&str]) -> Vec<String> {
    v.iter().map(|s| s.to_string()).collect()
}

fn weight_attr(line: usize, nodes: Vec<WeightNode>) -> WeightAttrSite {
    WeightAttrSite { path: strings(&["pallet", "weight"]), line, nodes: Some(nodes) }
}

fn call(path: &[&str], compact: &str, column: usize) -> WeightNode {
    WeightNode::Call { path: strings(path), compact: compact.to_string(), line: 2, column }
}

fn method(name: &str, column: usize) -> WeightNode {
    WeightNode::MethodCall { method: name.to_string(), line: 2, column }
}

const PALLET: &str = "substrate/frame/nis/src/lib.rs";
const BODY: &str = "impl<T: Config> Pallet<T> {\n    #[pallet::weight(T::WeightInfo::f(x) + Foo::<T>::get().mul(2) + call.encode().len() as u64)]\n    pub fn f(origin: OriginFor<T>) -> DispatchResult { Ok(()) }\n}\n";

fn nodes() -> Vec<WeightNode> {
    vec![
        WeightNode::Binary { add_or_mul: true, line: 2, column: 22 },
        WeightNode::Binary { add_or_mul: true, line: 2, column: 22 },
        call(&["T", "WeightInfo", "f"], "T::WeightInfo::f", 22),
        method("mul", 45),
        call(&["Foo", "get"], "Foo::<T>::get", 45),
        WeightNode::Binary { add_or_mul: false, line: 2, column: 60 },
        method("len", 60),
        method("encode", 60),
    ]
}

#[test]
fn sec004_reports_plain_add_and_mul_in_weights() {
    let ctx = weight_ctx(PALLET, BODY);
    let found = UnsafeWeightArithmetic.check(&ctx, &weight_config(), Some(vec![weight_attr(2, nodes())])).unwrap();
    let columns: Vec<Option<usize>> = found.iter().map(|d| d.column).collect();
    assert_eq!(columns, vec![Some(22), Some(22), Some(45)]);
    assert_eq!(found[0].rule_id, "SEC004");
    assert_eq!(found[0].message, "Non-saturating arithmetic inside `#[pallet::weight(...)]` — overflow risk");
}

#[test]
fn sec005_reports_storage_reads_and_encoding_in_weights() {
    let ctx = weight_ctx(PALLET, BODY);
    let found = ExpensiveWeightCalculation.check(&ctx, &weight_config(), Some(vec![weight_attr(2, nodes())])).unwrap();
    let columns: Vec<Option<usize>> = found.iter().map(|d| d.column).collect();
    assert_eq!(columns, vec![Some(45), Some(60)]);
    assert_eq!(found[0].rule_id, "SEC005");
    let allowed = vec![
        call(&["T", "MaxItems", "get"], "T::MaxItems::get", 5),
        call(&["WeightInfo", "get"], "<TasWeightInfo>::get", 6),
        call(&["Something", "get_dispatch_info"], "Something::get_dispatch_info", 7),
    ];
    let found = ExpensiveWeightCalculation.check(&ctx, &weight_config(), Some(vec![weight_attr(2, allowed)])).unwrap();
    assert_eq!(found.len(), 1);
    assert_eq!(found[0].column, Some(7));
}

#[test]
fn weight_rules_read_only_pallet_weight_attributes_in_production_code() {
    let ctx = weight_ctx(PALLET, BODY);
    let other = WeightAttrSite { path: strings(&["pallet", "call_index"]), line: 2, nodes: Some(nodes()) };
    assert!(UnsafeWeightArithmetic.check(&ctx, &weight_config(), Some(vec![other])).is_none());
    let unparsed = WeightAttrSite { path: strings(&["pallet", "weight"]), line: 2, nodes: None };
    assert!(UnsafeWeightArithmetic.check(&ctx, &weight_config(), Some(vec![unparsed])).is_none());
    let test_mod = "#[cfg(test)]\nmod tests {\n    #[pallet::weight(a + b)]\n    fn f() {}\n}\n";
    let ctx = weight_ctx(PALLET, test_mod);
    let masked = weight_attr(3, vec![WeightNode::Binary { add_or_mul: true, line: 3, column: 22 }]);
    assert!(UnsafeWeightArithmetic.check(&ctx, &weight_config(), Some(vec![masked])).is_none());
    assert!(ExpensiveWeightCalculation.check(&ctx, &weight_config(), None).is_none());
}

fn method_call(name: &str, receiver: Option<(&[&str], usize)>, line: usize) -> MethodCallSite {
    MethodCallSite { method: name.to_string(), receiver_call: receiver.map(|(p, n)| (strings(p), n)), line, column: 9 }
}

#[test]
fn sem006_reports_db_weight_reads_and_writes() {
    let ctx = weight_ctx(PALLET, BODY);
    let calls = vec![
        method_call("reads", Some((&["T", "DbWeight", "get"], 0)), 2),
        method_call("reads_writes", Some((&["DbWeight", "get"], 0)), 3),
        method_call("reads", Some((&["RocksDbWeight", "get"], 0)), 4),
        method_call("writes", Some((&["T", "DbWeight", "get"], 1)), 5),
        method_call("saturating_add", Some((&["T", "DbWeight", "get"], 0)), 6),
    ];
    let found = DbWeightMissingPov.check(&ctx, &weight_config(), Some(calls)).unwrap();
    let lines: Vec<usize> = found.iter().map(|d| d.line).collect();
    assert_eq!(lines, vec![2, 3]);
    assert_eq!(found[0].rule_id, "SEM006");
    let weights = weight_ctx("substrate/frame/nis/src/weights.rs", BODY);
    let calls = vec![method_call("reads", Some((&["T", "DbWeight", "get"], 0)), 2)];
    assert!(DbWeightMissingPov.check(&weights, &weight_config(), Some(calls)).is_none());
}
