use substrate_lint::config::{
    BenchmarkingConfig, Config, MockUsageConfig, TerminologyConfig, TestSmellsConfig,
    ValidationOrderConfig,
};
use substrate_lint::context::FileContext;
use substrate_lint::rules::benchmarking::{
    collect_benchmark_names, collect_extrinsic_names, collect_weight_function_names,
    has_matching_benchmark_name, BenchmarkFiles, BenchmarkForWeightFunction,
    ExtrinsicWithoutBenchmark, FileProbe,
};

fn bench_config() -> Config {
    Config {
        rules: Vec::new(),
        terminology: TerminologyConfig {
            british_english: Vec::new(),
            forbidden_terms: Vec::new(),
            check_strings: false,
            check_identifiers: false,
        },
        benchmarking: BenchmarkingConfig { verification_patterns: vec!["assert_last_event".to_string()] },
        mock_usage: MockUsageConfig { mock_patterns: Vec::new(), max_mock_expectations: 5 },
        test_smells: TestSmellsConfig { internal_field_patterns: Vec::new() },
        validation_order: ValidationOrderConfig {
            heavy_operations: Vec::new(),
            cheap_validations: Vec::new(),
        },
    }
}

fn bench_ctx(path: &str, rel: &str, content: &str) -> FileContext {
    FileContext {
        path: path.to_string(),
        rel_path: rel.to_string(),
        content: content.to_string(),
        is_rust: true,
        is_text: false,
        is_test_file: false,
        is_benchmark_file: false,
        is_proc_macro_target: false,
        in_cfg_gated_module: false,
    }
}

const WEIGHTS: &str = "pub trait WeightInfo {\n    fn transfer() -> Weight;\n    fn burn(n: u32) -> Weight;\n}\n";

#[test]
fn weight_functions_are_found_in_the_text() {
    let names = collect_weight_function_names(Vec::new(), &WEIGHTS.to_string());
    assert_eq!(names, vec![("transfer".to_string(), 2), ("burn".to_string(), 3)]);
}

#[test]
fn syntax_tree_weight_functions_win_over_the_text() {
    let names = collect_weight_function_names(vec![("only".to_string(), 7)], &WEIGHTS.to_string());
    assert_eq!(names, vec![("only".to_string(), 7)]);
}

#[test]
fn benchmark_names_from_attributes_and_macro_blocks() {
    let text = "#[benchmarks]\nmod benches {\n    #[benchmark]\n    #[extra]\n\n    fn transfer() {}\n    burn {\n    // note {\n    impl {\n}\n";
    let names = collect_benchmark_names(vec!["ast_one".to_string()], &text.to_string());
    assert!(names.contains(&"ast_one".to_string()));
    assert!(names.contains(&"transfer".to_string()));
    assert!(names.contains(&"burn".to_string()));
    assert!(!names.contains(&"impl".to_string()));
    assert!(!names.contains(&"note".to_string()));
}

#[test]
fn extrinsics_follow_call_index_within_four_lines() {
    let text = "#[pallet::call_index(0)]\n#[pallet::weight(1)]\npub fn transfer(o: O) {}\n#[pallet::call_index(1)]\n\n\n\n\npub fn too_far() {}\n";
    let names = collect_extrinsic_names(Vec::new(), &text.to_string());
    assert_eq!(names, vec![("transfer".to_string(), 3)]);
}

#[test]
fn suffixed_benchmark_covers_extrinsic_but_not_prefix_only() {
    let names = vec!["transfer_keep_alive".to_string(), "burnt".to_string()];
    assert!(has_matching_benchmark_name(&names, "transfer"));
    assert!(has_matching_benchmark_name(&names, "transfer_keep_alive"));
    assert!(!has_matching_benchmark_name(&names, "burn"));
}

#[test]
fn ben001_reports_weight_functions_without_benchmark() {
    let ctx = bench_ctx("pallet/src/weights.rs", "pallet/src/weights.rs", WEIGHTS);
    let files = BenchmarkFiles {
        benchmarking: FileProbe::Read {
            text: "#[benchmark]\nfn transfer() {}\n".to_string(),
            ast_benchmarks: Vec::new(),
        },
        benchmarks: FileProbe::Missing,
    };
    let found = BenchmarkForWeightFunction.check(&ctx, &bench_config(), Vec::new(), files).unwrap();
    assert_eq!(found.len(), 1);
    assert_eq!(found[0].line, 3);
    assert_eq!(found[0].message, "Weight function `burn` has no corresponding benchmark in `benchmarking.rs`");
    assert_eq!(found[0].suggestion.as_deref(), Some("Add a `#[benchmark] fn burn` in `benchmarking.rs`"));
}

#[test]
fn ben001_without_benchmark_file_reports_every_weight_function() {
    let ctx = bench_ctx("pallet/src/weights.rs", "pallet/src/weights.rs", WEIGHTS);
    let files = BenchmarkFiles { benchmarking: FileProbe::Missing, benchmarks: FileProbe::Missing };
    let found = BenchmarkForWeightFunction.check(&ctx, &bench_config(), Vec::new(), files).unwrap();
    assert_eq!(found.len(), 2);
    assert_eq!(
        found[0].message,
        "Weight function `transfer` has no benchmark — `benchmarking.rs` not found in the same directory"
    );
}

#[test]
fn ben001_ignores_other_files() {
    let ctx = bench_ctx("pallet/src/lib.rs", "pallet/src/lib.rs", WEIGHTS);
    let files = BenchmarkFiles { benchmarking: FileProbe::Missing, benchmarks: FileProbe::Missing };
    assert!(BenchmarkForWeightFunction.check(&ctx, &bench_config(), Vec::new(), files).is_none());
}

const PALLET: &str = "#[pallet::call]\nimpl<T: Config> Pallet<T> {\n    #[pallet::call_index(0)]\n    pub fn transfer() {}\n    #[pallet::call_index(1)]\n    pub fn burn() {}\n}\n";

#[test]
fn ben003_reports_uncovered_extrinsics() {
    let ctx = bench_ctx("pallet/src/lib.rs", "pallet/src/lib.rs", PALLET);
    let files = BenchmarkFiles {
        benchmarking: FileProbe::Missing,
        benchmarks: FileProbe::Read { text: String::new(), ast_benchmarks: vec!["transfer_all".to_string()] },
    };
    let found = ExtrinsicWithoutBenchmark.check(&ctx, &bench_config(), Vec::new(), files).unwrap();
    assert_eq!(found.len(), 1);
    assert_eq!(found[0].line, 6);
    assert_eq!(found[0].message, "Extrinsic `burn` has no matching benchmark in `benchmarking.rs`");
}

#[test]
fn ben003_without_benchmark_file_reports_all_and_unreadable_reports_none() {
    let ctx = bench_ctx("pallet/src/lib.rs", "pallet/src/lib.rs", PALLET);
    let none = BenchmarkFiles { benchmarking: FileProbe::Missing, benchmarks: FileProbe::Missing };
    let found = ExtrinsicWithoutBenchmark.check(&ctx, &bench_config(), Vec::new(), none).unwrap();
    assert_eq!(found.len(), 2);
    assert_eq!(found[1].message, "Extrinsic `burn` has no benchmark — no benchmarking file found");
    let unreadable = BenchmarkFiles { benchmarking: FileProbe::Unreadable, benchmarks: FileProbe::Missing };
    assert!(ExtrinsicWithoutBenchmark.check(&ctx, &bench_config(), Vec::new(), unreadable).is_none());
}
