use substrate_lint::config::{
    BenchmarkingConfig, Config, MockUsageConfig, TerminologyConfig, TestSmellsConfig,
    ValidationOrderConfig,
};
use substrate_lint::context::FileContext;
use substrate_lint::rules::dispatchables::{DispatchableModel, IterFnSite, IterImplSite, VecParam};
use substrate_lint::rules::semantic::{
    MissingWeightForUnboundedInput, StorageIterationInDispatchables, UnboundedVecInExtrinsic,
};

fn pallet_config() -> Config {
    Config {
        rules: Vec::new(),
        terminology: TerminologyConfig {
            british_english: Vec::new(),
            forbidden_terms: Vec::new(),
            check_strings: false,
            check_identifiers: false,
        },
        benchmarking: BenchmarkingConfig { verification_patterns: Vec::new() },
        mock_usage: MockUsageConfig { mock_patterns: Vec::new(), max_mock_expectations: 5 },
        test_smells: TestSmellsConfig { internal_field_patterns: Vec::new() },
        validation_order: ValidationOrderConfig { heavy_operations: Vec::new(), cheap_validations: Vec::new() },
    }
}

fn pallet_ctx(content: &str) -> FileContext {
    FileContext {
        path: "substrate/frame/identity/src/lib.rs".to_string(),
        rel_path: "substrate/frame/identity/src/lib.rs".to_string(),
        content: content.to_string(),
        is_rust: true,
        is_text: false,
        is_test_file: false,
        is_benchmark_file: false,
        is_proc_macro_target: false,
        in_cfg_gated_module: false,
    }
}

fn param(name: &str, bounded: bool, weighed: bool) -> VecParam {
    VecParam { name: name.to_string(), bounded_in_body: bounded, weight_accounts: weighed }
}

fn dispatchable(name: &str, params: Vec<VecParam>) -> DispatchableModel {
    DispatchableModel {
        name: name.to_string(),
        line: 4,
        column: 16,
        privileged: false,
        deprecated: false,
        has_max_weight: false,
        consumes_max_block: false,
        unbounded_vec_params: params,
    }
}

const CALLS: &str = "#[pallet::call]\nimpl<T: Config> Pallet<T> {\n    #[pallet::call_index(0)]\n    pub fn set_names(origin: OriginFor<T>, names: Vec<Vec<u8>>, _extra: Vec<u8>) -> DispatchResult {\n        Ok(())\n    }\n}\n";

#[test]
fn sec001_reports_an_unguarded_vec_parameter() {
    let ctx = pallet_ctx(CALLS);
    let d = dispatchable("set_names", vec![param("names", false, false)]);
    let found = UnboundedVecInExtrinsic.check(&ctx, &pallet_config(), Some(vec![d])).unwrap();
    assert_eq!(found.len(), 1);
    assert_eq!(found[0].message, "Extrinsic `set_names` accepts unbounded `Vec<T>` parameter");
    assert_eq!((found[0].line, found[0].column), (4, Some(16)));
}

#[test]
fn sec001_accepts_guarded_privileged_and_deprecated_calls() {
    let ctx = pallet_ctx(CALLS);
    let guarded = dispatchable("a", vec![param("names", true, false), param("other", false, true)]);
    let mut privileged = dispatchable("b", vec![param("names", false, false)]);
    privileged.privileged = true;
    let mut deprecated = dispatchable("c", vec![param("names", false, false)]);
    deprecated.deprecated = true;
    let mut heavy = dispatchable("d", vec![param("names", false, false)]);
    heavy.has_max_weight = true;
    assert!(UnboundedVecInExtrinsic.check(&ctx, &pallet_config(), Some(vec![guarded, privileged, deprecated, heavy])).is_none());
}

#[test]
fn sec018_reports_each_parameter_the_weight_ignores() {
    let ctx = pallet_ctx(CALLS);
    let d = dispatchable(
        "set_names",
        vec![param("names", false, false), param("_extra", false, false), param("bounded", true, false), param("weighed", false, true), param("more", false, false)],
    );
    let found = MissingWeightForUnboundedInput.check(&ctx, &pallet_config(), Some(vec![d])).unwrap();
    let messages: Vec<&str> = found.iter().map(|d| d.message.as_str()).collect();
    assert_eq!(
        messages,
        vec![
            "Extrinsic `set_names` accepts unbounded `names` but its weight does not account for its length",
            "Extrinsic `set_names` accepts unbounded `more` but its weight does not account for its length",
        ]
    );
    assert_eq!(
        found[0].suggestion.as_deref(),
        Some("Pass `names.len() as u32` or an equivalent encoded-size parameter into the benchmarked `WeightInfo` call")
    );
    let mut whole_block = dispatchable("x", vec![param("names", false, false)]);
    whole_block.consumes_max_block = true;
    assert!(MissingWeightForUnboundedInput.check(&ctx, &pallet_config(), Some(vec![whole_block])).is_none());
}

fn iter_fn(name: &str, call_index: bool, tokens: &str) -> IterFnSite {
    IterFnSite {
        name: name.to_string(),
        line: 4,
        call_index,
        calls: vec![
            (vec!["Names".to_string(), "iter".to_string()], 5, 20),
            (vec!["iter".to_string()], 6, 20),
            (vec!["Old".to_string(), "drain".to_string()], 7, 9),
            (vec!["Names".to_string(), "get".to_string()], 8, 9),
        ],
        body_tokens: tokens.to_string(),
    }
}

#[test]
fn sec011_reports_iteration_in_dispatchables_and_hooks() {
    let ctx = pallet_ctx(CALLS);
    let impls = vec![
        IterImplSite { call_impl: true, fns: vec![iter_fn("set_names", true, "{ }"), iter_fn("force_clear", true, "{ }")] },
        IterImplSite { call_impl: false, fns: vec![iter_fn("on_idle", false, "{ }"), iter_fn("on_poll", false, "{ let mut meter = WeightMeter :: new () ; x . take (5) }")] },
    ];
    let privileged = vec!["force_clear".to_string()];
    let found = StorageIterationInDispatchables.check(&ctx, &pallet_config(), Some(impls), &privileged).unwrap();
    let got: Vec<(usize, &str)> = found.iter().map(|d| (d.line, d.message.as_str())).collect();
    assert_eq!(
        got,
        vec![
            (7, "Dispatchable `set_names` iterates storage with `iter()`/`drain()`"),
            (7, "Hook `on_idle` iterates storage with `iter()`/`drain()`"),
        ]
    );
    assert_eq!(found[0].column, Some(9));
}
