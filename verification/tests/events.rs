use substrate_lint::config::{
    BenchmarkingConfig, Config, MockUsageConfig, TerminologyConfig, TestSmellsConfig,
    ValidationOrderConfig,
};
use substrate_lint::context::FileContext;
use substrate_lint::rules::events::EventEnumSite;
use substrate_lint::rules::semantic::VecInEvents;

fn event_config() -> Config {
    Config {
        rules: Vec::new(),
        terminology: TerminologyConfig {
            british_english: Vec::new(),
            forbidden_terms: Vec::new(),
            check_strings: false,
            check_identifiers: false,
        },
        benchmarking: BenchmarkingConfig { verification_patterns: Vec::new() },
        mock_usage: MockUsageConfig { mock_patterns: Vec::new(), max_mock_expectations: 5 },
        test_smells: TestSmellsConfig { internal_field_patterns: Vec::new() },
        validation_order: ValidationOrderConfig { heavy_operations: Vec::new(), cheap_validations: Vec::new() },
    }
}

fn event_ctx(content: &str) -> FileContext {
    FileContext {
        path: "substrate/frame/remark/src/lib.rs".to_string(),
        rel_path: "substrate/frame/remark/src/lib.rs".to_string(),
        content: content.to_string(),
        is_rust: true,
        is_text: false,
        is_test_file: false,
        is_benchmark_file: false,
        is_proc_macro_target: false,
        in_cfg_gated_module: false,
    }
}

fn event(named: &[(&str, &str)], unnamed: bool) -> EventEnumSite {
    EventEnumSite {
        line: 1,
        column: 1,
        attr_paths: vec![vec!["pallet".to_string(), "event".to_string()]],
        named_vec_fields: named.iter().map(|(v, f)| (v.to_string(), f.to_string())).collect(),
        unnamed_vec_field: unnamed,
    }
}

const PLAIN: &str = "#[pallet::event]\npub enum Event<T> {\n    Stored { data: Vec<u8> },\n}\n";

#[test]
fn sec017_reports_vec_fields() {
    let ctx = event_ctx(PLAIN);
    let found = VecInEvents.check(&ctx, &event_config(), Some(vec![event(&[("Stored", "data")], false)])).unwrap();
    assert_eq!(found.len(), 1);
    assert_eq!(found[0].rule_id, "SEC017");
    assert_eq!(found[0].message, "`#[pallet::event]` contains a `Vec<T>` field");
    assert!(VecInEvents.check(&ctx, &event_config(), Some(vec![event(&[], true)])).is_some());
}

#[test]
fn sec017_accepts_bounded_flows_and_plain_events() {
    let flow = "#[pallet::event]\npub enum Event<T> {\n    Stored { data: Vec<u8> },\n}\nfn f(data: BoundedVec<u8, Max>) {\n    Self::deposit_event(Event::Stored { data: data.into() });\n}\n";
    let ctx = event_ctx(flow);
    assert!(VecInEvents.check(&ctx, &event_config(), Some(vec![event(&[("Stored", "data")], false)])).is_none());
    assert!(VecInEvents.check(&ctx, &event_config(), Some(vec![event(&[("Stored", "data")], true)])).is_some());
    assert!(VecInEvents.check(&ctx, &event_config(), Some(vec![event(&[], false)])).is_none());
    let mut not_event = event(&[("Stored", "data")], false);
    not_event.attr_paths = Vec::new();
    assert!(VecInEvents.check(&event_ctx(PLAIN), &event_config(), Some(vec![not_event])).is_none());
    assert!(VecInEvents.check(&event_ctx(PLAIN), &event_config(), None).is_none());
}
