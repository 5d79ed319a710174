use substrate_lint::config::{
    BenchmarkingConfig, Config, MockUsageConfig, RuleOverride, TerminologyConfig,
    TestSmellsConfig, ValidationOrderConfig,
};
use substrate_lint::diagnostics::Severity;
use substrate_lint::rustdoc_analysis::{
    analyze_rustdoc_json_str, analyze_rustdoc_json_value, contains_unbounded_exec, JsonValue,
};

fn rustdoc_config(rules: Vec<RuleOverride>) -> Config {
    Config {
        rules,
        terminology: TerminologyConfig {
            british_english: Vec::new(),
            forbidden_terms: Vec::new(),
            check_strings: false,
            check_identifiers: false,
        },
        benchmarking: BenchmarkingConfig { verification_patterns: Vec::new() },
        mock_usage: MockUsageConfig { mock_patterns: Vec::new(), max_mock_expectations: 5 },
        test_smells: TestSmellsConfig { internal_field_patterns: Vec::new() },
        validation_order: ValidationOrderConfig {
            heavy_operations: Vec::new(),
            cheap_validations: Vec::new(),
        },
    }
}

fn s(text: &str) -> JsonValue {
    JsonValue::String(text.to_string())
}

fn obj(entries: Vec<(&str, JsonValue)>) -> JsonValue {
    JsonValue::Object(entries.into_iter().map(|(k, v)| (k.to_string(), v)).collect())
}

fn resolved(path: &str, args: Vec<JsonValue>) -> JsonValue {
    let arg_values = args.into_iter().map(|t| obj(vec![("type", t)])).collect();
    obj(vec![(
        "resolved_path",
        obj(vec![
            ("path", s(path)),
            (
                "args",
                obj(vec![("angle_bracketed", obj(vec![("args", JsonValue::Array(arg_values))]))]),
            ),
        ]),
    )])
}

fn prim(name: &str) -> JsonValue {
    obj(vec![("primitive", s(name))])
}

fn storage_item(name: &str, file: &str, line: u64, column: u64, ty: JsonValue, docs: Option<&str>) -> JsonValue {
    let mut entries = vec![
        ("name", s(name)),
        (
            "span",
            obj(vec![
                ("filename", s(file)),
                (
                    "begin",
                    JsonValue::Array(vec![
                        JsonValue::Number(Some(line)),
                        JsonValue::Number(Some(column)),
                    ]),
                ),
            ]),
        ),
        ("inner", obj(vec![("type_alias", obj(vec![("type", ty)]))])),
    ];
    if let Some(d) = docs {
        entries.push(("docs", s(d)));
    }
    obj(entries)
}

fn value_map(value: JsonValue) -> JsonValue {
    resolved(
        "frame_support::storage::types::StorageMap",
        vec![prim("u8"), prim("Blake2_128Concat"), prim("u32"), value],
    )
}

#[test]
fn reports_unbounded_vec_in_storage_map_value() {
    let item = storage_item(
        "Queue",
        "pallets/a/src/lib.rs",
        12,
        4,
        value_map(resolved("alloc::vec::Vec", vec![prim("u8")])),
        None,
    );
    let root = obj(vec![("index", obj(vec![("0:1", item)]))]);
    let found = analyze_rustdoc_json_value(Ok(root), None, &rustdoc_config(Vec::new())).unwrap();
    assert_eq!(found.len(), 1);
    assert_eq!(found[0].rule_id, "SEC013");
    assert_eq!(found[0].rule_name, "unbounded-storage-collections");
    assert_eq!(found[0].line, 12);
    assert_eq!(found[0].column, Some(4));
    assert_eq!(found[0].file, "pallets/a/src/lib.rs");
    assert_eq!(found[0].severity, Severity::Warning);
    assert_eq!(found[0].message, "`Queue` stores an unbounded collection in `StorageMap`");
}

#[test]
fn bounded_vec_and_documented_capacity_are_not_reported() {
    let bounded = storage_item(
        "Bounded",
        "lib.rs",
        3,
        1,
        value_map(resolved("BoundedVec", vec![resolved("Vec", vec![prim("u8")]), prim("ConstU32")])),
        None,
    );
    let documented = storage_item(
        "Documented",
        "lib.rs",
        5,
        1,
        value_map(resolved("Vec", vec![prim("u8")])),
        Some("The capacity is limited by MaxQueue."),
    );
    let root = obj(vec![("index", obj(vec![("0:1", bounded), ("0:2", documented)]))]);
    let found = analyze_rustdoc_json_value(Ok(root), None, &rustdoc_config(Vec::new())).unwrap();
    assert!(found.is_empty());
}

#[test]
fn rustdoc_report_is_sorted_by_file_and_line() {
    let late = storage_item("Late", "b.rs", 9, 1, value_map(resolved("Vec", vec![prim("u8")])), None);
    let early = storage_item("Early", "a.rs", 20, 1, value_map(resolved("BTreeMap", vec![])), None);
    let same_file = storage_item("Second", "b.rs", 2, 1, value_map(resolved("VecDeque", vec![])), None);
    let root = obj(vec![("index", obj(vec![("1", late), ("2", early), ("3", same_file)]))]);
    let found = analyze_rustdoc_json_value(Ok(root), None, &rustdoc_config(Vec::new())).unwrap();
    let places: Vec<(String, usize)> = found.iter().map(|d| (d.file.clone(), d.line)).collect();
    assert_eq!(
        places,
        vec![("a.rs".to_string(), 20), ("b.rs".to_string(), 2), ("b.rs".to_string(), 9)]
    );
}

#[test]
fn relative_span_file_is_joined_to_source_root() {
    let item = storage_item("Queue", "src/lib.rs", 1, 1, value_map(resolved("Vec", vec![])), None);
    let root = obj(vec![("index", obj(vec![("0", item)]))]);
    let found = analyze_rustdoc_json_value(Ok(root), Some("/work/pallet".to_string()), &rustdoc_config(Vec::new())).unwrap();
    assert_eq!(found[0].file, "/work/pallet/src/lib.rs");
}

#[test]
fn rustdoc_errors_name_the_problem() {
    let config = rustdoc_config(Vec::new());
    let bad = analyze_rustdoc_json_value(Err("expected value at line 1 column 1".to_string()), None, &config);
    assert_eq!(bad.unwrap_err(), "invalid rustdoc JSON: expected value at line 1 column 1");
    let no_index = analyze_rustdoc_json_value(Ok(obj(vec![("paths", obj(vec![]))])), None, &config);
    assert_eq!(no_index.unwrap_err(), "rustdoc JSON did not contain an object at `index`");
}

#[test]
fn disabled_sec013_returns_nothing_even_for_invalid_json() {
    let config = rustdoc_config(vec![RuleOverride {
        rule_id: "SEC013".to_string(),
        enabled: false,
        severity: None,
    }]);
    let found = analyze_rustdoc_json_value(Err("broken".to_string()), None, &config).unwrap();
    assert!(found.is_empty());
}

#[test]
fn unbounded_collection_inside_bounded_wrapper_is_allowed() {
    let inner = resolved("BoundedBTreeMap", vec![resolved("Vec", vec![])]);
    assert!(!contains_unbounded_exec(&inner, false));
    let plain = JsonValue::Array(vec![prim("u8"), resolved("std::collections::LinkedList", vec![])]);
    assert!(contains_unbounded_exec(&plain, false));
}

const QUEUE_DOC: &str = r#"{
  "index": {
    "0:1": {
      "name": "Queue",
      "span": { "filename": "pallets/a/src/lib.rs", "begin": [12, 4] },
      "inner": { "type_alias": { "type": { "resolved_path": {
        "path": "frame_support::storage::types::StorageMap",
        "args": { "angle_bracketed": { "args": [
          { "type": { "primitive": "u8" } },
          { "type": { "primitive": "Blake2_128Concat" } },
          { "type": { "primitive": "u32" } },
          { "type": { "resolved_path": {
            "path": "alloc::vec::Vec",
            "args": { "angle_bracketed": { "args": [ { "type": { "primitive": "u8" } } ] } }
          } } }
        ] } }
      } } } }
    }
  }
}"#;

#[test]
fn json_text_is_parsed_and_reported() {
    let found = analyze_rustdoc_json_str(QUEUE_DOC, None, &rustdoc_config(Vec::new())).unwrap();
    assert_eq!(found.len(), 1);
    assert_eq!(found[0].rule_id, "SEC013");
    assert_eq!(found[0].line, 12);
    assert_eq!(found[0].column, Some(4));
    assert_eq!(found[0].file, "pallets/a/src/lib.rs");
    assert_eq!(found[0].message, "`Queue` stores an unbounded collection in `StorageMap`");
}

#[test]
fn json_text_span_joined_to_source_root() {
    let found = analyze_rustdoc_json_str(QUEUE_DOC, Some("/work".to_string()), &rustdoc_config(Vec::new())).unwrap();
    assert_eq!(found.len(), 1);
    assert_eq!(found[0].file, "/work/pallets/a/src/lib.rs");
}

#[test]
fn invalid_json_text_is_an_error() {
    let config = rustdoc_config(Vec::new());
    let bad = analyze_rustdoc_json_str("{ not json", None, &config).unwrap_err();
    assert!(bad.starts_with("invalid rustdoc JSON: "));
    assert!(bad.len() > "invalid rustdoc JSON: ".len());
    let no_index = analyze_rustdoc_json_str(r#"{"paths": {}}"#, None, &config).unwrap_err();
    assert_eq!(no_index, "rustdoc JSON did not contain an object at `index`");
}

#[test]
fn disabled_sec013_skips_even_unparsable_text() {
    let config = rustdoc_config(vec![RuleOverride {
        rule_id: "SEC013".to_string(),
        enabled: false,
        severity: None,
    }]);
    assert!(analyze_rustdoc_json_str("{ not json", None, &config).unwrap().is_empty());
}
