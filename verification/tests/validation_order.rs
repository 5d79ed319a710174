use substrate_lint::config::{
    BenchmarkingConfig, Config, MockUsageConfig, TerminologyConfig, TestSmellsConfig,
    ValidationOrderConfig,
};
use substrate_lint::context::FileContext;
use substrate_lint::rules::semantic::StorageWriteBeforeValidation;
use substrate_lint::rules::validation_order::{OrderFn, OrderStmt, OrderStmtKind};

fn order_config() -> Config {
    Config {
        rules: Vec::new(),
        terminology: TerminologyConfig {
            british_english: Vec::new(),
            forbidden_terms: Vec::new(),
            check_strings: false,
            check_identifiers: false,
        },
        benchmarking: BenchmarkingConfig { verification_patterns: Vec::new() },
        mock_usage: MockUsageConfig { mock_patterns: Vec::new(), max_mock_expectations: 5 },
        test_smells: TestSmellsConfig { internal_field_patterns: Vec::new() },
        validation_order: ValidationOrderConfig { heavy_operations: Vec::new(), cheap_validations: Vec::new() },
    }
}

fn order_ctx(content: &str) -> FileContext {
    FileContext {
        path: "substrate/frame/nis/src/lib.rs".to_string(),
        rel_path: "substrate/frame/nis/src/lib.rs".to_string(),
        content: content.to_string(),
        is_rust: true,
        is_text: false,
        is_test_file: false,
        is_benchmark_file: false,
        is_proc_macro_target: false,
        in_cfg_gated_module: false,
    }
}

fn write(line: usize, path: &str) -> OrderStmt {
    OrderStmt { line, kind: OrderStmtKind::Expr, write: Some(path.to_string()), is_validation: false }
}

fn check(line: usize) -> OrderStmt {
    OrderStmt { line, kind: OrderStmtKind::LocalInit, write: None, is_validation: true }
}

fn plain(line: usize) -> OrderStmt {
    OrderStmt { line, kind: OrderStmtKind::Expr, write: None, is_validation: false }
}

const BODY: &str = "fn f(origin: OriginFor<T>) -> DispatchResult {\n    Total::<T>::put(1);\n    step();\n    let who = ensure_signed(origin)?;\n    Queue::<T>::insert(who, 2);\n    Other::<T>::put(3);\n    let _ = ensure_root(o)?;\n    Ok(())\n}\n";

#[test]
fn val003_reports_a_write_before_a_validation() {
    let ctx = order_ctx(BODY);
    let f = OrderFn {
        statements: vec![write(2, "Total :: < T > :: put"), plain(3), check(4), write(5, "Queue :: < T > :: insert"), write(6, "Other :: < T > :: put"), check(7), plain(8)],
    };
    let found = StorageWriteBeforeValidation.check(&ctx, &order_config(), Some(vec![f])).unwrap();
    let got: Vec<(usize, Option<usize>, &str)> = found.iter().map(|d| (d.line, d.end_line, d.message.as_str())).collect();
    assert_eq!(
        got,
        vec![
            (2, Some(4), "Storage write `Total :: < T > :: put` at line 2 occurs before validation `ensure!` at line 4"),
            (5, Some(7), "Storage write `Queue :: < T > :: insert` at line 5 occurs before validation `ensure!` at line 7"),
        ]
    );
    assert_eq!(found[0].rule_id, "VAL003");
    assert_eq!(found[0].column, None);
    assert_eq!(found[0].suggestion.as_deref(), Some("Move all ensure! checks before any storage writes"));
}

#[test]
fn val003_accepts_validations_first_and_skips_other_statements() {
    let ctx = order_ctx(BODY);
    let ordered = OrderFn { statements: vec![check(2), write(3, "Total::put"), plain(4)] };
    assert!(StorageWriteBeforeValidation.check(&ctx, &order_config(), Some(vec![ordered])).is_none());
    let macro_stmt = OrderFn {
        statements: vec![
            write(2, "Total::put"),
            OrderStmt { line: 3, kind: OrderStmtKind::Other, write: None, is_validation: true },
        ],
    };
    assert!(StorageWriteBeforeValidation.check(&ctx, &order_config(), Some(vec![macro_stmt])).is_none());
    let same_line = OrderFn {
        statements: vec![OrderStmt { line: 2, kind: OrderStmtKind::Expr, write: Some("A::put".to_string()), is_validation: true }],
    };
    assert!(StorageWriteBeforeValidation.check(&ctx, &order_config(), Some(vec![same_line])).is_none());
}

#[test]
fn val003_skips_test_modules_and_unparsed_files() {
    let content = "#[cfg(test)]\nmod tests {\n    fn t() {\n        A::put(1);\n        ensure_root(o);\n    }\n}\n";
    let ctx = order_ctx(content);
    let f = OrderFn { statements: vec![write(4, "A::put"), check(5)] };
    assert!(StorageWriteBeforeValidation.check(&ctx, &order_config(), Some(vec![f])).is_none());
    assert!(StorageWriteBeforeValidation.check(&ctx, &order_config(), None).is_none());
}
