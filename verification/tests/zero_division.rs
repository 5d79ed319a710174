use substrate_lint::config::{
    BenchmarkingConfig, Config, MockUsageConfig, TerminologyConfig, TestSmellsConfig,
    ValidationOrderConfig,
};
use substrate_lint::context::FileContext;
use substrate_lint::rules::semantic::DivisionWithoutZeroGuard;
use substrate_lint::rules::zero_division::{DivisionFn, DivisionSite, Divisor};

fn division_config() -> Config {
    Config {
        rules: Vec::new(),
        terminology: TerminologyConfig {
            british_english: Vec::new(),
            forbidden_terms: Vec::new(),
            check_strings: false,
            check_identifiers: false,
        },
        benchmarking: BenchmarkingConfig { verification_patterns: Vec::new() },
        mock_usage: MockUsageConfig { mock_patterns: Vec::new(), max_mock_expectations: 5 },
        test_smells: TestSmellsConfig { internal_field_patterns: Vec::new() },
        validation_order: ValidationOrderConfig { heavy_operations: Vec::new(), cheap_validations: Vec::new() },
    }
}

fn division_ctx(content: &str) -> FileContext {
    FileContext {
        path: "substrate/frame/staking/src/lib.rs".to_string(),
        rel_path: "substrate/frame/staking/src/lib.rs".to_string(),
        content: content.to_string(),
        is_rust: true,
        is_text: false,
        is_test_file: false,
        is_benchmark_file: false,
        is_proc_macro_target: false,
        in_cfg_gated_module: false,
    }
}

fn stmts(v: &[(usize, &str)]) -> Vec<(usize, String)> {
    v.iter().map(|(l, t)| (*l, t.to_string())).collect()
}

fn div(line: usize, divisor: Divisor) -> DivisionSite {
    DivisionSite { line, column: 17, divisor }
}

const BODY: &str = "fn f() -> u32 {\n    let n = validators.len();\n    let share = total / n;\n    let avg = total / Count::<T>::get();\n    let half = total / 2;\n    share\n}\n";

#[test]
fn val002_reports_divisions_by_risky_values() {
    let ctx = division_ctx(BODY);
    let f = DivisionFn {
        statements: stmts(&[(2, "letn=validators.len();"), (3, "letshare=total/n;"), (4, "letavg=total/Count::<T>::get();"), (5, "lethalf=total/2;")]),
        risky_bindings: vec![("n".to_string(), "validators.len()".to_string())],
        divisions: vec![
            div(3, Divisor::Path("n".to_string())),
            div(4, Divisor::Risky("Count :: < T > :: get".to_string())),
            div(5, Divisor::Other),
            div(6, Divisor::Path("m".to_string())),
        ],
    };
    let found = DivisionWithoutZeroGuard.check(&ctx, &division_config(), Some(vec![f])).unwrap();
    let lines: Vec<usize> = found.iter().map(|d| d.line).collect();
    assert_eq!(lines, vec![3, 4]);
    assert_eq!(found[0].rule_id, "VAL002");
    assert_eq!(found[0].column, Some(17));
    assert_eq!(found[0].message, "Division by config/storage value without a preceding zero guard");
}

#[test]
fn val002_accepts_a_zero_guard_in_the_ten_lines_before() {
    let ctx = division_ctx(BODY);
    let guarded = DivisionFn {
        statements: stmts(&[(2, "letn=validators.len();"), (3, "ensure!(n!=0,Error::<T>::Empty);")]),
        risky_bindings: vec![("n".to_string(), "validators . len ()".to_string())],
        divisions: vec![div(4, Divisor::Path("n".to_string()))],
    };
    assert!(DivisionWithoutZeroGuard.check(&ctx, &division_config(), Some(vec![guarded])).is_none());
    let by_key = DivisionFn {
        statements: stmts(&[(2, "ifvalidators.len()>0{}")]),
        risky_bindings: Vec::new(),
        divisions: vec![div(4, Divisor::Risky("validators . len ()".to_string()))],
    };
    assert!(DivisionWithoutZeroGuard.check(&ctx, &division_config(), Some(vec![by_key])).is_none());
    let too_early = DivisionFn {
        statements: stmts(&[(2, "ensure!(n!=0,Error::<T>::Empty);")]),
        risky_bindings: vec![("n".to_string(), "x".to_string())],
        divisions: vec![div(13, Divisor::Path("n".to_string()))],
    };
    assert!(DivisionWithoutZeroGuard.check(&ctx, &division_config(), Some(vec![too_early])).is_some());
    let same_line = DivisionFn {
        statements: stmts(&[(4, "letx=total.checked_div(n);")]),
        risky_bindings: vec![("n".to_string(), "x".to_string())],
        divisions: vec![div(4, Divisor::Path("n".to_string()))],
    };
    assert!(DivisionWithoutZeroGuard.check(&ctx, &division_config(), Some(vec![same_line])).is_some());
}

#[test]
fn val002_reads_the_last_binding_of_a_name() {
    let ctx = division_ctx(BODY);
    let f = DivisionFn {
        statements: Vec::new(),
        risky_bindings: vec![("n".to_string(), "a.len()".to_string()), ("n".to_string(), "b.count()".to_string())],
        divisions: vec![div(3, Divisor::Path("n".to_string()))],
    };
    let found = DivisionWithoutZeroGuard.check(&ctx, &division_config(), Some(vec![f])).unwrap();
    assert_eq!(found.len(), 1);
}

#[test]
fn val002_skips_test_modules_and_unparsed_files() {
    let content = "#[cfg(test)]\nmod tests {\n    fn t() { let x = a / v.len(); }\n}\n";
    let ctx = division_ctx(content);
    let f = DivisionFn {
        statements: Vec::new(),
        risky_bindings: Vec::new(),
        divisions: vec![div(3, Divisor::Risky("v.len()".to_string()))],
    };
    assert!(DivisionWithoutZeroGuard.check(&ctx, &division_config(), Some(vec![f])).is_none());
    assert!(DivisionWithoutZeroGuard.check(&ctx, &division_config(), None).is_none());
}
