use substrate_lint::config::{
    BenchmarkingConfig, Config, MockUsageConfig, TerminologyConfig, TestSmellsConfig,
    ValidationOrderConfig,
};
use substrate_lint::context::FileContext;
use substrate_lint::diagnostics::{RuleCategory, Severity};
use substrate_lint::rules::production_rules::MacroCallSite;
use substrate_lint::rules::semantic::DebugAssertInProduction;

fn plain_config() -> Config {
    Config {
        rules: Vec::new(),
        terminology: TerminologyConfig {
            british_english: Vec::new(),
            forbidden_terms: Vec::new(),
            check_strings: false,
            check_identifiers: false,
        },
        benchmarking: BenchmarkingConfig { verification_patterns: Vec::new() },
        mock_usage: MockUsageConfig { mock_patterns: Vec::new(), max_mock_expectations: 5 },
        test_smells: TestSmellsConfig { internal_field_patterns: Vec::new() },
        validation_order: ValidationOrderConfig { heavy_operations: Vec::new(), cheap_validations: Vec::new() },
    }
}

fn pallet_ctx(path: &str, content: &str) -> FileContext {
    FileContext {
        path: path.to_string(),
        rel_path: path.to_string(),
        content: content.to_string(),
        is_rust: true,
        is_text: false,
        is_test_file: false,
        is_benchmark_file: false,
        is_proc_macro_target: false,
        in_cfg_gated_module: false,
    }
}

fn call(name: &str, line: usize, column: usize, tokens: &str) -> MacroCallSite {
    MacroCallSite { name: name.to_string(), line, column, tokens: tokens.to_string() }
}

const PALLET: &str = "substrate/frame/balances/src/lib.rs";

#[test]
fn sec002_flags_plain_debug_assert_in_pallet_code() {
    let content = "fn f(x: u32) {\n    debug_assert!(x > 0);\n}\n";
    let ctx = pallet_ctx(PALLET, content);
    let found = DebugAssertInProduction
        .check(&ctx, &plain_config(), Some(vec![call("debug_assert", 2, 5, "x > 0")]))
        .unwrap();
    assert_eq!(found.len(), 1);
    let d = &found[0];
    assert_eq!(d.rule_id, "SEC002");
    assert_eq!(d.rule_name, "debug-assert-in-production");
    assert_eq!(d.category, RuleCategory::Semantic);
    assert_eq!(d.severity, Severity::Warning);
    assert_eq!(d.file, PALLET);
    assert_eq!(d.line, 2);
    assert_eq!(d.column, Some(5));
    assert_eq!(d.end_line, None);
    assert_eq!(
        d.message,
        "`debug_assert!` in production code — panics in debug, stripped in release"
    );
    assert_eq!(d.suggestion.as_deref(), Some("Replace with `defensive!()` or return an error"));
}

#[test]
fn sec002_flags_eq_and_ne_forms_but_not_other_macros() {
    let content = "fn f(a: u32, b: u32) {\n    debug_assert_eq!(a, b);\n    assert!(a > 0);\n    debug_assert_ne!(a, 0);\n}\n";
    let ctx = pallet_ctx(PALLET, content);
    let found = DebugAssertInProduction
        .check(
            &ctx,
            &plain_config(),
            Some(vec![
                call("debug_assert_eq", 2, 5, "a , b"),
                call("assert", 3, 5, "a > 0"),
                call("debug_assert_ne", 4, 5, "a , 0"),
            ]),
        )
        .unwrap();
    let lines: Vec<usize> = found.iter().map(|d| d.line).collect();
    assert_eq!(lines, vec![2, 4]);
}

#[test]
fn sec002_accepts_a_message_that_marks_a_proven_invariant() {
    let content = "fn f(x: u32) {\n    debug_assert!(x > 0, \"qed: x was checked above\");\n}\n";
    let ctx = pallet_ctx(PALLET, content);
    let found = DebugAssertInProduction
        .check(
            &ctx,
            &plain_config(),
            Some(vec![call("debug_assert", 2, 5, "x > 0 , \"qed: x was checked above\"")]),
        );
    assert!(found.is_none());
}

#[test]
fn sec002_accepts_a_nearby_invariant_comment() {
    let content = "fn f(x: u32) {\n    // Sanity check of the pot.\n    let y = x;\n    debug_assert!(y > 0);\n}\n";
    let ctx = pallet_ctx(PALLET, content);
    let found = DebugAssertInProduction
        .check(&ctx, &plain_config(), Some(vec![call("debug_assert", 4, 5, "y > 0")]));
    assert!(found.is_none());
}

#[test]
fn sec002_ignores_a_comment_five_lines_above() {
    let content = "fn f(x: u32) {\n    // invariant\n    let a = 1;\n    let b = 2;\n    let c = 3;\n    let d = 4;\n    debug_assert!(x > a + b + c + d);\n}\n";
    let ctx = pallet_ctx(PALLET, content);
    let found = DebugAssertInProduction
        .check(&ctx, &plain_config(), Some(vec![call("debug_assert", 7, 5, "x > a + b + c + d")]))
        .unwrap();
    assert_eq!(found.len(), 1);
}

#[test]
fn sec002_accepts_false_with_an_invariant_comment_eight_lines_above() {
    let content = "fn f() {\n    // this branch is unreachable by the invariant\n    let a = 1;\n    let b = 2;\n    let c = 3;\n    let d = 4;\n    let e = 5;\n    debug_assert!(false);\n}\n";
    let ctx = pallet_ctx(PALLET, content);
    let found = DebugAssertInProduction
        .check(&ctx, &plain_config(), Some(vec![call("debug_assert", 8, 5, "false")]));
    assert!(found.is_none());
}

#[test]
fn sec002_accepts_a_check_of_a_defensive_result() {
    let content = "fn f() {\n    let _res = T::Currency::transfer(a, b).defensive();\n    debug_assert!(_res.is_ok());\n}\n";
    let ctx = pallet_ctx(PALLET, content);
    let found = DebugAssertInProduction
        .check(&ctx, &plain_config(), Some(vec![call("debug_assert", 3, 5, "_res . is_ok ()")]));
    assert!(found.is_none());
}

#[test]
fn sec002_accepts_a_zero_unreserve_remainder() {
    let content = "fn f() {\n    let remaining = T::Currency::unreserve(&who, amount);\n    debug_assert!(remaining.is_zero());\n}\n";
    let ctx = pallet_ctx(PALLET, content);
    let found = DebugAssertInProduction
        .check(&ctx, &plain_config(), Some(vec![call("debug_assert", 3, 5, "remaining . is_zero ()")]));
    assert!(found.is_none());
}

#[test]
fn sec002_accepts_a_zero_slash_reserved_remainder() {
    let content = "fn f() {\n    let (imbalance, missing) = T::Currency::slash_reserved(&who, amount);\n    debug_assert!(missing.is_zero());\n}\n";
    let ctx = pallet_ctx(PALLET, content);
    let found = DebugAssertInProduction
        .check(&ctx, &plain_config(), Some(vec![call("debug_assert", 3, 5, "missing . is_zero ()")]));
    assert!(found.is_none());
}

#[test]
fn sec002_flags_a_zero_test_of_an_unrelated_binding() {
    let content = "fn f() {\n    let other = compute();\n    T::Currency::unreserve(&who, amount);\n    debug_assert!(other.is_zero());\n}\n";
    let ctx = pallet_ctx(PALLET, content);
    let found = DebugAssertInProduction
        .check(&ctx, &plain_config(), Some(vec![call("debug_assert", 4, 5, "other . is_zero ()")]))
        .unwrap();
    assert_eq!(found.len(), 1);
}

#[test]
fn sec002_accepts_a_documented_bounded_clear_prefix() {
    let content = "fn f() {\n    // Safe to remove unbounded: there are at most a handful of keys.\n    let r = Keys::<T>::clear_prefix(id, u32::MAX, None);\n    debug_assert!(r.unique <= 16);\n}\n";
    let ctx = pallet_ctx(PALLET, content);
    let found = DebugAssertInProduction
        .check(&ctx, &plain_config(), Some(vec![call("debug_assert", 4, 5, "r . unique <= 16")]));
    assert!(found.is_none());
}

#[test]
fn sec002_skips_test_modules() {
    let content = "fn f() {}\n#[cfg(test)]\nmod tests {\n    fn g(x: u32) {\n        debug_assert!(x > 0);\n    }\n}\n";
    let ctx = pallet_ctx(PALLET, content);
    let found = DebugAssertInProduction
        .check(&ctx, &plain_config(), Some(vec![call("debug_assert", 5, 9, "x > 0")]));
    assert!(found.is_none());
}

#[test]
fn sec002_does_not_run_outside_runtime_and_pallet_code() {
    let content = "fn f(x: u32) {\n    debug_assert!(x > 0);\n}\n";
    let ctx = pallet_ctx("client/service/src/lib.rs", content);
    let found =
        DebugAssertInProduction.check(&ctx, &plain_config(), Some(vec![call("debug_assert", 2, 5, "x > 0")]));
    assert!(found.is_none());
    let support = pallet_ctx("substrate/frame/support/src/lib.rs", content);
    assert!(DebugAssertInProduction
        .check(&support, &plain_config(), Some(vec![call("debug_assert", 2, 5, "x > 0")]))
        .is_none());
}

#[test]
fn sec002_needs_a_syntax_tree() {
    let content = "fn f(x: u32) {\n    debug_assert!(x > 0);\n}\n";
    let ctx = pallet_ctx(PALLET, content);
    assert!(DebugAssertInProduction.check(&ctx, &plain_config(), None).is_none());
}

use substrate_lint::rules::production_rules::{
    integer_literal_is_nonzero, FirstArg, IntLiteral, PanicSite, PanicSiteKind,
};
use substrate_lint::rules::semantic::PanicInProduction;

fn method(name: &str, line: usize, column: usize) -> PanicSite {
    PanicSite {
        kind: PanicSiteKind::MethodCall,
        name: name.to_string(),
        line,
        column,
        tokens: String::new(),
        first_arg: None,
        nonzero_new_literal: None,
        fixed_range_try_into: false,
        h160_suffix_try_into: false,
        bounded_biguint_to_usize: false,
        bounded_vec_literal: None,
        vec_literal_try_into_len: None,
        in_uninhabited_impl: false,
        in_test_default_impl: false,
    }
}

fn macro_site(name: &str, line: usize, tokens: &str) -> PanicSite {
    PanicSite { kind: PanicSiteKind::MacroCall, tokens: tokens.to_string(), ..method(name, line, 5) }
}

fn literal(text: &str, suffix: &str) -> IntLiteral {
    IntLiteral { text: text.to_string(), suffix: suffix.to_string() }
}

const TEN_LINES: &str = "fn f() {\n    let a = x.unwrap();\n    let b = y.expect(\"msg\");\n    panic!(\"boom\");\n    todo!();\n    unimplemented!();\n    unreachable!();\n    format!(\"{}\", 1);\n    let c = z.map(g);\n}\n";

#[test]
fn sec008_reports_each_panicking_call_with_its_text() {
    let ctx = pallet_ctx(PALLET, TEN_LINES);
    let sites = vec![
        method("unwrap", 2, 13),
        method("expect", 3, 13),
        macro_site("panic", 4, "\"boom\""),
        macro_site("todo", 5, ""),
        macro_site("unimplemented", 6, ""),
        macro_site("unreachable", 7, ""),
        macro_site("format", 8, "\"{}\" , 1"),
        method("map", 9, 13),
    ];
    let found = PanicInProduction.check(&ctx, &plain_config(), Some(sites)).unwrap();
    let got: Vec<(usize, &str, Option<&str>)> =
        found.iter().map(|d| (d.line, d.message.as_str(), d.suggestion.as_deref())).collect();
    assert_eq!(
        got,
        vec![
            (
                2,
                "`.unwrap()` in production code — can panic and halt the chain",
                Some("Use `.ok_or(Error::...)?`, `.unwrap_or_default()`, or `.defensive()`"),
            ),
            (
                3,
                "`.expect()` in production code — can panic and halt the chain",
                Some("Use `.ok_or(Error::...)?` or `.defensive()`"),
            ),
            (4, "`panic!()` in production code — can panic and halt the chain", Some("Return an error or use `defensive!()`")),
            (5, "`todo!()` in production code — can panic and halt the chain", Some("Implement the function or return an error")),
            (
                6,
                "`unimplemented!()` in production code — can panic and halt the chain",
                Some("Implement the function or return an error"),
            ),
            (
                7,
                "`unreachable!()` in production code — can panic and halt the chain",
                Some("Use `defensive_unreachable!()` or return an error"),
            ),
        ]
    );
    assert!(found.iter().all(|d| d.rule_id == "SEC008" && d.rule_name == "panic-in-production"));
    assert_eq!(found[0].column, Some(13));
    assert_eq!(found[0].severity, Severity::Warning);
}

#[test]
fn sec008_reports_a_line_once_with_its_first_site() {
    let content = "fn f() {\n    let a = x.expect(\"e\").y.unwrap();\n}\n";
    let ctx = pallet_ctx(PALLET, content);
    let sites = vec![method("unwrap", 2, 13), method("expect", 2, 13)];
    let found = PanicInProduction.check(&ctx, &plain_config(), Some(sites)).unwrap();
    assert_eq!(found.len(), 1);
    assert_eq!(found[0].message, "`.unwrap()` in production code — can panic and halt the chain");
}

#[test]
fn sec008_accepts_qed_messages() {
    let content = "fn f() {\n    x.expect(\"QED: checked\");\n    x.expect(QED);\n    x.expect(QED_MSG);\n    panic!(\"qed\");\n}\n";
    let ctx = pallet_ctx(PALLET, content);
    let mut literal_qed = method("expect", 2, 5);
    literal_qed.first_arg = Some(FirstArg::Literal("QED: checked".to_string()));
    let mut token_qed = method("expect", 3, 5);
    token_qed.first_arg = Some(FirstArg::Tokens("QED".to_string()));
    let mut token_other = method("expect", 4, 5);
    token_other.first_arg = Some(FirstArg::Tokens("QED_MSG".to_string()));
    let sites = vec![literal_qed, token_qed, token_other, macro_site("panic", 5, "\"qed\"")];
    let found = PanicInProduction.check(&ctx, &plain_config(), Some(sites)).unwrap();
    let lines: Vec<usize> = found.iter().map(|d| d.line).collect();
    assert_eq!(lines, vec![4]);
}

#[test]
fn sec008_accepts_receivers_that_cannot_fail() {
    let content = "fn f() {\n    a();\n    b();\n    c();\n    d();\n    e();\n    g();\n    h();\n    i();\n}\n";
    let ctx = pallet_ctx(PALLET, content);
    let mut nonzero = method("unwrap", 2, 5);
    nonzero.nonzero_new_literal = Some(literal("5u32", "u32"));
    let mut zero = method("unwrap", 3, 5);
    zero.nonzero_new_literal = Some(literal("0_u8", "u8"));
    let mut range = method("expect", 4, 5);
    range.fixed_range_try_into = true;
    let mut h160 = method("unwrap", 5, 5);
    h160.h160_suffix_try_into = true;
    let mut fits = method("unwrap", 6, 5);
    fits.bounded_vec_literal = Some((2, 4));
    let mut too_long = method("unwrap", 7, 5);
    too_long.bounded_vec_literal = Some((5, 4));
    let mut min_one = method("expect", 8, 5);
    min_one.first_arg = Some(FirstArg::Literal("Must be greater than or equal to 1".to_string()));
    min_one.vec_literal_try_into_len = Some(1);
    let mut min_one_two = method("expect", 9, 5);
    min_one_two.first_arg = Some(FirstArg::Literal("must be greater than or equal to 1".to_string()));
    min_one_two.vec_literal_try_into_len = Some(2);
    let sites = vec![nonzero, zero, range, h160, fits, too_long, min_one, min_one_two];
    let found = PanicInProduction.check(&ctx, &plain_config(), Some(sites)).unwrap();
    let lines: Vec<usize> = found.iter().map(|d| d.line).collect();
    assert_eq!(lines, vec![3, 7, 9]);
}

#[test]
fn sec008_skips_impls_on_uninhabited_enums_and_test_defaults() {
    let content = "fn f() {\n    unreachable!();\n    panic!();\n    x.unwrap();\n}\n";
    let ctx = pallet_ctx(PALLET, content);
    let mut unreachable = macro_site("unreachable", 2, "");
    unreachable.in_uninhabited_impl = true;
    let mut panic = macro_site("panic", 3, "");
    panic.in_uninhabited_impl = true;
    let mut unwrap = method("unwrap", 4, 5);
    unwrap.in_test_default_impl = true;
    let found = PanicInProduction.check(&ctx, &plain_config(), Some(vec![unreachable, panic, unwrap])).unwrap();
    let lines: Vec<usize> = found.iter().map(|d| d.line).collect();
    assert_eq!(lines, vec![3]);
}

#[test]
fn sec008_skips_test_modules_and_genesis_building() {
    let content = "#[pallet::genesis_build]\nimpl<T: Config> BuildGenesisConfig for GenesisConfig<T> {\n    fn build(&self) {\n        x.unwrap();\n    }\n}\n#[cfg(test)]\nmod tests {\n    fn t() { y.unwrap(); }\n}\nfn live() { z.unwrap(); }\n";
    let ctx = pallet_ctx(PALLET, content);
    let sites = vec![method("unwrap", 4, 9), method("unwrap", 9, 14), method("unwrap", 11, 15)];
    let found = PanicInProduction.check(&ctx, &plain_config(), Some(sites)).unwrap();
    let lines: Vec<usize> = found.iter().map(|d| d.line).collect();
    assert_eq!(lines, vec![11]);
}

#[test]
fn sec008_skips_weights_and_genesis_presets() {
    let content = "fn f() {\n    x.unwrap();\n}\n";
    let weights = pallet_ctx("substrate/frame/balances/src/weights.rs", content);
    assert!(PanicInProduction.check(&weights, &plain_config(), Some(vec![method("unwrap", 2, 5)])).is_none());
    let presets = pallet_ctx("polkadot/runtime/westend/src/genesis_config_presets.rs", content);
    assert!(PanicInProduction.check(&presets, &plain_config(), Some(vec![method("unwrap", 2, 5)])).is_none());
    let runtime = pallet_ctx("polkadot/runtime/westend/src/lib.rs", content);
    assert!(PanicInProduction.check(&runtime, &plain_config(), Some(vec![method("unwrap", 2, 5)])).is_some());
    assert!(PanicInProduction.check(&runtime, &plain_config(), None).is_none());
}

#[test]
fn integer_literals_are_read_without_suffix_separators_and_radix() {
    assert!(integer_literal_is_nonzero(&literal("5", "")));
    assert!(integer_literal_is_nonzero(&literal("1_000u64", "u64")));
    assert!(integer_literal_is_nonzero(&literal("0x10", "")));
    assert!(!integer_literal_is_nonzero(&literal("0", "")));
    assert!(!integer_literal_is_nonzero(&literal("0u32", "u32")));
    assert!(!integer_literal_is_nonzero(&literal("0x0_0", "")));
    assert!(!integer_literal_is_nonzero(&literal("0b0i8", "i8")));
}
