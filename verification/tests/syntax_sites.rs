use substrate_lint::config::{
    BenchmarkingConfig, Config, MockUsageConfig, TerminologyConfig, TestSmellsConfig,
    ValidationOrderConfig,
};
use substrate_lint::context::FileContext;
use substrate_lint::diagnostics::{RuleCategory, Severity};
use substrate_lint::rules::mock_usage::{marks_mock_line, ExcessiveMockSetup, TestFnStats};
use substrate_lint::rules::semantic::{
    AllowDeadCodeInPallet, CustomInvalidityReprU8, MissingWeightOfAuthorize, NoWildcardImports,
    ParameteriseWeightFunctions, PreferCollectTurbofish, PreferRefIteration,
    RuntimeDebugDeprecated, WeightZeroPlaceholder,
};
use substrate_lint::rules::syntax_rules::{
    AttrSite, EnumSite, FnAttrSites, ForSite, LocalSite, MethodCallSite, PathSite, UseItemSite,
    UseTreeModel, WeightSite,
};
use substrate_lint::rules::test_smells::{
    ApplyExtrinsicAssertOk, AssertNoop, CallSite, ExtrinsicBody, ExtrinsicWithoutEvent, FnBodySites,
    ImplementationDetailAssertions, ImportsInsideClosures, MacroSite, PaysYesErrorPath, UseSite,
};

fn site_config() -> Config {
    Config {
        rules: Vec::new(),
        terminology: TerminologyConfig {
            british_english: Vec::new(),
            forbidden_terms: Vec::new(),
            check_strings: false,
            check_identifiers: false,
        },
        benchmarking: BenchmarkingConfig { verification_patterns: Vec::new() },
        mock_usage: MockUsageConfig { mock_patterns: vec!["Mock".to_string()], max_mock_expectations: 2 },
        test_smells: TestSmellsConfig { internal_field_patterns: vec!["\\.counter".to_string(), "(".to_string()] },
        validation_order: ValidationOrderConfig { heavy_operations: Vec::new(), cheap_validations: Vec::new() },
    }
}

fn site_ctx(path: &str, content: &str, test: bool) -> FileContext {
    FileContext {
        path: path.to_string(),
        rel_path: path.to_string(),
        content: content.to_string(),
        is_rust: true,
        is_text: false,
        is_test_file: test,
        is_benchmark_file: false,
        is_proc_macro_target: false,
        in_cfg_gated_module: false,
    }
}

fn strings(v: &[&str]) -> Vec<String> {
    v.iter().map(|s| s.to_string()).collect()
}

fn attr(path: &[&str], tokens: &str, line: usize) -> AttrSite {
    AttrSite {
        path: strings(path),
        tokens: tokens.to_string(),
        line,
        column: 1,
        arg_call: None,
        arg_method_calls: None,
        arg_paths: None,
    }
}

fn mac(name: &str, tokens: &str, line: usize) -> MacroSite {
    MacroSite { name: name.to_string(), line, column: 5, tokens: tokens.to_string() }
}

#[test]
fn tst001_pairs_is_err_with_nearby_unwrap_err_once_per_place() {
    let content = "fn t() {\n    assert!(r.is_err());\n    let e = r.unwrap_err();\n}\n";
    let ctx = site_ctx("pallet/src/tests.rs", content, true);
    let fns = vec![FnBodySites {
        macros: vec![mac("assert", "r.is_err()", 2)],
        unwrap_err_lines: vec![3],
    }];
    let found = AssertNoop.check(&ctx, &site_config(), Some(fns)).unwrap();
    let places: Vec<(usize, Option<usize>)> = found.iter().map(|d| (d.line, d.column)).collect();
    assert_eq!(places, vec![(2, None), (2, Some(14))]);
    assert_eq!(found[0].message, "Manual `is_err()` + `unwrap_err()` pattern; prefer `assert_noop!`");
}

#[test]
fn tst001_needs_a_syntax_tree_and_a_test_file() {
    let ctx = site_ctx("pallet/src/tests.rs", "a.is_err()\nb.unwrap_err()\n", true);
    assert!(AssertNoop.check(&ctx, &site_config(), None).is_none());
    let prod = site_ctx("pallet/src/lib.rs", "a.is_err()\nb.unwrap_err()\n", false);
    assert!(AssertNoop.check(&prod, &site_config(), Some(Vec::new())).is_none());
}

#[test]
fn tst002_flags_assert_ok_on_apply_extrinsic() {
    let ctx = site_ctx("runtime/src/tests.rs", "", true);
    let macros = vec![mac("assert_ok", "Executive::apply_extrinsic(xt)", 7), mac("assert_ok", "call()", 8)];
    let found = ApplyExtrinsicAssertOk.check(&ctx, &site_config(), Some(macros)).unwrap();
    assert_eq!(found.len(), 1);
    assert_eq!(found[0].line, 7);
    assert_eq!(found[0].column, Some(5));
    assert_eq!(found[0].severity, Severity::Error);
}

#[test]
fn tst003_flags_use_inside_bodies() {
    let ctx = site_ctx("pallet/src/tests.rs", "", true);
    let uses = vec![
        UseSite { line: 1, column: 1, text: "use crate :: * ;".to_string(), block_depth: 0 },
        UseSite { line: 9, column: 9, text: "use super :: Foo ;".to_string(), block_depth: 2 },
    ];
    let found = ImportsInsideClosures.check(&ctx, &site_config(), Some(uses)).unwrap();
    assert_eq!(found.len(), 1);
    assert_eq!(found[0].message, "`use` import inside function/closure body: `use super :: Foo ;`");
}

#[test]
fn tst004_reports_pays_no_without_companion_test() {
    let ctx = site_ctx("pallet/src/lib.rs", "", false);
    let calls = vec![
        CallSite { name: "Ok".to_string(), line: 12, args: strings(&["Pays::No.into()"]) },
        CallSite { name: "Ok".to_string(), line: 13, args: strings(&["()"]) },
    ];
    let found = PaysYesErrorPath.check(&ctx, &site_config(), Some(calls), None).unwrap();
    assert_eq!(found.len(), 1);
    assert_eq!(found[0].line, 12);
    assert_eq!(found[0].category, RuleCategory::TestSmell);
}

#[test]
fn tst004_companion_test_with_pays_yes_silences() {
    let ctx = site_ctx("pallet/src/lib.rs", "", false);
    let calls = vec![CallSite { name: "Ok".to_string(), line: 12, args: strings(&["Pays::No"]) }];
    let companion = Some("assert_eq!(e.post_info.pays_fee, Pays::Yes);".to_string());
    assert!(PaysYesErrorPath.check(&ctx, &site_config(), Some(calls), companion).is_none());
    let test_file = site_ctx("pallet/src/tests.rs", "", false);
    assert!(PaysYesErrorPath.check(&test_file, &site_config(), Some(Vec::new()), None).is_none());
}

#[test]
fn tst005_matches_configured_patterns_and_skips_bad_regexes() {
    let ctx = site_ctx("pallet/src/tests.rs", "", true);
    let macros = vec![
        mac("assert_eq", "pallet.counter,1", 3),
        mac("assert_eq", "balance(),1", 4),
        mac("println", "x.counter", 5),
    ];
    let found = ImplementationDetailAssertions.check(&ctx, &site_config(), Some(macros)).unwrap();
    assert_eq!(found.len(), 1);
    assert_eq!(found[0].line, 3);
}

#[test]
fn tst006_flags_mutation_without_event() {
    let ctx = site_ctx("pallet/src/lib.rs", "", false);
    let bodies = vec![
        ExtrinsicBody { name: "store".to_string(), line: 4, column: 16, callees: strings(&["ensure_signed", "insert"]) },
        ExtrinsicBody { name: "noisy".to_string(), line: 9, column: 16, callees: strings(&["put", "deposit_event"]) },
        ExtrinsicBody { name: "reader".to_string(), line: 14, column: 16, callees: strings(&["get"]) },
    ];
    let found = ExtrinsicWithoutEvent.check(&ctx, &site_config(), Some(bodies)).unwrap();
    assert_eq!(found.len(), 1);
    assert_eq!(found[0].message, "Extrinsic `store` mutates storage but does not emit an event");
}

#[test]
fn mok001_reports_ratio_and_expectations() {
    let ctx = site_ctx("pallet/src/tests.rs", "", true);
    let tests = vec![TestFnStats {
        name: "heavy".to_string(),
        line: 10,
        mock_lines: 6,
        assert_lines: 2,
        expectation_lines: 3,
        ratio_exceeded: true,
        ratio_text: "3.0".to_string(),
    }];
    let found = ExcessiveMockSetup.check(&ctx, &site_config(), Some(tests)).unwrap();
    assert_eq!(found.len(), 2);
    assert_eq!(found[0].message, "Test `heavy` has 6 mock/setup lines but only 2 assertions (ratio: 3.0x)");
    assert_eq!(found[1].message, "Test `heavy` has 3 mock expectations (threshold: 2)");
}

#[test]
fn mock_line_needs_a_pattern_and_not_test_externalities() {
    let patterns = strings(&["Mock", "expect_"]);
    assert!(marks_mock_line("MockRuntime :: set ( )", &patterns));
    assert!(!marks_mock_line("MockRuntime :: new_test_ext ( )", &patterns));
    assert!(!marks_mock_line("System :: block_number ( )", &patterns));
}

#[test]
fn sem002_and_sem003_sites() {
    let ctx = site_ctx("pallet/src/lib.rs", "", false);
    let locals = vec![
        LocalSite { line: 3, column: 5, typed_vec: true, init_method: Some("collect".to_string()), turbofish: false },
        LocalSite { line: 4, column: 5, typed_vec: true, init_method: Some("collect".to_string()), turbofish: true },
    ];
    let found = PreferCollectTurbofish.check(&ctx, &site_config(), Some(locals)).unwrap();
    assert_eq!(found.len(), 1);
    assert_eq!(found[0].line, 3);
    let loops = vec![
        ForSite { line: 8, column: 5, iter_method: Some("iter".to_string()), receiver_is_path: true },
        ForSite { line: 9, column: 5, iter_method: Some("iter".to_string()), receiver_is_path: false },
    ];
    let found = PreferRefIteration.check(&ctx, &site_config(), Some(loops)).unwrap();
    assert_eq!(found.len(), 1);
    assert_eq!(found[0].line, 8);
}

#[test]
fn sem004_wildcards_allowed_under_super_and_prelude() {
    let ctx = site_ctx("pallet/src/lib.rs", "use a::*;\nuse super::*;\n", false);
    let glob_under = |ident: &str| UseTreeModel::Path(ident.to_string(), Box::new(UseTreeModel::Glob));
    let uses = vec![
        UseItemSite { line: 1, column: 1, block_depth: 0, is_pub: false, tree: glob_under("a"), text: "use a :: * ;".to_string() },
        UseItemSite { line: 2, column: 1, block_depth: 0, is_pub: false, tree: glob_under("super"), text: "use super :: * ;".to_string() },
        UseItemSite {
            line: 3,
            column: 1,
            block_depth: 0,
            is_pub: false,
            tree: UseTreeModel::Path("frame_support".to_string(), Box::new(UseTreeModel::Group(vec![UseTreeModel::Name, glob_under("pallet_prelude")]))),
            text: "use frame_support :: { x , pallet_prelude :: * } ;".to_string(),
        },
        UseItemSite { line: 4, column: 1, block_depth: 0, is_pub: true, tree: glob_under("b"), text: "pub use b :: * ;".to_string() },
    ];
    let found = NoWildcardImports.check(&ctx, &site_config(), Some(uses)).unwrap();
    assert_eq!(found.len(), 1);
    assert_eq!(found[0].message, "Wildcard import in non-test code: `use a :: * ;`");
    let ext = site_ctx("pallet/src/extension.rs", "", false);
    assert!(NoWildcardImports.check(&ext, &site_config(), Some(Vec::new())).is_none());
}

#[test]
fn sem005_unparameterised_weight_multiplication() {
    let ctx = site_ctx("pallet/src/lib.rs", "", false);
    let mul = MethodCallSite {
        method: "saturating_mul".to_string(),
        receiver_call: Some((strings(&["T", "WeightInfo", "transfer"]), 0)),
        line: 20,
        column: 9,
    };
    let ok = MethodCallSite {
        method: "saturating_mul".to_string(),
        receiver_call: Some((strings(&["T", "WeightInfo", "transfer"]), 1)),
        line: 21,
        column: 9,
    };
    let mut weight = attr(&["pallet", "weight"], "# [pallet :: weight (..)]", 5);
    weight.arg_method_calls = Some(vec![MethodCallSite {
        method: "saturating_mul".to_string(),
        receiver_call: Some((strings(&["WeightInfo", "f"]), 0)),
        line: 5,
        column: 20,
    }]);
    let sites = vec![WeightSite::Attr(weight), WeightSite::Call(mul), WeightSite::Call(ok)];
    let found = ParameteriseWeightFunctions.check(&ctx, &site_config(), Some(sites)).unwrap();
    let lines: Vec<usize> = found.iter().map(|d| d.line).collect();
    assert_eq!(lines, vec![5, 20]);
}

#[test]
fn sem007_runtime_debug_derives() {
    let ctx = site_ctx("pallet/src/lib.rs", "", false);
    let mut derive = attr(&["derive"], "# [derive (Clone , RuntimeDebug)]", 2);
    derive.arg_paths = Some(vec![
        PathSite { segments: strings(&["Clone"]), line: 2, column: 10 },
        PathSite { segments: strings(&["sp_runtime", "RuntimeDebugNoBound"]), line: 2, column: 17 },
    ]);
    let found = RuntimeDebugDeprecated.check(&ctx, &site_config(), Some(vec![derive])).unwrap();
    assert_eq!(found.len(), 1);
    assert_eq!(found[0].column, Some(17));
    assert_eq!(found[0].message, "`RuntimeDebug` is deprecated — use `DebugNoBound` instead");
    assert_eq!(found[0].suggestion.as_deref(), Some("Replace with `DebugNoBound`"));
}

#[test]
fn sem011_weight_zero_placeholder() {
    let ctx = site_ctx("pallet/src/lib.rs", "", false);
    let mut zero = attr(&["pallet", "weight"], "", 4);
    zero.arg_call = Some(strings(&["Weight", "zero"]));
    let mut real = attr(&["pallet", "weight"], "", 8);
    real.arg_call = Some(strings(&["T", "WeightInfo", "zero"]));
    let found = WeightZeroPlaceholder.check(&ctx, &site_config(), Some(vec![zero, real])).unwrap();
    assert_eq!(found.len(), 1);
    assert_eq!(found[0].line, 4);
}

#[test]
fn sem012_dead_code_outside_test_modules() {
    let content = "#[allow(dead_code)]\nfn a() {}\n#[cfg(test)]\nmod tests {\n    #[allow(dead_code)]\n    fn b() {}\n}\n";
    let ctx = site_ctx("pallet/src/lib.rs", content, false);
    let attrs = vec![
        attr(&["allow"], "# [allow (dead_code)]", 1),
        attr(&["allow"], "# [allow (dead_code)]", 5),
        attr(&["allow"], "# [allow (unused)]", 6),
    ];
    let found = AllowDeadCodeInPallet.check(&ctx, &site_config(), Some(attrs)).unwrap();
    assert_eq!(found.len(), 1);
    assert_eq!(found[0].line, 1);
    let weights = site_ctx("pallet/src/weights.rs", "", false);
    assert!(AllowDeadCodeInPallet.check(&weights, &site_config(), Some(Vec::new())).is_none());
}

#[test]
fn sem013_invalidity_enum_needs_repr_u8() {
    let ctx = site_ctx("pallet/src/lib.rs", "", false);
    let enums = vec![
        EnumSite { name: "CustomInvalidity".to_string(), line: 3, column: 1, attrs: Vec::new() },
        EnumSite { name: "MyInvalidity".to_string(), line: 9, column: 1, attrs: vec![attr(&["repr"], "# [repr (u8)]", 8)] },
        EnumSite { name: "Other".to_string(), line: 12, column: 1, attrs: Vec::new() },
    ];
    let found = CustomInvalidityReprU8.check(&ctx, &site_config(), Some(enums)).unwrap();
    assert_eq!(found.len(), 1);
    assert_eq!(
        found[0].message,
        "`CustomInvalidity` should declare `#[repr(u8)]` before converting to `InvalidTransaction::Custom`"
    );
}

#[test]
fn sem015_authorize_needs_weight_of_authorize() {
    let ctx = site_ctx("pallet/src/lib.rs", "", false);
    let fns = vec![
        FnAttrSites { attrs: vec![attr(&["pallet", "authorize"], "", 4)], ident_line: 6 },
        FnAttrSites {
            attrs: vec![attr(&["pallet", "authorize"], "", 10), attr(&["pallet", "weight_of_authorize"], "", 11)],
            ident_line: 12,
        },
    ];
    let found = MissingWeightOfAuthorize.check(&ctx, &site_config(), Some(fns)).unwrap();
    assert_eq!(found.len(), 1);
    assert_eq!(found[0].line, 4);
    assert_eq!(found[0].end_line, Some(6));
}
