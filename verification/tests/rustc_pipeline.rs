use substrate_lint::diagnostics::{Diagnostic, RuleCategory, Severity};
use substrate_lint::rustc_pipeline::RustcDiagnostic;

#[test]
fn maps_rustc_diagnostic_to_public_diagnostic() {
    let diagnostic = Diagnostic::from(RustcDiagnostic {
        rule_id: "SEC003".to_string(),
        rule_name: "missing-decode-depth-limit".to_string(),
        file: "runtime/src/lib.rs".to_string(),
        line: 7,
        column: 3,
        message: "Recursive runtime type is decoded without a depth limit".to_string(),
    });

    assert_eq!(diagnostic.rule_id, "SEC003");
    assert_eq!(diagnostic.rule_name, "missing-decode-depth-limit");
    assert_eq!(diagnostic.category, RuleCategory::Semantic);
    assert_eq!(diagnostic.severity, Severity::Warning);
    assert_eq!(
        std::path::PathBuf::from(&diagnostic.file),
        std::path::PathBuf::from("runtime/src/lib.rs")
    );
    assert_eq!(diagnostic.column, Some(3));
}

#[test]
fn preserves_compiler_rule_default_severity() {
    let diagnostic = Diagnostic::from(RustcDiagnostic {
        rule_id: "SEM010".to_string(),
        rule_name: "xor-as-exponentiation".to_string(),
        file: "runtime/src/lib.rs".to_string(),
        line: 7,
        column: 3,
        message: "integer XOR looks like exponentiation".to_string(),
    });

    assert_eq!(diagnostic.severity, Severity::Error);
}

fn finding(rule: &str, file: &str, line: usize, column: usize, message: &str) -> RustcDiagnostic {
    RustcDiagnostic {
        rule_id: rule.to_string(),
        rule_name: format!("{}-name", rule),
        file: file.to_string(),
        line,
        column,
        message: message.to_string(),
    }
}

#[test]
fn findings_are_sorted_and_repeats_dropped() {
    let found = vec![
        finding("SEC009", "src/lib.rs", 10, 2, "b"),
        finding("SEC001", "src/a.rs", 3, 1, "a"),
        finding("SEC009", "src/lib.rs", 10, 2, "b"),
        finding("SEC002", "src/lib.rs", 10, 2, "a"),
        finding("SEC001", "src/lib.rs", 4, 9, "z"),
    ];
    let ordered = substrate_lint::rustc_pipeline::order_findings(found);
    let keys: Vec<(String, usize, usize, String)> = ordered
        .iter()
        .map(|f| (f.file.clone(), f.line, f.column, f.rule_id.clone()))
        .collect();
    assert_eq!(
        keys,
        vec![
            ("src/a.rs".to_string(), 3, 1, "SEC001".to_string()),
            ("src/lib.rs".to_string(), 4, 9, "SEC001".to_string()),
            ("src/lib.rs".to_string(), 10, 2, "SEC002".to_string()),
            ("src/lib.rs".to_string(), 10, 2, "SEC009".to_string()),
        ]
    );
}

#[test]
fn repeated_finding_keeps_the_first_rule_name() {
    let mut first = finding("SEC009", "x.rs", 1, 1, "m");
    first.rule_name = "first".to_string();
    let mut second = finding("SEC009", "x.rs", 1, 1, "m");
    second.rule_name = "second".to_string();
    let ordered = substrate_lint::rustc_pipeline::order_findings(vec![first, second]);
    assert_eq!(ordered.len(), 1);
    assert_eq!(ordered[0].rule_name, "first");
}

#[test]
fn public_diagnostics_carry_default_severities_in_order() {
    let found = vec![
        finding("SEM010", "b.rs", 1, 1, "xor"),
        finding("SEM009", "a.rs", 5, 1, "advice"),
    ];
    let diagnostics = substrate_lint::rustc_pipeline::public_diagnostics(found);
    assert_eq!(diagnostics.len(), 2);
    assert_eq!(diagnostics[0].rule_id, "SEM009");
    assert_eq!(diagnostics[0].severity, Severity::Advisory);
    assert_eq!(diagnostics[1].severity, Severity::Error);
    assert_eq!(diagnostics[1].category, RuleCategory::Semantic);
}

#[test]
fn message_orders_findings_at_the_same_place() {
    let ordered = substrate_lint::rustc_pipeline::order_findings(vec![
        finding("SEC001", "f.rs", 2, 2, "zeta"),
        finding("SEC001", "f.rs", 2, 2, "alpha"),
    ]);
    assert_eq!(ordered[0].message, "alpha");
    assert_eq!(ordered[1].message, "zeta");
}

#[test]
fn jsonl_records_skip_blank_lines() {
    let records = substrate_lint::rustc_pipeline::jsonl_records("{\"a\":1}\r\n\n   \n\t{\"b\":2}\n \u{a0}\n{\"c\":3}");
    assert_eq!(records, vec!["{\"a\":1}".to_string(), "\t{\"b\":2}".to_string(), "{\"c\":3}".to_string()]);
    assert!(substrate_lint::rustc_pipeline::jsonl_records("\n\n").is_empty());
}

#[test]
fn pipeline_failure_messages() {
    let json = substrate_lint::rustc_pipeline::PipelineFailure::Json {
        path: "/tmp/out.jsonl".to_string(),
        line: "{oops".to_string(),
        source: "key must be a string at line 1 column 2".to_string(),
    };
    assert_eq!(
        json.message(),
        "failed to parse rustc diagnostic JSONL from /tmp/out.jsonl: key must be a string at line 1 column 2; line: {oops"
    );
    let cargo = substrate_lint::rustc_pipeline::PipelineFailure::CargoFailed { status: Some(101), stderr: "error: boom".to_string() };
    assert_eq!(cargo.message(), "compiler-backed cargo check failed with status 101\nerror: boom");
    let quiet = substrate_lint::rustc_pipeline::PipelineFailure::CargoFailed { status: None, stderr: "  \n".to_string() };
    assert_eq!(quiet.message(), "compiler-backed cargo check failed with status signal");
    let probe = substrate_lint::rustc_pipeline::PipelineFailure::ToolchainProbe {
        toolchain: "nightly".to_string(),
        status: Some(-2),
        stderr: "no such toolchain".to_string(),
    };
    assert_eq!(
        probe.message(),
        "failed to locate rustc compiler libraries for toolchain nightly (status -2): no such toolchain"
    );
    let min = substrate_lint::rustc_pipeline::PipelineFailure::CargoFailed { status: Some(i32::MIN), stderr: String::new() };
    assert_eq!(min.message(), format!("compiler-backed cargo check failed with status {}", i32::MIN));
}
