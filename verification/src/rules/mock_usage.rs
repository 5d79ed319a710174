//! Tests dominated by mock setup.
use vstd::prelude::*;
use crate::config::Config;
use crate::context::FileContext;
use crate::diagnostics::{
    into_report, make_diagnostic, models, report_of, Diagnostic, DiagnosticModel, RuleCategory,
    Severity,
};
use crate::rules::LintRule;
use crate::text::{chars_of, contains, contains_str, decimal, decimal_exec, equals_str, starts_with, starts_with_str, string_of};

verus! {

/// Lint rule `MOK001` (`excessive-mock-setup`).
pub struct ExcessiveMockSetup;

impl LintRule for ExcessiveMockSetup {
    open spec fn spec_id(&self) -> Seq<char> {
        "MOK001"@
    }

    open spec fn spec_name(&self) -> Seq<char> {
        "excessive-mock-setup"@
    }

    open spec fn spec_family(&self) -> Seq<char> {
        "mock-usage"@
    }

    fn id(&self) -> (r: &str) {
        "MOK001"
    }

    fn name(&self) -> (r: &str) {
        "excessive-mock-setup"
    }

    fn family(&self) -> (r: &str) {
        "mock-usage"
    }
}

// ---------------------------------------------------------------------------
// What a test body's calls and macros count as
// ---------------------------------------------------------------------------

/// A call's text marks a mock line: it mentions a configured mock pattern
/// and is not the test externalities' constructor.
pub open spec fn spec_marks_mock_line(text: Seq<char>, patterns: Seq<String>) -> bool {
    (exists|k: int| 0 <= k < patterns.len() && contains(text, #[trigger] patterns[k]@)) && !contains(
        text,
        "new_test_ext"@,
    )
}

/// Whether a call's text marks a mock line.
pub fn marks_mock_line(text: &str, patterns: &Vec<String>) -> (r: bool)
    ensures
        r == spec_marks_mock_line(text@, patterns@),
{
    let t = chars_of(text);
    let mut k: usize = 0;
    let mut found = false;
    while k < patterns.len()
        invariant
            k <= patterns@.len(),
            t@ == text@,
            found == exists|j: int| 0 <= j < k && contains(text@, #[trigger] patterns@[j]@),
        decreases patterns.len() - k,
    {
        if contains_str(&t, patterns[k].as_str()) {
            found = true;
        }
        k += 1;
    }
    found && !contains_str(&t, "new_test_ext")
}

/// A macro that asserts.
pub open spec fn spec_is_assertion_macro(name: Seq<char>) -> bool {
    ||| name == "assert"@
    ||| name == "assert_eq"@
    ||| name == "assert_ne"@
    ||| name == "assert_ok"@
    ||| name == "assert_err"@
    ||| name == "assert_noop"@
    ||| name == "assert_matches"@
    ||| name == "assert_last_event"@
    ||| name == "assert_has_event"@
}

/// Whether a macro, by the last segment of its path, asserts.
pub fn is_assertion_macro(name: &str) -> (r: bool)
    ensures
        r == spec_is_assertion_macro(name@),
{
    let n = chars_of(name);
    equals_str(&n, "assert") || equals_str(&n, "assert_eq") || equals_str(&n, "assert_ne")
        || equals_str(&n, "assert_ok") || equals_str(&n, "assert_err") || equals_str(
        &n,
        "assert_noop",
    ) || equals_str(&n, "assert_matches") || equals_str(&n, "assert_last_event") || equals_str(
        &n,
        "assert_has_event",
    )
}

/// Whether a called function, by the last segment of its path, asserts an
/// event.
pub fn is_event_assertion_call(name: &str) -> (r: bool)
    ensures
        r == (name@ == "assert_last_event"@ || name@ == "assert_has_event"@),
{
    let n = chars_of(name);
    equals_str(&n, "assert_last_event") || equals_str(&n, "assert_has_event")
}

/// Whether a method sets up a mock expectation.
pub fn is_expectation_method(method: &str) -> (r: bool)
    ensures
        r == (starts_with(method@, "expect_"@) || method@ == "times"@ || method@ == "returning"@),
{
    let m = chars_of(method);
    starts_with_str(&m, "expect_") || equals_str(&m, "times") || equals_str(&m, "returning")
}

/// Whether a method asserts.
pub fn is_assertion_method(method: &str) -> (r: bool)
    ensures
        r == starts_with(method@, "assert"@),
{
    starts_with_str(&chars_of(method), "assert")
}

// ---------------------------------------------------------------------------
// MOK001
// ---------------------------------------------------------------------------

/// What one `#[test]` function's body holds: its name, the line of the
/// function, the numbers of distinct mock, assertion and expectation lines,
/// whether mock lines per assertion line exceed the configured ratio (a
/// float comparison, made by the caller), and that ratio to one decimal.
pub struct TestFnStats {
    pub name: String,
    pub line: usize,
    pub mock_lines: usize,
    pub assert_lines: usize,
    pub expectation_lines: usize,
    pub ratio_exceeded: bool,
    pub ratio_text: String,
}

/// The MOK001 diagnostic for a test dominated by mock setup.
pub open spec fn ratio_model(file: Seq<char>, sev: Severity, t: TestFnStats) -> DiagnosticModel {
    DiagnosticModel {
        rule_id: "MOK001"@,
        rule_name: "excessive-mock-setup"@,
        category: RuleCategory::TestSmell,
        severity: sev,
        file,
        line: t.line as nat,
        column: None,
        end_line: None,
        message: "Test `"@ + t.name@ + "` has "@ + decimal(t.mock_lines as nat)
            + " mock/setup lines but only "@ + decimal(t.assert_lines as nat) + " assertions (ratio: "@
            + t.ratio_text@ + "x)"@,
        explanation: "Tests dominated by mock setup tend to test interactions rather than outcomes, and break easily when implementation changes."@,
        suggestion: Some("Consider using integration-style testing with real dependencies, or extract shared setup into helper functions."@),
    }
}

/// The MOK001 diagnostic for a test with too many mock expectations.
pub open spec fn expectations_model(file: Seq<char>, sev: Severity, t: TestFnStats, max: usize) -> DiagnosticModel {
    DiagnosticModel {
        rule_id: "MOK001"@,
        rule_name: "excessive-mock-setup"@,
        category: RuleCategory::TestSmell,
        severity: sev,
        file,
        line: t.line as nat,
        column: None,
        end_line: None,
        message: "Test `"@ + t.name@ + "` has "@ + decimal(t.expectation_lines as nat)
            + " mock expectations (threshold: "@ + decimal(max as nat) + ")"@,
        explanation: "Many mock expectations suggest the test is verifying interaction details rather than behaviour outcomes."@,
        suggestion: Some("Reduce mock expectations; focus on asserting outcomes."@),
    }
}

/// The MOK001 diagnostics of one test: the ratio one when it has
/// assertions and exceeds the ratio, then the expectations one when it has
/// more expectations than allowed.
pub open spec fn test_fn_found(file: Seq<char>, sev: Severity, t: TestFnStats, max: usize) -> Seq<DiagnosticModel> {
    (if t.assert_lines > 0 && t.ratio_exceeded {
        seq![ratio_model(file, sev, t)]
    } else {
        seq![]
    }) + (if t.expectation_lines > max {
        seq![expectations_model(file, sev, t, max)]
    } else {
        seq![]
    })
}

/// The MOK001 diagnostics of a file's tests, in order.
pub open spec fn mok001_found(ts: Seq<TestFnStats>, file: Seq<char>, sev: Severity, max: usize) -> Seq<DiagnosticModel>
    decreases ts.len(),
{
    if ts.len() == 0 {
        seq![]
    } else {
        mok001_found(ts.drop_last(), file, sev, max) + test_fn_found(file, sev, ts.last(), max)
    }
}

impl ExcessiveMockSetup {
    /// Reports tests dominated by mock setup or with too many mock
    /// expectations; `tests` are the `#[test]` functions of the file in the
    /// syntax tree's order (`None` when it did not parse).
    pub fn check(&self, ctx: &FileContext, config: &Config, tests: Option<Vec<TestFnStats>>) -> (r: Option<Vec<Diagnostic>>)
        ensures
            (!ctx.is_rust || !ctx.is_test_file || tests is None) ==> r is None,
            (ctx.is_rust && ctx.is_test_file && tests is Some) ==> report_of(
                mok001_found(
                    tests->0@,
                    ctx.path@,
                    config.spec_rule_severity("MOK001"@, Severity::Warning),
                    config.mock_usage.max_mock_expectations,
                ),
                r,
            ),
    {
        if !ctx.is_rust || !ctx.is_test_file {
            return None;
        }
        let ts = match tests {
            Some(t) => t,
            None => return None,
        };
        let severity = config.rule_severity(self.id(), Severity::Warning);
        let max = config.mock_usage.max_mock_expectations;
        let mut diagnostics: Vec<Diagnostic> = Vec::new();
        let mut i: usize = 0;
        assert(ts@.take(0) =~= Seq::<TestFnStats>::empty());
        while i < ts.len()
            invariant
                i <= ts@.len(),
                max == config.mock_usage.max_mock_expectations,
                models(diagnostics@) == mok001_found(ts@.take(i as int), ctx.path@, severity, max),
            decreases ts.len() - i,
        {
            let t = &ts[i];
            assert(ts@.take(i + 1).drop_last() =~= ts@.take(i as int));
            assert(ts@.take(i + 1).last() == *t);
            let ghost start = models(diagnostics@);
            if t.assert_lines > 0 && t.ratio_exceeded {
                let message = "Test `".to_owned().concat(t.name.as_str()).concat("` has ").concat(
                    string_of(&decimal_exec(t.mock_lines)).as_str(),
                ).concat(" mock/setup lines but only ").concat(
                    string_of(&decimal_exec(t.assert_lines)).as_str(),
                ).concat(" assertions (ratio: ").concat(t.ratio_text.as_str()).concat("x)");
                diagnostics.push(
                    make_diagnostic(
                        self.id(),
                        self.name(),
                        RuleCategory::TestSmell,
                        severity,
                        &ctx.path,
                        t.line,
                        None,
                        None,
                        message,
                        "Tests dominated by mock setup tend to test interactions rather than outcomes, and break easily when implementation changes.",
                        Some("Consider using integration-style testing with real dependencies, or extract shared setup into helper functions.".to_owned()),
                    ),
                );
                assert(models(diagnostics@) =~= start.push(ratio_model(ctx.path@, severity, *t)));
            } else {
                assert(models(diagnostics@) =~= start);
            }
            let ghost mid = models(diagnostics@);
            if t.expectation_lines > max {
                let message = "Test `".to_owned().concat(t.name.as_str()).concat("` has ").concat(
                    string_of(&decimal_exec(t.expectation_lines)).as_str(),
                ).concat(" mock expectations (threshold: ").concat(
                    string_of(&decimal_exec(max)).as_str(),
                ).concat(")");
                diagnostics.push(
                    make_diagnostic(
                        self.id(),
                        self.name(),
                        RuleCategory::TestSmell,
                        severity,
                        &ctx.path,
                        t.line,
                        None,
                        None,
                        message,
                        "Many mock expectations suggest the test is verifying interaction details rather than behaviour outcomes.",
                        Some("Reduce mock expectations; focus on asserting outcomes.".to_owned()),
                    ),
                );
                assert(models(diagnostics@) =~= mid.push(expectations_model(ctx.path@, severity, *t, max)));
            } else {
                assert(models(diagnostics@) =~= mid);
            }
            assert(models(diagnostics@) =~= start + test_fn_found(ctx.path@, severity, *t, max));
            i += 1;
        }
        assert(ts@.take(ts@.len() as int) =~= ts@);
        into_report(diagnostics)
    }
}

} // verus!
