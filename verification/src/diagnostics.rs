//! What a lint rule reports.
use vstd::prelude::*;

verus! {

/// How serious a diagnostic is.
#[derive(Debug, Clone, Copy, PartialEq, Eq, Structural)]
pub enum Severity {
    Error,
    Warning,
    Advisory,
}

/// The family of rule that produced a diagnostic.
#[derive(Debug, Clone, Copy, PartialEq, Eq, Structural)]
pub enum RuleCategory {
    Semantic,
    TestSmell,
    MockUsage,
    Benchmark,
    Terminology,
}

/// One finding of a lint rule.
#[derive(Debug)]
pub struct Diagnostic {
    pub rule_id: String,
    pub rule_name: String,
    pub category: RuleCategory,
    pub severity: Severity,
    pub file: String,
    pub line: usize,
    pub column: Option<usize>,
    pub end_line: Option<usize>,
    pub message: String,
    pub explanation: String,
    pub suggestion: Option<String>,
}

/// A diagnostic with its text fields taken as character sequences.
pub struct DiagnosticModel {
    pub rule_id: Seq<char>,
    pub rule_name: Seq<char>,
    pub category: RuleCategory,
    pub severity: Severity,
    pub file: Seq<char>,
    pub line: nat,
    pub column: Option<nat>,
    pub end_line: Option<nat>,
    pub message: Seq<char>,
    pub explanation: Seq<char>,
    pub suggestion: Option<Seq<char>>,
}

/// A number as a `usize` option taken to `nat`.
pub open spec fn opt_nat(o: Option<usize>) -> Option<nat> {
    match o {
        Some(n) => Some(n as nat),
        None => None,
    }
}

/// A string option taken to a character sequence option.
pub open spec fn opt_text(o: Option<String>) -> Option<Seq<char>> {
    match o {
        Some(s) => Some(s@),
        None => None,
    }
}

impl View for Diagnostic {
    type V = DiagnosticModel;

    open spec fn view(&self) -> DiagnosticModel {
        DiagnosticModel {
            rule_id: self.rule_id@,
            rule_name: self.rule_name@,
            category: self.category,
            severity: self.severity,
            file: self.file@,
            line: self.line as nat,
            column: opt_nat(self.column),
            end_line: opt_nat(self.end_line),
            message: self.message@,
            explanation: self.explanation@,
            suggestion: opt_text(self.suggestion),
        }
    }
}

/// The models of a sequence of diagnostics.
pub open spec fn models(v: Seq<Diagnostic>) -> Seq<DiagnosticModel> {
    v.map_values(|d: Diagnostic| d@)
}

/// A rule's answer: `None` when it found nothing, else the diagnostics, in
/// order.
pub open spec fn report_of(found: Seq<DiagnosticModel>, r: Option<Vec<Diagnostic>>) -> bool {
    match r {
        None => found.len() == 0,
        Some(v) => found.len() > 0 && models(v@) == found,
    }
}

/// `None` when no diagnostic was found, else all of them.
pub fn into_report(v: Vec<Diagnostic>) -> (r: Option<Vec<Diagnostic>>)
    ensures
        report_of(models(v@), r),
{
    if v.len() == 0 {
        None
    } else {
        Some(v)
    }
}

/// A diagnostic with the given fields; its texts are copied.
pub fn make_diagnostic(
    rule_id: &str,
    rule_name: &str,
    category: RuleCategory,
    severity: Severity,
    file: &String,
    line: usize,
    column: Option<usize>,
    end_line: Option<usize>,
    message: String,
    explanation: &str,
    suggestion: Option<String>,
) -> (d: Diagnostic)
    ensures
        d@ == (DiagnosticModel {
            rule_id: rule_id@,
            rule_name: rule_name@,
            category,
            severity,
            file: file@,
            line: line as nat,
            column: opt_nat(column),
            end_line: opt_nat(end_line),
            message: message@,
            explanation: explanation@,
            suggestion: opt_text(suggestion),
        }),
{
    Diagnostic {
        rule_id: rule_id.to_owned(),
        rule_name: rule_name.to_owned(),
        category,
        severity,
        file: file.clone(),
        line,
        column,
        end_line,
        message,
        explanation: explanation.to_owned(),
        suggestion,
    }
}

} // verus!
