//! The settings the rules read.
use vstd::prelude::*;
use crate::diagnostics::Severity;
use crate::text::chars_of;

verus! {

/// A per-rule setting: whether the rule runs, and at what severity.
pub struct RuleOverride {
    pub rule_id: String,
    pub enabled: bool,
    pub severity: Option<Severity>,
}

/// Spelling and terminology settings.
pub struct TerminologyConfig {
    /// Pairs of (spelling to avoid, preferred spelling), matched case-blind.
    pub british_english: Vec<(String, String)>,
    /// Pairs of (forbidden term, preferred term), matched as written.
    pub forbidden_terms: Vec<(String, String)>,
    pub check_strings: bool,
    pub check_identifiers: bool,
}

/// Benchmark settings.
pub struct BenchmarkingConfig {
    /// Names of helper calls that count as a benchmark's verification.
    pub verification_patterns: Vec<String>,
}

/// Mock-usage settings (the mock-to-assertion ratio is a float and is held
/// by the caller).
pub struct MockUsageConfig {
    pub mock_patterns: Vec<String>,
    pub max_mock_expectations: usize,
}

/// Test-smell settings.
pub struct TestSmellsConfig {
    pub internal_field_patterns: Vec<String>,
}

/// Settings of the validation-order rule.
pub struct ValidationOrderConfig {
    pub heavy_operations: Vec<String>,
    pub cheap_validations: Vec<String>,
}

/// All settings.
pub struct Config {
    pub rules: Vec<RuleOverride>,
    pub terminology: TerminologyConfig,
    pub benchmarking: BenchmarkingConfig,
    pub mock_usage: MockUsageConfig,
    pub test_smells: TestSmellsConfig,
    pub validation_order: ValidationOrderConfig,
}

/// A rule runs unless a setting for its id turns it off.
pub open spec fn enabled_in(rules: Seq<RuleOverride>, id: Seq<char>) -> bool {
    forall|i: int| 0 <= i < rules.len() && rules[i].rule_id@ == id ==> rules[i].enabled
}

/// The severity that the first setting for `id` with a severity gives, else
/// `default`.
pub open spec fn severity_in(rules: Seq<RuleOverride>, id: Seq<char>, default: Severity) -> Severity
    decreases rules.len(),
{
    if rules.len() == 0 {
        default
    } else if rules[0].rule_id@ == id && rules[0].severity is Some {
        rules[0].severity->0
    } else {
        severity_in(rules.drop_first(), id, default)
    }
}

impl Config {
    pub open spec fn spec_rule_enabled(&self, id: Seq<char>) -> bool {
        enabled_in(self.rules@, id)
    }

    pub open spec fn spec_rule_severity(&self, id: Seq<char>, default: Severity) -> Severity {
        severity_in(self.rules@, id, default)
    }

    /// Whether the rule `rule_id` runs.
    pub fn rule_enabled(&self, rule_id: &str) -> (r: bool)
        ensures
            r == self.spec_rule_enabled(rule_id@),
    {
        let id = chars_of(rule_id);
        let mut i: usize = 0;
        while i < self.rules.len()
            invariant
                i <= self.rules@.len(),
                id@ == rule_id@,
                forall|j: int|
                    0 <= j < i && self.rules@[j].rule_id@ == id@ ==> self.rules@[j].enabled,
            decreases self.rules.len() - i,
        {
            let o = &self.rules[i];
            if !o.enabled && crate::text::equals_str(&id, o.rule_id.as_str()) {
                return false;
            }
            i += 1;
        }
        true
    }

    /// The severity of rule `rule_id`: the first setting for it that names
    /// one, else `default`.
    pub fn rule_severity(&self, rule_id: &str, default: Severity) -> (r: Severity)
        ensures
            r == self.spec_rule_severity(rule_id@, default),
    {
        let id = chars_of(rule_id);
        let mut i: usize = 0;
        assert(self.rules@.skip(0) =~= self.rules@);
        while i < self.rules.len()
            invariant
                i <= self.rules@.len(),
                id@ == rule_id@,
                severity_in(self.rules@.skip(i as int), id@, default) == severity_in(
                    self.rules@,
                    id@,
                    default,
                ),
            decreases self.rules.len() - i,
        {
            let o = &self.rules[i];
            assert(self.rules@.skip(i as int)[0] == self.rules@[i as int]);
            assert(self.rules@.skip(i as int).drop_first() =~= self.rules@.skip(i + 1));
            match o.severity {
                Some(s) => {
                    if crate::text::equals_str(&id, o.rule_id.as_str()) {
                        return s;
                    }
                },
                None => {},
            }
            i += 1;
        }
        assert(self.rules@.skip(i as int) =~= Seq::<RuleOverride>::empty());
        default
    }
}

} // verus!
