//! The lint rules, the registry of the ones that run on source text, and
//! the defaults of the compiler-backed ones. The rules that the
//! compiler-backed driver runs, and the registry leaves out, decide on the
//! sites of the syntax tree that their modules describe.
use vstd::prelude::*;
use crate::config::Config;
use crate::diagnostics::Severity;
use crate::text::{chars_of, equals_str};

pub mod benchmarking;
pub mod call_rules;
pub mod discarded_result;
pub mod dispatch_bypass;
pub mod dispatchables;
pub mod events;
pub mod expr_shapes;
pub mod fallible_arithmetic;
pub mod impl_fn_rules;
pub mod masks;
pub mod mock_usage;
pub mod paths;
pub mod production_rules;
pub mod repatriate;
pub mod runtime_upgrade;
pub mod semantic;
pub mod storage_items;
pub mod syntax_rules;
pub mod terminology;
pub mod test_smells;
pub mod validation_order;
pub mod weight_exprs;
pub mod zero_division;

verus! {

/// What every lint rule tells about itself.
pub trait LintRule {
    /// The rule's identifier, e.g. `VAL001`.
    spec fn spec_id(&self) -> Seq<char>;

    /// The rule's human-readable name.
    spec fn spec_name(&self) -> Seq<char>;

    /// The rule's family, for filtering.
    spec fn spec_family(&self) -> Seq<char>;

    /// Unique rule identifier (e.g., "VAL001").
    fn id(&self) -> (r: &str)
        ensures
            r@ == self.spec_id(),
    ;

    /// Human-readable rule name.
    fn name(&self) -> (r: &str)
        ensures
            r@ == self.spec_name(),
    ;

    /// Rule family for filtering (e.g., "semantic", "test-smell").
    fn family(&self) -> (r: &str)
        ensures
            r@ == self.spec_family(),
    ;
}

/// The default severity of a compiler-backed rule, before configuration.
pub open spec fn spec_compiler_backed_rule_default_severity(rule_id: Seq<char>) -> Severity {
    if rule_id == "SEM009"@ {
        Severity::Advisory
    } else if rule_id == "SEM010"@ {
        Severity::Error
    } else {
        Severity::Warning
    }
}

/// Default severity for a compiler-backed rule before configuration overrides.
pub fn compiler_backed_rule_default_severity(rule_id: &str) -> (r: Severity)
    ensures
        r == spec_compiler_backed_rule_default_severity(rule_id@),
{
    let id = chars_of(rule_id);
    if equals_str(&id, "SEM009") {
        Severity::Advisory
    } else if equals_str(&id, "SEM010") {
        Severity::Error
    } else {
        Severity::Warning
    }
}

/// The rules that run on a file's source text, in the order they run.
#[derive(Debug, Clone, Copy, PartialEq, Eq, Structural)]
pub enum Rule {
    ValidationBeforeHeavyRead,
    PreferCollectTurbofish,
    PreferRefIteration,
    NoWildcardImports,
    ParameteriseWeightFunctions,
    RuntimeDebugDeprecated,
    SpStdDeprecated,
    WeightZeroPlaceholder,
    AllowDeadCodeInPallet,
    CustomInvalidityReprU8,
    SubmitTransactionLogTarget,
    MissingWeightOfAuthorize,
    AssertNoop,
    ApplyExtrinsicAssertOk,
    ImportsInsideClosures,
    PaysYesErrorPath,
    ImplementationDetailAssertions,
    ExtrinsicWithoutEvent,
    ExcessiveMockSetup,
    BenchmarkForWeightFunction,
    BenchmarkVerification,
    ExtrinsicWithoutBenchmark,
    SpellingConventions,
}

impl Rule {
    pub open spec fn spec_id(self) -> Seq<char> {
        match self {
            Rule::ValidationBeforeHeavyRead => "VAL001"@,
            Rule::PreferCollectTurbofish => "SEM002"@,
            Rule::PreferRefIteration => "SEM003"@,
            Rule::NoWildcardImports => "SEM004"@,
            Rule::ParameteriseWeightFunctions => "SEM005"@,
            Rule::RuntimeDebugDeprecated => "SEM007"@,
            Rule::SpStdDeprecated => "SEM008"@,
            Rule::WeightZeroPlaceholder => "SEM011"@,
            Rule::AllowDeadCodeInPallet => "SEM012"@,
            Rule::CustomInvalidityReprU8 => "SEM013"@,
            Rule::SubmitTransactionLogTarget => "SEM014"@,
            Rule::MissingWeightOfAuthorize => "SEM015"@,
            Rule::AssertNoop => "TST001"@,
            Rule::ApplyExtrinsicAssertOk => "TST002"@,
            Rule::ImportsInsideClosures => "TST003"@,
            Rule::PaysYesErrorPath => "TST004"@,
            Rule::ImplementationDetailAssertions => "TST005"@,
            Rule::ExtrinsicWithoutEvent => "TST006"@,
            Rule::ExcessiveMockSetup => "MOK001"@,
            Rule::BenchmarkForWeightFunction => "BEN001"@,
            Rule::BenchmarkVerification => "BEN002"@,
            Rule::ExtrinsicWithoutBenchmark => "BEN003"@,
            Rule::SpellingConventions => "TRM001"@,
        }
    }

    /// The identifier of the rule.
    pub fn id(&self) -> (r: &'static str)
        ensures
            r@ == self.spec_id(),
    {
        match self {
            Rule::ValidationBeforeHeavyRead => "VAL001",
            Rule::PreferCollectTurbofish => "SEM002",
            Rule::PreferRefIteration => "SEM003",
            Rule::NoWildcardImports => "SEM004",
            Rule::ParameteriseWeightFunctions => "SEM005",
            Rule::RuntimeDebugDeprecated => "SEM007",
            Rule::SpStdDeprecated => "SEM008",
            Rule::WeightZeroPlaceholder => "SEM011",
            Rule::AllowDeadCodeInPallet => "SEM012",
            Rule::CustomInvalidityReprU8 => "SEM013",
            Rule::SubmitTransactionLogTarget => "SEM014",
            Rule::MissingWeightOfAuthorize => "SEM015",
            Rule::AssertNoop => "TST001",
            Rule::ApplyExtrinsicAssertOk => "TST002",
            Rule::ImportsInsideClosures => "TST003",
            Rule::PaysYesErrorPath => "TST004",
            Rule::ImplementationDetailAssertions => "TST005",
            Rule::ExtrinsicWithoutEvent => "TST006",
            Rule::ExcessiveMockSetup => "MOK001",
            Rule::BenchmarkForWeightFunction => "BEN001",
            Rule::BenchmarkVerification => "BEN002",
            Rule::ExtrinsicWithoutBenchmark => "BEN003",
            Rule::SpellingConventions => "TRM001",
        }
    }
}

/// Every registered rule, in registration order.
pub open spec fn registered_rules() -> Seq<Rule> {
    seq![
            Rule::ValidationBeforeHeavyRead,
            Rule::PreferCollectTurbofish,
            Rule::PreferRefIteration,
            Rule::NoWildcardImports,
            Rule::ParameteriseWeightFunctions,
            Rule::RuntimeDebugDeprecated,
            Rule::SpStdDeprecated,
            Rule::WeightZeroPlaceholder,
            Rule::AllowDeadCodeInPallet,
            Rule::CustomInvalidityReprU8,
            Rule::SubmitTransactionLogTarget,
            Rule::MissingWeightOfAuthorize,
            Rule::AssertNoop,
            Rule::ApplyExtrinsicAssertOk,
            Rule::ImportsInsideClosures,
            Rule::PaysYesErrorPath,
            Rule::ImplementationDetailAssertions,
            Rule::ExtrinsicWithoutEvent,
            Rule::ExcessiveMockSetup,
            Rule::BenchmarkForWeightFunction,
            Rule::BenchmarkVerification,
            Rule::ExtrinsicWithoutBenchmark,
            Rule::SpellingConventions
    ]
}

/// The rules of `rs` that `config` leaves enabled, in order.
pub open spec fn enabled_rules(rs: Seq<Rule>, config: &Config) -> Seq<Rule>
    decreases rs.len(),
{
    if rs.len() == 0 {
        seq![]
    } else {
        let rest = enabled_rules(rs.drop_last(), config);
        if config.spec_rule_enabled(rs.last().spec_id()) {
            rest.push(rs.last())
        } else {
            rest
        }
    }
}

/// Return all registered lint rules that `config` leaves enabled.
pub fn all_rules(config: &Config) -> (r: Vec<Rule>)
    ensures
        r@ == enabled_rules(registered_rules(), config),
{
    let all = vec![
        Rule::ValidationBeforeHeavyRead,
        Rule::PreferCollectTurbofish,
        Rule::PreferRefIteration,
        Rule::NoWildcardImports,
        Rule::ParameteriseWeightFunctions,
        Rule::RuntimeDebugDeprecated,
        Rule::SpStdDeprecated,
        Rule::WeightZeroPlaceholder,
        Rule::AllowDeadCodeInPallet,
        Rule::CustomInvalidityReprU8,
        Rule::SubmitTransactionLogTarget,
        Rule::MissingWeightOfAuthorize,
        Rule::AssertNoop,
        Rule::ApplyExtrinsicAssertOk,
        Rule::ImportsInsideClosures,
        Rule::PaysYesErrorPath,
        Rule::ImplementationDetailAssertions,
        Rule::ExtrinsicWithoutEvent,
        Rule::ExcessiveMockSetup,
        Rule::BenchmarkForWeightFunction,
        Rule::BenchmarkVerification,
        Rule::ExtrinsicWithoutBenchmark,
        Rule::SpellingConventions
    ];
    assert(all@ =~= registered_rules());
    let mut rules: Vec<Rule> = Vec::new();
    let mut i: usize = 0;
    assert(all@.take(0) =~= Seq::<Rule>::empty());
    while i < all.len()
        invariant
            i <= all@.len(),
            all@ == registered_rules(),
            rules@ == enabled_rules(all@.take(i as int), config),
        decreases all.len() - i,
    {
        let rule = all[i];
        assert(all@.take(i + 1).drop_last() =~= all@.take(i as int));
        if config.rule_enabled(rule.id()) {
            rules.push(rule);
        }
        i += 1;
    }
    assert(all@.take(all.len() as int) =~= all@);
    rules
}

/// Filtering by one configuration after another that enables at least as
/// much is filtering by the first alone.
proof fn lemma_enabled_rules_refine(rs: Seq<Rule>, c1: &Config, c2: &Config)
    requires
        forall|id: Seq<char>| c1.spec_rule_enabled(id) ==> #[trigger] c2.spec_rule_enabled(id),
    ensures
        enabled_rules(rs, c1) == enabled_rules(enabled_rules(rs, c2), c1),
    decreases rs.len(),
{
    if rs.len() > 0 {
        let last = rs.last();
        let e2 = enabled_rules(rs.drop_last(), c2);
        lemma_enabled_rules_refine(rs.drop_last(), c1, c2);
        if c2.spec_rule_enabled(last.spec_id()) {
            let pushed = e2.push(last);
            assert(pushed.drop_last() =~= e2);
            assert(pushed.last() == last);
        } else {
            assert(!c1.spec_rule_enabled(last.spec_id()));
        }
    }
}

/// Every rule that `config` leaves enabled among `rs` is one of `rs`.
proof fn lemma_enabled_rules_members(rs: Seq<Rule>, config: &Config, r: Rule)
    requires
        enabled_rules(rs, config).contains(r),
    ensures
        rs.contains(r),
    decreases rs.len(),
{
    if rs.len() > 0 {
        let rest = enabled_rules(rs.drop_last(), config);
        if rest.contains(r) {
            lemma_enabled_rules_members(rs.drop_last(), config, r);
            let k = choose|k: int| 0 <= k < rs.drop_last().len() && rs.drop_last()[k] == r;
            assert(rs[k] == r);
        } else {
            assert(r == rs.last());
            assert(rs[rs.len() - 1] == r);
        }
    }
}

/// `all_rules` is monotone in the enabled rules: when `c2` enables every
/// rule that `c1` enables, `c1`'s list is `c2`'s list with the rules that
/// `c1` disables taken out, in the same order, so every rule of `c1`'s list
/// is in `c2`'s.
pub proof fn law_all_rules_monotone(c1: &Config, c2: &Config)
    requires
        forall|id: Seq<char>| c1.spec_rule_enabled(id) ==> #[trigger] c2.spec_rule_enabled(id),
    ensures
        enabled_rules(registered_rules(), c1) == enabled_rules(
            enabled_rules(registered_rules(), c2),
            c1,
        ),
        forall|r: Rule|
            enabled_rules(registered_rules(), c1).contains(r) ==> #[trigger] enabled_rules(
                registered_rules(),
                c2,
            ).contains(r),
{
    let l2 = enabled_rules(registered_rules(), c2);
    lemma_enabled_rules_refine(registered_rules(), c1, c2);
    assert forall|r: Rule|
        enabled_rules(registered_rules(), c1).contains(r) implies #[trigger] l2.contains(r) by {
        lemma_enabled_rules_members(l2, c1, r);
    }
}

} // verus!
