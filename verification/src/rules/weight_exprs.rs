//! Rules on weight expressions: SEC004, plain `+`/`*` in a
//! `#[pallet::weight(..)]`; SEC005, storage reads, encoding or dispatch info
//! in one; SEM006, `DbWeight::get().reads(..)`, which counts no proof size.
use vstd::prelude::*;
use crate::config::Config;
use crate::context::FileContext;
use crate::diagnostics::{
    into_report, make_diagnostic, models, report_of, Diagnostic, DiagnosticModel, RuleCategory,
    Severity,
};
use crate::rules::masks::{cfg_test_module_mask, spec_cfg_test_module_mask};
use crate::rules::semantic::{
    content_lines, should_skip_production_rule, spec_should_skip_production_rule,
    DbWeightMissingPov, ExpensiveWeightCalculation, UnsafeWeightArithmetic,
};
use crate::rules::syntax_rules::{
    has_segment, has_segment_exec, last_is, last_is_exec, masked_line, masked_line_exec,
    path_is_exec, segs, MethodCallSite,
};
use crate::rules::LintRule;
use crate::text::{chars_of, contains, contains_str, ends_with, ends_with_str, equals_str, lines_of, starts_with, starts_with_str};

verus! {

/// A node of a weight expression, in the order the walk meets them.
pub enum WeightNode {
    /// A binary expression; `add_or_mul` when it is `+` or `*`.
    Binary { add_or_mul: bool, line: usize, column: usize },
    /// A method call.
    MethodCall { method: String, line: usize, column: usize },
    /// A call of a path: its segments and its tokens without whitespace.
    Call { path: Vec<String>, compact: String, line: usize, column: usize },
}

/// An attribute of a top-level function, or of a function of a top-level
/// `impl`, in the file's order.
pub struct WeightAttrSite {
    /// Its path's segments.
    pub path: Vec<String>,
    pub line: usize,
    /// The nodes of its argument, when that parses as an expression.
    pub nodes: Option<Vec<WeightNode>>,
}

/// The attribute is `#[pallet::weight(..)]` in production code and its
/// argument is an expression.
pub open spec fn reads_weight_attr(a: WeightAttrSite, mask: Seq<bool>) -> bool {
    &&& segs(a.path@) == seq!["pallet"@, "weight"@]
    &&& !masked_line(mask, a.line as nat)
    &&& a.nodes is Some
}

/// A diagnostic of one of these rules at a node.
pub open spec fn weight_model(
    id: Seq<char>,
    name: Seq<char>,
    message: Seq<char>,
    explanation: Seq<char>,
    suggestion: Seq<char>,
    file: Seq<char>,
    sev: Severity,
    line: usize,
    column: usize,
) -> DiagnosticModel {
    DiagnosticModel {
        rule_id: id,
        rule_name: name,
        category: RuleCategory::Semantic,
        severity: sev,
        file,
        line: line as nat,
        column: Some(column as nat),
        end_line: None,
        message,
        explanation,
        suggestion: Some(suggestion),
    }
}

// ---------------------------------------------------------------------------
// SEC004: unsafe weight arithmetic
// ---------------------------------------------------------------------------

/// A `+`, `*`, `.add(..)` or `.mul(..)`: the position it reports.
pub open spec fn unsafe_arith_at(n: WeightNode) -> Option<(usize, usize)> {
    match n {
        WeightNode::Binary { add_or_mul, line, column } => if add_or_mul {
            Some((line, column))
        } else {
            None
        },
        WeightNode::MethodCall { method, line, column } => if method@ == "add"@ || method@
            == "mul"@ {
            Some((line, column))
        } else {
            None
        },
        WeightNode::Call { .. } => None,
    }
}

/// The SEC004 diagnostic at a position.
pub open spec fn sec004_model(file: Seq<char>, sev: Severity, line: usize, column: usize) -> DiagnosticModel {
    weight_model(
        "SEC004"@,
        "unsafe-weight-arithmetic"@,
        "Non-saturating arithmetic inside `#[pallet::weight(...)]` — overflow risk"@,
        "Arithmetic overflow in weight calculation produces a tiny weight value in release builds, allowing overweight blocks that can stall the chain. Use `saturating_add`/`saturating_mul` instead."@,
        "Replace `.add()` with `.saturating_add()` and `.mul()` with `.saturating_mul()`"@,
        file,
        sev,
        line,
        column,
    )
}

/// The SEC004 diagnostics of some nodes, in order.
pub open spec fn sec004_nodes(nodes: Seq<WeightNode>, file: Seq<char>, sev: Severity) -> Seq<DiagnosticModel>
    decreases nodes.len(),
{
    if nodes.len() == 0 {
        seq![]
    } else {
        let rest = sec004_nodes(nodes.drop_last(), file, sev);
        match unsafe_arith_at(nodes.last()) {
            Some((l, c)) => rest.push(sec004_model(file, sev, l, c)),
            None => rest,
        }
    }
}

/// The SEC004 diagnostics of a file's weight attributes, in order.
pub open spec fn sec004_found(
    attrs: Seq<WeightAttrSite>,
    mask: Seq<bool>,
    file: Seq<char>,
    sev: Severity,
) -> Seq<DiagnosticModel>
    decreases attrs.len(),
{
    if attrs.len() == 0 {
        seq![]
    } else {
        let rest = sec004_found(attrs.drop_last(), mask, file, sev);
        let a = attrs.last();
        if reads_weight_attr(a, mask) {
            rest + sec004_nodes(a.nodes->0@, file, sev)
        } else {
            rest
        }
    }
}

// ---------------------------------------------------------------------------
// SEC005: expensive weight calculation
// ---------------------------------------------------------------------------

/// The segment before the path's last.
pub open spec fn owner_is(p: Seq<String>, s: Seq<char>) -> bool {
    p.len() >= 2 && p[p.len() - 2]@ == s
}

/// A storage `get()` (not of `WeightInfo` or of the config `T::`),
/// `get_dispatch_info()`, or an encoding or decoding: the position it
/// reports.
pub open spec fn expensive_at(n: WeightNode) -> Option<(usize, usize)> {
    match n {
        WeightNode::Binary { .. } => None,
        WeightNode::MethodCall { method, line, column } => if method@ == "encode"@ || method@
            == "decode"@ || method@ == "using_encoded"@ || method@ == "get_dispatch_info"@ {
            Some((line, column))
        } else {
            None
        },
        WeightNode::Call { path, compact, line, column } => if (last_is(path@, "get"@) || last_is(
            path@,
            "get_dispatch_info"@,
        )) && !owner_is(path@, "WeightInfo"@) && !starts_with(compact@, "T::"@) {
            Some((line, column))
        } else {
            None
        },
    }
}

/// The SEC005 diagnostic at a position.
pub open spec fn sec005_model(file: Seq<char>, sev: Severity, line: usize, column: usize) -> DiagnosticModel {
    weight_model(
        "SEC005"@,
        "expensive-weight-calculation"@,
        "Expensive operation inside `#[pallet::weight(...)]` — DoS risk"@,
        "Weight is computed before dispatch to decide if the extrinsic fits in the block. Storage reads, encoding, and `get_dispatch_info()` inside weight attributes can be exploited for DoS. Weight functions must be purely arithmetic."@,
        "Move expensive operations out of the weight attribute; use only pre-benchmarked weight functions"@,
        file,
        sev,
        line,
        column,
    )
}

/// The SEC005 diagnostics of some nodes, in order.
pub open spec fn sec005_nodes(nodes: Seq<WeightNode>, file: Seq<char>, sev: Severity) -> Seq<DiagnosticModel>
    decreases nodes.len(),
{
    if nodes.len() == 0 {
        seq![]
    } else {
        let rest = sec005_nodes(nodes.drop_last(), file, sev);
        match expensive_at(nodes.last()) {
            Some((l, c)) => rest.push(sec005_model(file, sev, l, c)),
            None => rest,
        }
    }
}

/// The SEC005 diagnostics of a file's weight attributes, in order.
pub open spec fn sec005_found(
    attrs: Seq<WeightAttrSite>,
    mask: Seq<bool>,
    file: Seq<char>,
    sev: Severity,
) -> Seq<DiagnosticModel>
    decreases attrs.len(),
{
    if attrs.len() == 0 {
        seq![]
    } else {
        let rest = sec005_found(attrs.drop_last(), mask, file, sev);
        let a = attrs.last();
        if reads_weight_attr(a, mask) {
            rest + sec005_nodes(a.nodes->0@, file, sev)
        } else {
            rest
        }
    }
}

/// Which weight rule a scan serves.
#[derive(PartialEq, Eq, Structural, Clone, Copy, Debug)]
pub enum WeightRule {
    UnsafeArithmetic,
    ExpensiveCalculation,
}

/// The position a node reports under a rule.
pub open spec fn node_report(rule: WeightRule, n: WeightNode) -> Option<(usize, usize)> {
    match rule {
        WeightRule::UnsafeArithmetic => unsafe_arith_at(n),
        WeightRule::ExpensiveCalculation => expensive_at(n),
    }
}

/// The diagnostic a rule makes at a position.
pub open spec fn rule_model(rule: WeightRule, file: Seq<char>, sev: Severity, line: usize, column: usize) -> DiagnosticModel {
    match rule {
        WeightRule::UnsafeArithmetic => sec004_model(file, sev, line, column),
        WeightRule::ExpensiveCalculation => sec005_model(file, sev, line, column),
    }
}

/// The diagnostics of a rule over some nodes.
pub open spec fn rule_nodes(rule: WeightRule, nodes: Seq<WeightNode>, file: Seq<char>, sev: Severity) -> Seq<DiagnosticModel> {
    match rule {
        WeightRule::UnsafeArithmetic => sec004_nodes(nodes, file, sev),
        WeightRule::ExpensiveCalculation => sec005_nodes(nodes, file, sev),
    }
}

/// The diagnostics of a rule over a file's weight attributes.
pub open spec fn rule_found(
    rule: WeightRule,
    attrs: Seq<WeightAttrSite>,
    mask: Seq<bool>,
    file: Seq<char>,
    sev: Severity,
) -> Seq<DiagnosticModel> {
    match rule {
        WeightRule::UnsafeArithmetic => sec004_found(attrs, mask, file, sev),
        WeightRule::ExpensiveCalculation => sec005_found(attrs, mask, file, sev),
    }
}

/// The position a node reports under a rule.
fn node_report_exec(rule: WeightRule, n: &WeightNode) -> (r: Option<(usize, usize)>)
    ensures
        r == node_report(rule, *n),
{
    match n {
        WeightNode::Binary { add_or_mul, line, column } => {
            if rule == WeightRule::UnsafeArithmetic && *add_or_mul {
                Some((*line, *column))
            } else {
                None
            }
        },
        WeightNode::MethodCall { method, line, column } => {
            let m = chars_of(method.as_str());
            let hit = match rule {
                WeightRule::UnsafeArithmetic => equals_str(&m, "add") || equals_str(&m, "mul"),
                WeightRule::ExpensiveCalculation => equals_str(&m, "encode") || equals_str(
                    &m,
                    "decode",
                ) || equals_str(&m, "using_encoded") || equals_str(&m, "get_dispatch_info"),
            };
            if hit {
                Some((*line, *column))
            } else {
                None
            }
        },
        WeightNode::Call { path, compact, line, column } => {
            if rule == WeightRule::UnsafeArithmetic {
                return None;
            }
            let owner_weight_info = path.len() >= 2 && equals_str(
                &chars_of(path[path.len() - 2].as_str()),
                "WeightInfo",
            );
            if (last_is_exec(path, "get") || last_is_exec(path, "get_dispatch_info"))
                && !owner_weight_info && !starts_with_str(&chars_of(compact.as_str()), "T::") {
                Some((*line, *column))
            } else {
                None
            }
        },
    }
}

/// The texts of a rule's diagnostics: message, explanation, suggestion.
fn rule_texts(rule: WeightRule) -> (r: (&'static str, &'static str, &'static str))
    ensures
        rule_model(rule, seq![], Severity::Warning, 0, 0).message == r.0@,
        rule_model(rule, seq![], Severity::Warning, 0, 0).explanation == r.1@,
        rule_model(rule, seq![], Severity::Warning, 0, 0).suggestion == Some(r.2@),
{
    match rule {
        WeightRule::UnsafeArithmetic => (
            "Non-saturating arithmetic inside `#[pallet::weight(...)]` — overflow risk",
            "Arithmetic overflow in weight calculation produces a tiny weight value in release builds, allowing overweight blocks that can stall the chain. Use `saturating_add`/`saturating_mul` instead.",
            "Replace `.add()` with `.saturating_add()` and `.mul()` with `.saturating_mul()`",
        ),
        WeightRule::ExpensiveCalculation => (
            "Expensive operation inside `#[pallet::weight(...)]` — DoS risk",
            "Weight is computed before dispatch to decide if the extrinsic fits in the block. Storage reads, encoding, and `get_dispatch_info()` inside weight attributes can be exploited for DoS. Weight functions must be purely arithmetic.",
            "Move expensive operations out of the weight attribute; use only pre-benchmarked weight functions",
        ),
    }
}

/// The diagnostics of a rule over a file's weight attributes.
fn weight_rule_scan(
    rule: WeightRule,
    id: &str,
    name: &str,
    attrs: &Vec<WeightAttrSite>,
    mask: &Vec<bool>,
    file: &String,
    severity: Severity,
) -> (r: Vec<Diagnostic>)
    requires
        rule == WeightRule::UnsafeArithmetic ==> id@ == "SEC004"@ && name@ == "unsafe-weight-arithmetic"@,
        rule == WeightRule::ExpensiveCalculation ==> id@ == "SEC005"@ && name@
            == "expensive-weight-calculation"@,
    ensures
        models(r@) == rule_found(rule, attrs@, mask@, file@, severity),
{
    let (message, explanation, suggestion) = rule_texts(rule);
    let mut diagnostics: Vec<Diagnostic> = Vec::new();
    let mut i: usize = 0;
    assert(attrs@.take(0) =~= Seq::<WeightAttrSite>::empty());
    while i < attrs.len()
        invariant
            i <= attrs@.len(),
            rule_model(rule, seq![], Severity::Warning, 0, 0).message == message@,
            rule_model(rule, seq![], Severity::Warning, 0, 0).explanation == explanation@,
            rule_model(rule, seq![], Severity::Warning, 0, 0).suggestion == Some(suggestion@),
            rule == WeightRule::UnsafeArithmetic ==> id@ == "SEC004"@ && name@
                == "unsafe-weight-arithmetic"@,
            rule == WeightRule::ExpensiveCalculation ==> id@ == "SEC005"@ && name@
                == "expensive-weight-calculation"@,
            models(diagnostics@) == rule_found(rule, attrs@.take(i as int), mask@, file@, severity),
        decreases attrs.len() - i,
    {
        let a = &attrs[i];
        let ghost before = rule_found(rule, attrs@.take(i as int), mask@, file@, severity);
        assert(attrs@.take(i + 1).drop_last() =~= attrs@.take(i as int));
        assert(attrs@.take(i + 1).last() == *a);
        if path_is_exec(&a.path, "pallet", Some("weight")) && !masked_line_exec(mask, a.line) {
            match &a.nodes {
                Some(nodes) => {
                    let mut j: usize = 0;
                    assert(nodes@.take(0) =~= Seq::<WeightNode>::empty());
                    assert(before + rule_nodes(rule, nodes@.take(0), file@, severity) =~= before);
                    while j < nodes.len()
                        invariant
                            j <= nodes@.len(),
                            rule_model(rule, seq![], Severity::Warning, 0, 0).message == message@,
                            rule_model(rule, seq![], Severity::Warning, 0, 0).explanation
                                == explanation@,
                            rule_model(rule, seq![], Severity::Warning, 0, 0).suggestion == Some(
                                suggestion@,
                            ),
                            rule == WeightRule::UnsafeArithmetic ==> id@ == "SEC004"@ && name@
                                == "unsafe-weight-arithmetic"@,
                            rule == WeightRule::ExpensiveCalculation ==> id@ == "SEC005"@ && name@
                                == "expensive-weight-calculation"@,
                            models(diagnostics@) == before + rule_nodes(
                                rule,
                                nodes@.take(j as int),
                                file@,
                                severity,
                            ),
                        decreases nodes.len() - j,
                    {
                        let ghost done = rule_nodes(rule, nodes@.take(j as int), file@, severity);
                        assert(nodes@.take(j + 1).drop_last() =~= nodes@.take(j as int));
                        assert(nodes@.take(j + 1).last() == nodes@[j as int]);
                        match node_report_exec(rule, &nodes[j]) {
                            Some((line, column)) => {
                                let ghost old_models = models(diagnostics@);
                                diagnostics.push(
                                    make_diagnostic(
                                        id,
                                        name,
                                        RuleCategory::Semantic,
                                        severity,
                                        file,
                                        line,
                                        Some(column),
                                        None,
                                        message.to_owned(),
                                        explanation,
                                        Some(suggestion.to_owned()),
                                    ),
                                );
                                assert(models(diagnostics@) =~= old_models.push(
                                    rule_model(rule, file@, severity, line, column),
                                ));
                                assert(old_models.push(rule_model(rule, file@, severity, line, column))
                                    =~= before + done.push(rule_model(rule, file@, severity, line, column)));
                            },
                            None => {},
                        }
                        j += 1;
                    }
                    assert(nodes@.take(nodes@.len() as int) =~= nodes@);
                },
                None => {},
            }
        }
        i += 1;
    }
    assert(attrs@.take(attrs@.len() as int) =~= attrs@);
    diagnostics
}

impl UnsafeWeightArithmetic {
    /// Reports each `+`, `*`, `.add(..)` and `.mul(..)` in a
    /// `#[pallet::weight(..)]` of production code. `attrs` are the
    /// attributes of the file's top-level functions and of the functions of
    /// its top-level `impl`s, in order (`None` when it did not parse).
    pub fn check(&self, ctx: &FileContext, config: &Config, attrs: Option<Vec<WeightAttrSite>>) -> (r: Option<Vec<Diagnostic>>)
        requires
            ctx.content@.len() <= isize::MAX,
        ensures
            (spec_should_skip_production_rule(ctx) || attrs is None) ==> r is None,
            (!spec_should_skip_production_rule(ctx) && attrs is Some) ==> report_of(
                sec004_found(
                    attrs->0@,
                    spec_cfg_test_module_mask(lines_of(ctx.content@)),
                    ctx.path@,
                    config.spec_rule_severity("SEC004"@, Severity::Warning),
                ),
                r,
            ),
    {
        if should_skip_production_rule(ctx) {
            return None;
        }
        let attrs = match attrs {
            Some(a) => a,
            None => return None,
        };
        let lines = content_lines(ctx);
        let mask = cfg_test_module_mask(&lines);
        let severity = config.rule_severity(self.id(), Severity::Warning);
        into_report(
            weight_rule_scan(
                WeightRule::UnsafeArithmetic,
                self.id(),
                self.name(),
                &attrs,
                &mask,
                &ctx.path,
                severity,
            ),
        )
    }
}

impl ExpensiveWeightCalculation {
    /// Reports each storage `get()` (but of `WeightInfo` or the config
    /// `T::`), `get_dispatch_info()`, `.encode()`, `.decode()` and
    /// `.using_encoded(..)` in a `#[pallet::weight(..)]` of production code.
    /// `attrs` are the attributes of the file's top-level functions and of
    /// the functions of its top-level `impl`s, in order (`None` when it did
    /// not parse).
    pub fn check(&self, ctx: &FileContext, config: &Config, attrs: Option<Vec<WeightAttrSite>>) -> (r: Option<Vec<Diagnostic>>)
        requires
            ctx.content@.len() <= isize::MAX,
        ensures
            (spec_should_skip_production_rule(ctx) || attrs is None) ==> r is None,
            (!spec_should_skip_production_rule(ctx) && attrs is Some) ==> report_of(
                sec005_found(
                    attrs->0@,
                    spec_cfg_test_module_mask(lines_of(ctx.content@)),
                    ctx.path@,
                    config.spec_rule_severity("SEC005"@, Severity::Warning),
                ),
                r,
            ),
    {
        if should_skip_production_rule(ctx) {
            return None;
        }
        let attrs = match attrs {
            Some(a) => a,
            None => return None,
        };
        let lines = content_lines(ctx);
        let mask = cfg_test_module_mask(&lines);
        let severity = config.rule_severity(self.id(), Severity::Warning);
        into_report(
            weight_rule_scan(
                WeightRule::ExpensiveCalculation,
                self.id(),
                self.name(),
                &attrs,
                &mask,
                &ctx.path,
                severity,
            ),
        )
    }
}

// ---------------------------------------------------------------------------
// SEM006: `DbWeight` without proof size
// ---------------------------------------------------------------------------

/// `DbWeight::get().reads(..)`, `.writes(..)` or `.reads_writes(..)`.
pub open spec fn db_weight_call(m: MethodCallSite) -> bool {
    &&& m.method@ == "reads"@ || m.method@ == "writes"@ || m.method@ == "reads_writes"@
    &&& match m.receiver_call {
        Some((path, args)) => args == 0 && last_is(path@, "get"@) && has_segment(path@, "DbWeight"@),
        None => false,
    }
}

/// The SEM006 diagnostic of a call.
pub open spec fn sem006_model(file: Seq<char>, sev: Severity, m: MethodCallSite) -> DiagnosticModel {
    weight_model(
        "SEM006"@,
        "dbweight-missing-pov"@,
        "`DbWeight::get().reads()` only accounts for ref-time, not proof size (PoV)"@,
        "Parachains have two weight dimensions: ref-time and proof size. `DbWeight::get().reads(N)` only estimates ref-time. Use a proper benchmark to capture both dimensions accurately."@,
        "Replace with a dedicated benchmark that captures proof size"@,
        file,
        sev,
        m.line,
        m.column,
    )
}

/// The SEM006 diagnostics of a file's method calls, in order.
pub open spec fn sem006_found(calls: Seq<MethodCallSite>, file: Seq<char>, sev: Severity) -> Seq<DiagnosticModel>
    decreases calls.len(),
{
    if calls.len() == 0 {
        seq![]
    } else {
        let rest = sem006_found(calls.drop_last(), file, sev);
        if db_weight_call(calls.last()) {
            rest.push(sem006_model(file, sev, calls.last()))
        } else {
            rest
        }
    }
}

/// The files SEM006 reads: Rust sources but for tests, benchmarks and
/// weight files.
pub open spec fn sem006_applies(ctx: &FileContext) -> bool {
    &&& ctx.is_rust && !ctx.is_test_file && !ctx.is_benchmark_file
    &&& !(ends_with(ctx.rel_path@, "weights.rs"@) || contains(ctx.rel_path@, "/weights/"@))
}

/// Whether a method call is a `DbWeight` read or write count.
fn db_weight_call_exec(m: &MethodCallSite) -> (r: bool)
    ensures
        r == db_weight_call(*m),
{
    let method = chars_of(m.method.as_str());
    if !(equals_str(&method, "reads") || equals_str(&method, "writes") || equals_str(
        &method,
        "reads_writes",
    )) {
        return false;
    }
    match &m.receiver_call {
        Some((path, args)) => *args == 0 && last_is_exec(path, "get") && has_segment_exec(
            path,
            "DbWeight",
        ),
        None => false,
    }
}

impl DbWeightMissingPov {
    /// Reports each `DbWeight::get().reads(..)`, `.writes(..)` and
    /// `.reads_writes(..)` outside tests, benchmarks and weight files.
    /// `calls` are the file's method calls in the syntax tree's order
    /// (`None` when it did not parse).
    pub fn check(&self, ctx: &FileContext, config: &Config, calls: Option<Vec<MethodCallSite>>) -> (r: Option<Vec<Diagnostic>>)
        ensures
            (!sem006_applies(ctx) || calls is None) ==> r is None,
            (sem006_applies(ctx) && calls is Some) ==> report_of(
                sem006_found(calls->0@, ctx.path@, config.spec_rule_severity("SEM006"@, Severity::Warning)),
                r,
            ),
    {
        if !ctx.is_rust || ctx.is_test_file || ctx.is_benchmark_file {
            return None;
        }
        let rel = chars_of(ctx.rel_path.as_str());
        if ends_with_str(&rel, "weights.rs") || contains_str(&rel, "/weights/") {
            return None;
        }
        let calls = match calls {
            Some(c) => c,
            None => return None,
        };
        let severity = config.rule_severity(self.id(), Severity::Warning);
        let mut diagnostics: Vec<Diagnostic> = Vec::new();
        let mut i: usize = 0;
        assert(calls@.take(0) =~= Seq::<MethodCallSite>::empty());
        while i < calls.len()
            invariant
                i <= calls@.len(),
                models(diagnostics@) == sem006_found(calls@.take(i as int), ctx.path@, severity),
            decreases calls.len() - i,
        {
            let m = &calls[i];
            assert(calls@.take(i + 1).drop_last() =~= calls@.take(i as int));
            assert(calls@.take(i + 1).last() == *m);
            if db_weight_call_exec(m) {
                let ghost before = models(diagnostics@);
                diagnostics.push(
                    make_diagnostic(
                        self.id(),
                        self.name(),
                        RuleCategory::Semantic,
                        severity,
                        &ctx.path,
                        m.line,
                        Some(m.column),
                        None,
                        "`DbWeight::get().reads()` only accounts for ref-time, not proof size (PoV)".to_owned(),
                        "Parachains have two weight dimensions: ref-time and proof size. `DbWeight::get().reads(N)` only estimates ref-time. Use a proper benchmark to capture both dimensions accurately.",
                        Some("Replace with a dedicated benchmark that captures proof size".to_owned()),
                    ),
                );
                assert(models(diagnostics@) =~= before.push(sem006_model(ctx.path@, severity, *m)));
            }
            i += 1;
        }
        assert(calls@.take(calls@.len() as int) =~= calls@);
        into_report(diagnostics)
    }
}

} // verus!
