//! SEC015: `dispatch_bypass_filter` in production code, outside a root
//! check.
use vstd::prelude::*;
use crate::config::Config;
use crate::context::{rust_file_parses, walked_on, FileContext};
use crate::diagnostics::{
    into_report, make_diagnostic, models, report_of, Diagnostic, DiagnosticModel, RuleCategory,
    Severity,
};
use crate::rules::masks::{cfg_test_module_mask, spec_cfg_test_module_mask};
use crate::rules::semantic::{
    content_lines, should_skip_production_rule, spec_should_skip_production_rule,
    DispatchBypassFilterInProduction,
};
use crate::rules::syntax_rules::{masked_line, masked_line_exec};
use crate::rules::LintRule;
use crate::text::{chars_of, equals_str, lines_of};

verus! {

/// A method call of the syntax tree, with what the walk learnt of the
/// function around it.
pub struct BypassSite {
    pub method: String,
    pub line: usize,
    pub column: usize,
    /// It lies in the branch of an `if` on `ensure_root(..).is_ok()`, or on
    /// a local bound to it.
    pub in_root_context: bool,
    /// The lines of the `ensure_root(..)?` calls of the enclosing function.
    pub root_guard_lines: Vec<usize>,
}

/// An `ensure_root(..)?` of the function stands on an earlier line.
pub open spec fn has_prior_root_guard(s: BypassSite) -> bool {
    exists|k: int| 0 <= k < s.root_guard_lines@.len() && #[trigger] s.root_guard_lines@[k] < s.line
}

/// A `dispatch_bypass_filter` call in production code that no root check
/// guards.
pub open spec fn bypass_flagged(s: BypassSite, mask: Seq<bool>) -> bool {
    &&& s.method@ == "dispatch_bypass_filter"@
    &&& !masked_line(mask, s.line as nat)
    &&& !s.in_root_context
    &&& !has_prior_root_guard(s)
}

/// The SEC015 diagnostic of a call.
pub open spec fn sec015_model(file: Seq<char>, sev: Severity, s: BypassSite) -> DiagnosticModel {
    DiagnosticModel {
        rule_id: "SEC015"@,
        rule_name: "dispatch-bypass-filter-in-production"@,
        category: RuleCategory::Semantic,
        severity: sev,
        file,
        line: s.line as nat,
        column: Some(s.column as nat),
        end_line: None,
        message: "`dispatch_bypass_filter` is used in production code"@,
        explanation: "Bypassing dispatch filters sidesteps normal call filtering and can accidentally enable privileged or unsafe execution paths."@,
        suggestion: Some(
            "Use normal `dispatch`/`dispatch_as` flow unless bypassing filters is explicitly justified and reviewed"@,
        ),
    }
}

/// The SEC015 diagnostics of a file's method calls, in order.
pub open spec fn sec015_found(
    sites: Seq<BypassSite>,
    mask: Seq<bool>,
    file: Seq<char>,
    sev: Severity,
) -> Seq<DiagnosticModel>
    decreases sites.len(),
{
    if sites.len() == 0 {
        seq![]
    } else {
        let rest = sec015_found(sites.drop_last(), mask, file, sev);
        if bypass_flagged(sites.last(), mask) {
            rest.push(sec015_model(file, sev, sites.last()))
        } else {
            rest
        }
    }
}

/// Whether SEC015 reports a call.
fn bypass_flagged_exec(s: &BypassSite, mask: &Vec<bool>) -> (r: bool)
    ensures
        r == bypass_flagged(*s, mask@),
{
    if !equals_str(&chars_of(s.method.as_str()), "dispatch_bypass_filter") || masked_line_exec(
        mask,
        s.line,
    ) || s.in_root_context {
        return false;
    }
    let mut k: usize = 0;
    while k < s.root_guard_lines.len()
        invariant
            k <= s.root_guard_lines@.len(),
            forall|j: int| 0 <= j < k ==> !(#[trigger] s.root_guard_lines@[j] < s.line),
        decreases s.root_guard_lines.len() - k,
    {
        if s.root_guard_lines[k] < s.line {
            assert(has_prior_root_guard(*s));
            return false;
        }
        k += 1;
    }
    true
}

impl DispatchBypassFilterInProduction {
    /// Runs the rule on the file, with `walk` reading its method calls off its
    /// syntax tree: nothing when the file is not Rust or does not parse.
    pub fn check_file<W: Fn(&syn::File) -> Vec<BypassSite>>(&self, ctx: &FileContext, config: &Config, walk: W) -> (r: Option<Vec<Diagnostic>>)
        requires
            ctx.content@.len() <= isize::MAX,
            forall|t: syn::File| walk.requires((&t,)),
        ensures
            !(ctx.is_rust && rust_file_parses(ctx.content@)) ==> r is None,
            (ctx.is_rust && rust_file_parses(ctx.content@)) ==> exists|sites: Vec<BypassSite>|
                #[trigger] walked_on(walk, ctx.content@, sites) && (!(!spec_should_skip_production_rule(ctx)) ==> r is None) && ((!spec_should_skip_production_rule(ctx)) ==> report_of(
                    sec015_found(sites@, spec_cfg_test_module_mask(lines_of(ctx.content@)), ctx.path@, config.spec_rule_severity("SEC015"@, Severity::Warning)),
                    r,
                )),
    {
        let sites = ctx.file_sites(walk);
        let r = self.check(ctx, config, sites);
        proof {
            if ctx.is_rust && rust_file_parses(ctx.content@) {
                assert(walked_on(walk, ctx.content@, sites->0));
            }
        }
        r
    }

    /// Reports `dispatch_bypass_filter` calls in production code that no
    /// root check guards. `sites` are the file's method calls in the syntax
    /// tree's order (`None` when it did not parse).
    pub fn check(&self, ctx: &FileContext, config: &Config, sites: Option<Vec<BypassSite>>) -> (r: Option<Vec<Diagnostic>>)
        requires
            ctx.content@.len() <= isize::MAX,
        ensures
            (spec_should_skip_production_rule(ctx) || sites is None) ==> r is None,
            (!spec_should_skip_production_rule(ctx) && sites is Some) ==> report_of(
                sec015_found(
                    sites->0@,
                    spec_cfg_test_module_mask(lines_of(ctx.content@)),
                    ctx.path@,
                    config.spec_rule_severity("SEC015"@, Severity::Warning),
                ),
                r,
            ),
    {
        if should_skip_production_rule(ctx) {
            return None;
        }
        let sites = match sites {
            Some(s) => s,
            None => return None,
        };
        let lines = content_lines(ctx);
        let mask = cfg_test_module_mask(&lines);
        let severity = config.rule_severity(self.id(), Severity::Warning);
        let mut diagnostics: Vec<Diagnostic> = Vec::new();
        let mut i: usize = 0;
        assert(sites@.take(0) =~= Seq::<BypassSite>::empty());
        while i < sites.len()
            invariant
                i <= sites@.len(),
                models(diagnostics@) == sec015_found(sites@.take(i as int), mask@, ctx.path@, severity),
            decreases sites.len() - i,
        {
            let s = &sites[i];
            assert(sites@.take(i + 1).drop_last() =~= sites@.take(i as int));
            assert(sites@.take(i + 1).last() == *s);
            if bypass_flagged_exec(s, &mask) {
                let ghost before = models(diagnostics@);
                diagnostics.push(
                    make_diagnostic(
                        self.id(),
                        self.name(),
                        RuleCategory::Semantic,
                        severity,
                        &ctx.path,
                        s.line,
                        Some(s.column),
                        None,
                        "`dispatch_bypass_filter` is used in production code".to_owned(),
                        "Bypassing dispatch filters sidesteps normal call filtering and can accidentally enable privileged or unsafe execution paths.",
                        Some(
                            "Use normal `dispatch`/`dispatch_as` flow unless bypassing filters is explicitly justified and reviewed".to_owned(),
                        ),
                    ),
                );
                assert(models(diagnostics@) =~= before.push(sec015_model(ctx.path@, severity, *s)));
            }
            i += 1;
        }
        assert(sites@.take(sites@.len() as int) =~= sites@);
        into_report(diagnostics)
    }
}

} // verus!
