//! VAL002: a division by a config, storage or length value with no zero
//! check in the ten lines before it.
use vstd::prelude::*;
use crate::config::Config;
use crate::context::{rust_file_parses, walked_on, FileContext};
use crate::diagnostics::{
    into_report, make_diagnostic, models, report_of, Diagnostic, DiagnosticModel, RuleCategory,
    Severity,
};
use crate::rules::masks::{cfg_test_module_mask, spec_cfg_test_module_mask, strip_ws, strip_ws_exec};
use crate::rules::semantic::{
    content_lines, should_skip_production_rule, spec_should_skip_production_rule,
    DivisionWithoutZeroGuard,
};
use crate::rules::syntax_rules::{masked_line, masked_line_exec};
use crate::rules::LintRule;
use crate::text::{chars_of, contains, contains_exec, contains_str, equals_str, lines_of};

verus! {

/// The divisor of a division, as the walk saw it.
pub enum Divisor {
    /// A path, by its tokens as written back: risky when a `let` of the
    /// function bound that name to a risky value.
    Path(String),
    /// A storage `get()` call or a `.len()` / `.count()`: its key.
    Risky(String),
    /// Anything else.
    Other,
}

/// A `/` in a function body.
pub struct DivisionSite {
    pub line: usize,
    pub column: usize,
    pub divisor: Divisor,
}

/// A function of the file as VAL002 reads it.
pub struct DivisionFn {
    /// Its body's top-level statements: first line and tokens without
    /// whitespace.
    pub statements: Vec<(usize, String)>,
    /// Its body's top-level `let name = <risky value>`: the name and the
    /// value's key, in order.
    pub risky_bindings: Vec<(String, String)>,
    /// Every division of its body, nested ones included, in order.
    pub divisions: Vec<DivisionSite>,
}

/// The key the last risky `let` of `name` bound, if any.
pub open spec fn binding_key(bindings: Seq<(String, String)>, name: Seq<char>) -> Option<Seq<char>>
    decreases bindings.len(),
{
    if bindings.len() == 0 {
        None
    } else if bindings.last().0@ == name {
        Some(bindings.last().1@)
    } else {
        binding_key(bindings.drop_last(), name)
    }
}

/// The key of a risky divisor.
pub open spec fn risk_key(f: DivisionFn, d: DivisionSite) -> Option<Seq<char>> {
    match d.divisor {
        Divisor::Path(p) => binding_key(f.risky_bindings@, p@),
        Divisor::Risky(k) => Some(k@),
        Divisor::Other => None,
    }
}

/// A statement that rules out a zero divisor: a checked or saturating
/// division, or a comparison with zero of the key or in an `ensure!`.
pub open spec fn guards_zero(text: Seq<char>, key: Seq<char>) -> bool {
    ||| contains(text, "checked_div"@)
    ||| contains(text, "saturating_div"@)
    ||| (contains(text, "ensure!"@) || contains(text, strip_ws(key))) && (contains(text, "!=0"@)
        || contains(text, ">0"@) || contains(text, ">=1"@) || contains(text, ".is_zero()"@))
}

/// A statement starting in the ten lines before `line` rules out a zero
/// divisor.
pub open spec fn has_zero_guard_before(statements: Seq<(usize, String)>, line: int, key: Seq<char>) -> bool {
    exists|k: int|
        0 <= k < statements.len() && (#[trigger] statements[k]).0 < line && statements[k].0 + 10
            >= line && guards_zero(statements[k].1@, key)
}

/// A division of production code by a risky value with no zero guard.
pub open spec fn division_flagged(f: DivisionFn, d: DivisionSite, mask: Seq<bool>) -> bool {
    &&& !masked_line(mask, d.line as nat)
    &&& match risk_key(f, d) {
        Some(key) => !has_zero_guard_before(f.statements@, d.line as int, key),
        None => false,
    }
}

/// The VAL002 diagnostic of a division.
pub open spec fn val002_model(file: Seq<char>, sev: Severity, d: DivisionSite) -> DiagnosticModel {
    DiagnosticModel {
        rule_id: "VAL002"@,
        rule_name: "division-without-zero-guard"@,
        category: RuleCategory::Semantic,
        severity: sev,
        file,
        line: d.line as nat,
        column: Some(d.column as nat),
        end_line: None,
        message: "Division by config/storage value without a preceding zero guard"@,
        explanation: "If the divisor is zero, the runtime panics. Config constants should have an `integrity_test` asserting non-zero, and dynamic values (`.len()`, storage reads) should have an explicit zero check or use `checked_div`."@,
        suggestion: Some(
            "Add `ensure!(divisor != 0, ...)` before the division, use `.checked_div()`, or add an `integrity_test` for config values"@,
        ),
    }
}

/// The VAL002 diagnostics of some divisions of a function, in order.
pub open spec fn fn_division_found(
    f: DivisionFn,
    divs: Seq<DivisionSite>,
    mask: Seq<bool>,
    file: Seq<char>,
    sev: Severity,
) -> Seq<DiagnosticModel>
    decreases divs.len(),
{
    if divs.len() == 0 {
        seq![]
    } else {
        let rest = fn_division_found(f, divs.drop_last(), mask, file, sev);
        if division_flagged(f, divs.last(), mask) {
            rest.push(val002_model(file, sev, divs.last()))
        } else {
            rest
        }
    }
}

/// The VAL002 diagnostics of a file's functions, in order.
pub open spec fn val002_found(
    fns: Seq<DivisionFn>,
    mask: Seq<bool>,
    file: Seq<char>,
    sev: Severity,
) -> Seq<DiagnosticModel>
    decreases fns.len(),
{
    if fns.len() == 0 {
        seq![]
    } else {
        val002_found(fns.drop_last(), mask, file, sev) + fn_division_found(
            fns.last(),
            fns.last().divisions@,
            mask,
            file,
            sev,
        )
    }
}

/// The key the last risky `let` of `name` bound.
fn binding_key_exec(bindings: &Vec<(String, String)>, name: &String) -> (r: Option<String>)
    ensures
        match r {
            Some(k) => binding_key(bindings@, name@) == Some(k@),
            None => binding_key(bindings@, name@) is None,
        },
{
    let mut k: usize = bindings.len();
    assert(bindings@.take(k as int) =~= bindings@);
    while k > 0
        invariant
            k <= bindings@.len(),
            binding_key(bindings@, name@) == binding_key(bindings@.take(k as int), name@),
        decreases k,
    {
        let b = &bindings[k - 1];
        assert(bindings@.take(k as int).drop_last() =~= bindings@.take(k - 1));
        assert(bindings@.take(k as int).last() == *b);
        if equals_str(&chars_of(b.0.as_str()), name.as_str()) {
            return Some(b.1.clone());
        }
        k -= 1;
    }
    None
}

/// Whether a statement rules out a zero divisor.
fn guards_zero_exec(text: &String, key: &Vec<char>) -> (r: bool)
    ensures
        r == guards_zero(text@, key@),
{
    let t = chars_of(text.as_str());
    let compact_key = strip_ws_exec(key);
    contains_str(&t, "checked_div") || contains_str(&t, "saturating_div") || ((contains_str(
        &t,
        "ensure!",
    ) || contains_exec(&t, &compact_key)) && (contains_str(&t, "!=0") || contains_str(&t, ">0")
        || contains_str(&t, ">=1") || contains_str(&t, ".is_zero()")))
}

/// Whether a statement in the ten lines before `line` rules out a zero
/// divisor.
fn has_zero_guard_before_exec(statements: &Vec<(usize, String)>, line: usize, key: &Vec<char>) -> (r: bool)
    ensures
        r == has_zero_guard_before(statements@, line as int, key@),
{
    let mut k: usize = 0;
    while k < statements.len()
        invariant
            k <= statements@.len(),
            forall|j: int|
                0 <= j < k ==> !((#[trigger] statements@[j]).0 < line && statements@[j].0 + 10
                    >= line && guards_zero(statements@[j].1@, key@)),
        decreases statements.len() - k,
    {
        let s = &statements[k];
        if s.0 < line && line - s.0 <= 10 && guards_zero_exec(&s.1, key) {
            assert(statements@[k as int] == *s);
            return true;
        }
        k += 1;
    }
    false
}

/// Whether VAL002 reports a division.
fn division_flagged_exec(f: &DivisionFn, d: &DivisionSite, mask: &Vec<bool>) -> (r: bool)
    ensures
        r == division_flagged(*f, *d, mask@),
{
    if masked_line_exec(mask, d.line) {
        return false;
    }
    let key = match &d.divisor {
        Divisor::Path(p) => binding_key_exec(&f.risky_bindings, p),
        Divisor::Risky(k) => Some(k.clone()),
        Divisor::Other => None,
    };
    match key {
        Some(k) => !has_zero_guard_before_exec(&f.statements, d.line, &chars_of(k.as_str())),
        None => false,
    }
}

impl DivisionWithoutZeroGuard {
    /// Runs the rule on the file, with `walk` reading each function's divisions off its
    /// syntax tree: nothing when the file is not Rust or does not parse.
    pub fn check_file<W: Fn(&syn::File) -> Vec<DivisionFn>>(&self, ctx: &FileContext, config: &Config, walk: W) -> (r: Option<Vec<Diagnostic>>)
        requires
            ctx.content@.len() <= isize::MAX,
            forall|t: syn::File| walk.requires((&t,)),
        ensures
            !(ctx.is_rust && rust_file_parses(ctx.content@)) ==> r is None,
            (ctx.is_rust && rust_file_parses(ctx.content@)) ==> exists|sites: Vec<DivisionFn>|
                #[trigger] walked_on(walk, ctx.content@, sites) && (!(!spec_should_skip_production_rule(ctx)) ==> r is None) && ((!spec_should_skip_production_rule(ctx)) ==> report_of(
                    val002_found(sites@, spec_cfg_test_module_mask(lines_of(ctx.content@)), ctx.path@, config.spec_rule_severity("VAL002"@, Severity::Warning)),
                    r,
                )),
    {
        let sites = ctx.file_sites(walk);
        let r = self.check(ctx, config, sites);
        proof {
            if ctx.is_rust && rust_file_parses(ctx.content@) {
                assert(walked_on(walk, ctx.content@, sites->0));
            }
        }
        r
    }

    /// Reports each division of production code by a config, storage or
    /// length value that no statement in the ten lines before guards
    /// against zero. `fns` are the file's functions in the syntax tree's
    /// order (`None` when it did not parse).
    pub fn check(&self, ctx: &FileContext, config: &Config, fns: Option<Vec<DivisionFn>>) -> (r: Option<Vec<Diagnostic>>)
        requires
            ctx.content@.len() <= isize::MAX,
        ensures
            (spec_should_skip_production_rule(ctx) || fns is None) ==> r is None,
            (!spec_should_skip_production_rule(ctx) && fns is Some) ==> report_of(
                val002_found(
                    fns->0@,
                    spec_cfg_test_module_mask(lines_of(ctx.content@)),
                    ctx.path@,
                    config.spec_rule_severity("VAL002"@, Severity::Warning),
                ),
                r,
            ),
    {
        if should_skip_production_rule(ctx) {
            return None;
        }
        let fns = match fns {
            Some(f) => f,
            None => return None,
        };
        let lines = content_lines(ctx);
        let mask = cfg_test_module_mask(&lines);
        let severity = config.rule_severity(self.id(), Severity::Warning);
        let mut diagnostics: Vec<Diagnostic> = Vec::new();
        let mut i: usize = 0;
        assert(fns@.take(0) =~= Seq::<DivisionFn>::empty());
        while i < fns.len()
            invariant
                i <= fns@.len(),
                models(diagnostics@) == val002_found(fns@.take(i as int), mask@, ctx.path@, severity),
            decreases fns.len() - i,
        {
            let f = &fns[i];
            let ghost before = val002_found(fns@.take(i as int), mask@, ctx.path@, severity);
            assert(fns@.take(i + 1).drop_last() =~= fns@.take(i as int));
            assert(fns@.take(i + 1).last() == *f);
            let mut j: usize = 0;
            assert(f.divisions@.take(0) =~= Seq::<DivisionSite>::empty());
            assert(before + fn_division_found(*f, f.divisions@.take(0), mask@, ctx.path@, severity) =~= before);
            while j < f.divisions.len()
                invariant
                    j <= f.divisions@.len(),
                    models(diagnostics@) == before + fn_division_found(
                        *f,
                        f.divisions@.take(j as int),
                        mask@,
                        ctx.path@,
                        severity,
                    ),
                decreases f.divisions.len() - j,
            {
                let d = &f.divisions[j];
                let ghost done = fn_division_found(*f, f.divisions@.take(j as int), mask@, ctx.path@, severity);
                assert(f.divisions@.take(j + 1).drop_last() =~= f.divisions@.take(j as int));
                assert(f.divisions@.take(j + 1).last() == *d);
                if division_flagged_exec(f, d, &mask) {
                    let ghost old_models = models(diagnostics@);
                    diagnostics.push(
                        make_diagnostic(
                            self.id(),
                            self.name(),
                            RuleCategory::Semantic,
                            severity,
                            &ctx.path,
                            d.line,
                            Some(d.column),
                            None,
                            "Division by config/storage value without a preceding zero guard".to_owned(),
                            "If the divisor is zero, the runtime panics. Config constants should have an `integrity_test` asserting non-zero, and dynamic values (`.len()`, storage reads) should have an explicit zero check or use `checked_div`.",
                            Some(
                                "Add `ensure!(divisor != 0, ...)` before the division, use `.checked_div()`, or add an `integrity_test` for config values".to_owned(),
                            ),
                        ),
                    );
                    assert(models(diagnostics@) =~= old_models.push(val002_model(ctx.path@, severity, *d)));
                    assert(old_models.push(val002_model(ctx.path@, severity, *d)) =~= before + done.push(
                        val002_model(ctx.path@, severity, *d),
                    ));
                }
                j += 1;
            }
            assert(f.divisions@.take(f.divisions@.len() as int) =~= f.divisions@);
            i += 1;
        }
        assert(fns@.take(fns@.len() as int) =~= fns@);
        into_report(diagnostics)
    }
}

} // verus!
