//! SEC007: `let _ =` on a call that likely returns a `Result`, so an error
//! goes unseen.
use vstd::prelude::*;
use crate::config::Config;
use crate::context::{rust_file_parses, walked_on, FileContext};
use crate::diagnostics::{
    into_report, make_diagnostic, models, report_of, Diagnostic, DiagnosticModel, RuleCategory,
    Severity,
};
use crate::rules::masks::{cfg_test_module_mask, spec_cfg_test_module_mask, strip_ws, strip_ws_exec};
use crate::rules::paths::{is_runtime_or_pallet_security_path, spec_is_runtime_or_pallet_security_path};
use crate::rules::production_rules::{comment_of, comment_of_exec, sat_sub};
use crate::rules::semantic::{
    content_lines, should_skip_production_rule, spec_should_skip_production_rule,
    LetUnderscoreResult,
};
use crate::rules::syntax_rules::{masked_line, masked_line_exec};
use crate::rules::LintRule;
use crate::text::{
    chars_of, contains, contains_str, lines_of, lines_view, to_ascii_lowercase,
    to_ascii_lowercase_exec,
};

verus! {

/// A `let _ = <value>;` of the syntax tree.
pub struct WildLetSite {
    pub line: usize,
    pub column: usize,
    /// The value is an expression ending in `?`.
    pub top_level_try: bool,
    /// The value's tokens as written back.
    pub tokens: String,
}

/// The value calls something that likely returns a `Result`.
pub open spec fn has_result_hint(rhs: Seq<char>) -> bool {
    ||| contains(rhs, "::reserve("@)
    ||| contains(rhs, "::transfer("@)
    ||| contains(rhs, "::withdraw("@)
    ||| contains(rhs, "::deposit("@)
    ||| contains(rhs, "::send("@)
    ||| contains(rhs, "::execute("@)
    ||| contains(rhs, "::dispatch("@)
    ||| contains(rhs, "::mutate("@)
    ||| contains(rhs, "::try_mutate("@)
    ||| contains(rhs, "::try_push("@)
    ||| contains(rhs, "::try_append("@)
    ||| contains(rhs, ".map_err("@)
}

/// A comment that says the error is dropped on purpose.
pub open spec fn marks_intentional_discard(comment: Seq<char>) -> bool {
    let c = to_ascii_lowercase(comment);
    ||| contains(c, "ignore errors"@)
    ||| contains(c, "ignore the error"@)
    ||| contains(c, "ignored error"@)
    ||| contains(c, "intentionally ignore"@)
    ||| contains(c, "intentionally discard"@)
    ||| contains(c, "can only fail"@)
    ||| contains(c, "cannot fail"@)
    ||| contains(c, "can't fail"@)
    ||| contains(c, "shouldn't fail"@)
    ||| contains(c, "should not fail"@)
    ||| contains(c, "don't really care"@) && contains(c, "fail"@)
    ||| contains(c, "best effort"@) && (contains(c, "error"@) || contains(c, "result"@) || contains(
        c,
        "fail"@,
    ))
}

/// One of lines `lo` to `hi` (exclusive) has a comment that says the error
/// is dropped on purpose.
pub open spec fn discard_window(lines: Seq<Seq<char>>, lo: int, hi: int) -> bool {
    exists|k: int|
        lo <= k < hi && match comment_of(#[trigger] lines[k]) {
            Some(c) => marks_intentional_discard(c),
            None => false,
        }
}

/// The value maps its error into a log or a counter.
pub open spec fn map_err_has_side_effect(rhs: Seq<char>) -> bool {
    let l = to_ascii_lowercase(rhs);
    contains(l, ".map_err("@) && (contains(l, "log!("@) || contains(l, "tracing::"@) || contains(
        l,
        "failures+="@,
    ))
}

/// The value is a `try_mutate` whose `Err(())` only steers control flow.
pub open spec fn try_mutate_for_control_flow(rhs: Seq<char>) -> bool {
    contains(rhs, "::try_mutate("@) && contains(rhs, "Err(())"@) && contains(rhs, "Ok(())"@)
}

/// A `let _ =` of production code that SEC007 reports: its value, without
/// whitespace, likely returns a `Result`, and neither a comment in the
/// eight lines above nor the value's own shape says the error may go.
pub open spec fn wild_let_flagged(s: WildLetSite, lines: Seq<Seq<char>>, mask: Seq<bool>) -> bool {
    let rhs = strip_ws(s.tokens@);
    let cur = s.line - 1;
    &&& !masked_line(mask, s.line as nat)
    &&& !s.top_level_try
    &&& has_result_hint(rhs)
    &&& !discard_window(lines, sat_sub(cur, 8), cur)
    &&& !map_err_has_side_effect(rhs)
    &&& !try_mutate_for_control_flow(rhs)
}

/// The SEC007 diagnostic of a `let`.
pub open spec fn sec007_model(file: Seq<char>, sev: Severity, s: WildLetSite) -> DiagnosticModel {
    DiagnosticModel {
        rule_id: "SEC007"@,
        rule_name: "let-underscore-result"@,
        category: RuleCategory::Semantic,
        severity: sev,
        file,
        line: s.line as nat,
        column: Some(s.column as nat),
        end_line: None,
        message: "`let _ =` discards a likely Result — error silently swallowed"@,
        explanation: "Using `let _ =` on a Result-returning function silently discards the error. If `?` is accidentally omitted, the error is swallowed without any compiler warning since `let _ =` explicitly suppresses the `#[must_use]` lint."@,
        suggestion: Some(
            "Propagate the error with `?`, or handle it explicitly. If intentionally ignoring, add a comment explaining why."@,
        ),
    }
}

/// The SEC007 diagnostics of a file's `let _ =`, in order.
pub open spec fn sec007_found(
    sites: Seq<WildLetSite>,
    lines: Seq<Seq<char>>,
    mask: Seq<bool>,
    file: Seq<char>,
    sev: Severity,
) -> Seq<DiagnosticModel>
    decreases sites.len(),
{
    if sites.len() == 0 {
        seq![]
    } else {
        let rest = sec007_found(sites.drop_last(), lines, mask, file, sev);
        if wild_let_flagged(sites.last(), lines, mask) {
            rest.push(sec007_model(file, sev, sites.last()))
        } else {
            rest
        }
    }
}

/// Whether the value likely returns a `Result`.
fn has_result_hint_exec(rhs: &Vec<char>) -> (r: bool)
    ensures
        r == has_result_hint(rhs@),
{
    contains_str(rhs, "::reserve(") || contains_str(rhs, "::transfer(") || contains_str(
        rhs,
        "::withdraw(",
    ) || contains_str(rhs, "::deposit(") || contains_str(rhs, "::send(") || contains_str(
        rhs,
        "::execute(",
    ) || contains_str(rhs, "::dispatch(") || contains_str(rhs, "::mutate(") || contains_str(
        rhs,
        "::try_mutate(",
    ) || contains_str(rhs, "::try_push(") || contains_str(rhs, "::try_append(") || contains_str(
        rhs,
        ".map_err(",
    )
}

/// Whether a comment says the error is dropped on purpose.
fn marks_intentional_discard_exec(comment: &Vec<char>) -> (r: bool)
    ensures
        r == marks_intentional_discard(comment@),
{
    let c = to_ascii_lowercase_exec(comment);
    contains_str(&c, "ignore errors") || contains_str(&c, "ignore the error") || contains_str(
        &c,
        "ignored error",
    ) || contains_str(&c, "intentionally ignore") || contains_str(&c, "intentionally discard")
        || contains_str(&c, "can only fail") || contains_str(&c, "cannot fail") || contains_str(
        &c,
        "can't fail",
    ) || contains_str(&c, "shouldn't fail") || contains_str(&c, "should not fail") || (
    contains_str(&c, "don't really care") && contains_str(&c, "fail")) || (contains_str(
        &c,
        "best effort",
    ) && (contains_str(&c, "error") || contains_str(&c, "result") || contains_str(&c, "fail")))
}

/// Whether one of lines `lo` to `hi` says the error is dropped on purpose.
fn discard_window_exec(lines: &Vec<Vec<char>>, lo: usize, hi: usize) -> (r: bool)
    requires
        hi <= lines@.len(),
    ensures
        r == discard_window(lines_view(lines@), lo as int, hi as int),
{
    let ghost lv = lines_view(lines@);
    let mut k: usize = lo;
    while k < hi
        invariant
            lo <= k,
            hi <= lines@.len(),
            lv == lines_view(lines@),
            forall|j: int|
                lo <= j < k ==> !match comment_of(#[trigger] lv[j]) {
                    Some(c) => marks_intentional_discard(c),
                    None => false,
                },
        decreases hi - k,
    {
        assert(lv[k as int] == lines@[k as int]@);
        match comment_of_exec(&lines[k]) {
            Some(c) => {
                if marks_intentional_discard_exec(&c) {
                    return true;
                }
            },
            None => {},
        }
        k += 1;
    }
    false
}

/// Whether SEC007 reports a `let _ =`.
fn wild_let_flagged_exec(s: &WildLetSite, lines: &Vec<Vec<char>>, mask: &Vec<bool>) -> (r: bool)
    requires
        1 <= s.line <= lines@.len(),
    ensures
        r == wild_let_flagged(*s, lines_view(lines@), mask@),
{
    if masked_line_exec(mask, s.line) || s.top_level_try {
        return false;
    }
    let rhs = strip_ws_exec(&chars_of(s.tokens.as_str()));
    if !has_result_hint_exec(&rhs) {
        return false;
    }
    let cur: usize = s.line - 1;
    let lo: usize = if cur >= 8 {
        cur - 8
    } else {
        0
    };
    if discard_window_exec(lines, lo, cur) {
        return false;
    }
    let lower = to_ascii_lowercase_exec(&rhs);
    let side_effect = contains_str(&lower, ".map_err(") && (contains_str(&lower, "log!(")
        || contains_str(&lower, "tracing::") || contains_str(&lower, "failures+="));
    let control_flow = contains_str(&rhs, "::try_mutate(") && contains_str(&rhs, "Err(())")
        && contains_str(&rhs, "Ok(())");
    !side_effect && !control_flow
}

/// Every site's line is one of the `n` lines of the text.
pub open spec fn wild_let_site_lines_within(sites: Seq<WildLetSite>, n: int) -> bool {
    forall|k: int| 0 <= k < sites.len() ==> 1 <= #[trigger] sites[k].line <= n
}

fn wild_let_site_lines_within_exec(sites: &Vec<WildLetSite>, n: usize) -> (b: bool)
    ensures
        b == wild_let_site_lines_within(sites@, n as int),
{
    let mut k: usize = 0;
    while k < sites.len()
        invariant
            k <= sites@.len(),
            forall|j: int| 0 <= j < k ==> 1 <= #[trigger] sites@[j].line <= n,
        decreases sites.len() - k,
    {
        if sites[k].line < 1 || sites[k].line > n {
            return false;
        }
        k += 1;
    }
    true
}

impl LetUnderscoreResult {
    /// Runs the rule on the file, with `walk` reading its `let _ =` statements off its
    /// syntax tree: nothing when the file is not Rust or does not parse, or
    /// when a site's line lies outside the text.
    pub fn check_file<W: Fn(&syn::File) -> Vec<WildLetSite>>(&self, ctx: &FileContext, config: &Config, walk: W) -> (r: Option<Vec<Diagnostic>>)
        requires
            ctx.content@.len() <= isize::MAX,
            forall|t: syn::File| walk.requires((&t,)),
        ensures
            !(ctx.is_rust && rust_file_parses(ctx.content@)) ==> r is None,
            (ctx.is_rust && rust_file_parses(ctx.content@)) ==> exists|sites: Vec<WildLetSite>|
                #[trigger] walked_on(walk, ctx.content@, sites) && (!wild_let_site_lines_within(sites@, lines_of(ctx.content@).len() as int)
                    ==> r is None) && (wild_let_site_lines_within(sites@, lines_of(ctx.content@).len() as int) ==> (!(!spec_should_skip_production_rule(ctx) && spec_is_runtime_or_pallet_security_path(ctx.path@))
                    ==> r is None) && ((!spec_should_skip_production_rule(ctx) && spec_is_runtime_or_pallet_security_path(ctx.path@)) ==> report_of(
                    sec007_found(sites@, lines_of(ctx.content@), spec_cfg_test_module_mask(lines_of(ctx.content@)), ctx.path@, config.spec_rule_severity("SEC007"@, Severity::Warning)),
                    r,
                ))),
    {
        let sites = ctx.file_sites(walk);
        match sites {
            None => None,
            Some(v) => {
                let ghost g = v;
                proof {
                    assert(walked_on(walk, ctx.content@, g));
                }
                let n = content_lines(ctx).len();
                if !wild_let_site_lines_within_exec(&v, n) {
                    return None;
                }
                self.check(ctx, config, Some(v))
            }
        }
    }

    /// Reports each `let _ =` of runtime and pallet production code whose
    /// value likely returns a `Result`, unless a comment in the eight lines
    /// above says the error may go, or the value logs it or only uses it
    /// for control flow. `sites` are the file's `let _ =` with a value, in
    /// the syntax tree's order (`None` when it did not parse); each stands
    /// on a line of the file.
    pub fn check(&self, ctx: &FileContext, config: &Config, sites: Option<Vec<WildLetSite>>) -> (r: Option<Vec<Diagnostic>>)
        requires
            ctx.content@.len() <= isize::MAX,
            sites matches Some(ss) ==> forall|k: int|
                0 <= k < ss@.len() ==> 1 <= #[trigger] ss@[k].line <= lines_of(ctx.content@).len(),
        ensures
            (spec_should_skip_production_rule(ctx) || !spec_is_runtime_or_pallet_security_path(
                ctx.path@,
            ) || sites is None) ==> r is None,
            (!spec_should_skip_production_rule(ctx) && spec_is_runtime_or_pallet_security_path(
                ctx.path@,
            ) && sites is Some) ==> report_of(
                sec007_found(
                    sites->0@,
                    lines_of(ctx.content@),
                    spec_cfg_test_module_mask(lines_of(ctx.content@)),
                    ctx.path@,
                    config.spec_rule_severity("SEC007"@, Severity::Warning),
                ),
                r,
            ),
    {
        if should_skip_production_rule(ctx) {
            return None;
        }
        if !is_runtime_or_pallet_security_path(ctx.path.as_str()) {
            return None;
        }
        let sites = match sites {
            Some(s) => s,
            None => return None,
        };
        let lines = content_lines(ctx);
        let ghost lv = lines_view(lines@);
        let mask = cfg_test_module_mask(&lines);
        let severity = config.rule_severity(self.id(), Severity::Warning);
        let mut diagnostics: Vec<Diagnostic> = Vec::new();
        let mut i: usize = 0;
        assert(sites@.take(0) =~= Seq::<WildLetSite>::empty());
        while i < sites.len()
            invariant
                i <= sites@.len(),
                lv == lines_view(lines@),
                lv == lines_of(ctx.content@),
                forall|k: int| 0 <= k < sites@.len() ==> 1 <= #[trigger] sites@[k].line <= lv.len(),
                models(diagnostics@) == sec007_found(sites@.take(i as int), lv, mask@, ctx.path@, severity),
            decreases sites.len() - i,
        {
            let s = &sites[i];
            assert(sites@.take(i + 1).drop_last() =~= sites@.take(i as int));
            assert(sites@.take(i + 1).last() == *s);
            assert(1 <= sites@[i as int].line <= lv.len());
            if wild_let_flagged_exec(s, &lines, &mask) {
                let ghost before = models(diagnostics@);
                diagnostics.push(
                    make_diagnostic(
                        self.id(),
                        self.name(),
                        RuleCategory::Semantic,
                        severity,
                        &ctx.path,
                        s.line,
                        Some(s.column),
                        None,
                        "`let _ =` discards a likely Result — error silently swallowed".to_owned(),
                        "Using `let _ =` on a Result-returning function silently discards the error. If `?` is accidentally omitted, the error is swallowed without any compiler warning since `let _ =` explicitly suppresses the `#[must_use]` lint.",
                        Some(
                            "Propagate the error with `?`, or handle it explicitly. If intentionally ignoring, add a comment explaining why.".to_owned(),
                        ),
                    ),
                );
                assert(models(diagnostics@) =~= before.push(sec007_model(ctx.path@, severity, *s)));
            }
            i += 1;
        }
        assert(sites@.take(sites@.len() as int) =~= sites@);
        into_report(diagnostics)
    }
}

} // verus!
