//! SEC006: the `remaining` amount that `repatriate_reserved` returns is
//! dropped or never looked at.
use vstd::prelude::*;
use crate::config::Config;
use crate::context::{rust_file_parses, walked_on, FileContext};
use crate::diagnostics::{
    into_report, make_diagnostic, models, report_of, Diagnostic, DiagnosticModel, RuleCategory,
    Severity,
};
use crate::rules::masks::{cfg_test_module_mask, spec_cfg_test_module_mask, strip_ws, strip_ws_exec};
use crate::rules::production_rules::{comment_of, comment_of_exec, sat_sub};
use crate::rules::semantic::{
    content_lines, should_skip_production_rule, spec_should_skip_production_rule, spec_strip,
    strip_strings_and_line_comments, UncheckedRepatriateReserved,
};
use crate::rules::syntax_rules::{masked_line, masked_line_exec};
use crate::rules::LintRule;
use crate::text::{
    chars_of, concat, contains, contains_exec, contains_str, lines_of, lines_view, push_str,
    starts_with, starts_with_str, to_ascii_lowercase, to_ascii_lowercase_exec, trim_start,
    trim_start_exec,
};

verus! {

/// What a `let` binds.
pub enum LetBinding {
    /// `let _ = ..`
    Wild,
    /// `let name = ..`
    Ident(String),
    /// Any other pattern.
    Other,
}

/// A `let` whose initializer calls `repatriate_reserved` directly.
pub struct RepatriateSite {
    pub line: usize,
    pub column: usize,
    pub binding: LetBinding,
}

/// Line index `j` is masked.
pub open spec fn mask_at(mask: Seq<bool>, j: int) -> bool {
    0 <= j < mask.len() && mask[j]
}

/// `a`, or `b` when it is smaller.
pub open spec fn min_int(a: int, b: int) -> int {
    if a < b {
        a
    } else {
        b
    }
}

/// A line that tests the binding: it names it and compares it with zero,
/// asserts on it, or opens an `if` or a `match`.
pub open spec fn tests_binding(l: Seq<char>, name: Seq<char>) -> bool {
    &&& contains(l, name)
    &&& {
        ||| contains(l, ".is_zero()"@)
        ||| contains(l, "== 0"@)
        ||| contains(l, "!= 0"@)
        ||| contains(l, "> 0"@)
        ||| contains(l, ">= 1"@)
        ||| contains(l, "ensure!"@)
        ||| starts_with(trim_start(l), "if "@)
        ||| starts_with(trim_start(l), "match "@)
    }
}

/// One of the twelve lines after the binding's tests it.
pub open spec fn has_remaining_check(lines: Seq<Seq<char>>, mask: Seq<bool>, line: int, name: Seq<char>) -> bool {
    exists|j: int|
        line <= j < min_int(line + 12, lines.len() as int) && !mask_at(mask, j) && tests_binding(
            #[trigger] lines[j],
            name,
        )
}

/// A line that takes the binding off a transferred amount.
pub open spec fn accounts_binding(l: Seq<char>, name: Seq<char>) -> bool {
    let c = strip_ws(spec_strip(l));
    contains(c, "saturating_sub("@ + name + ")"@) || contains(
        c,
        "defensive_saturating_sub("@ + name + ")"@,
    )
}

/// One of the twelve lines after the binding's takes it off an amount.
pub open spec fn has_remaining_accounted(lines: Seq<Seq<char>>, mask: Seq<bool>, line: int, name: Seq<char>) -> bool {
    exists|j: int|
        line <= j < min_int(line + 12, lines.len() as int) && !mask_at(mask, j) && accounts_binding(
            #[trigger] lines[j],
            name,
        )
}

/// A comment that says a failure could not be acted upon.
pub open spec fn says_not_actionable(comment: Seq<char>) -> bool {
    let c = to_ascii_lowercase(comment);
    ||| contains(c, "no reason"@) && contains(c, "should fail"@)
    ||| contains(c, "cannot do much"@) && contains(c, "fail"@)
    ||| contains(c, "can't do much"@) && contains(c, "fail"@)
}

/// One of lines `lo` to `hi` (exclusive) has a comment that says a failure
/// could not be acted upon.
pub open spec fn not_actionable_window(lines: Seq<Seq<char>>, lo: int, hi: int) -> bool {
    exists|k: int|
        lo <= k < hi && match comment_of(#[trigger] lines[k]) {
            Some(c) => says_not_actionable(c),
            None => false,
        }
}

/// A line that `debug_assert`s that the binding is `Ok`.
pub open spec fn asserts_binding_ok(l: Seq<char>, name: Seq<char>) -> bool {
    contains(l, "debug_assert"@) && contains(l, name) && (contains(l, ".is_ok()"@) || contains(
        l,
        "Ok("@,
    ))
}

/// A comment in the sixteen lines above says a failure could not be acted
/// upon, and one of the five lines after asserts the binding is `Ok`.
pub open spec fn has_documented_infallible_assert(
    lines: Seq<Seq<char>>,
    mask: Seq<bool>,
    line: int,
    name: Seq<char>,
) -> bool {
    let idx = sat_sub(line, 1);
    &&& not_actionable_window(lines, sat_sub(idx, 16), min_int(idx, lines.len() as int))
    &&& exists|j: int|
        line <= j < min_int(line + 5, lines.len() as int) && !mask_at(mask, j) && asserts_binding_ok(
            #[trigger] lines[j],
            name,
        )
}

/// The texts of a SEC006 finding: its message, explanation and suggestion.
pub struct FindingTexts {
    pub message: Seq<char>,
    pub explanation: Seq<char>,
    pub suggestion: Seq<char>,
}

/// The texts of a finding on a dropped result.
pub open spec fn dropped_texts() -> FindingTexts {
    FindingTexts {
        message: "Return value of `repatriate_reserved` is discarded — accounting risk"@,
        explanation: "`repatriate_reserved` operates in best-effort mode: it may transfer less than requested if funds are locked/frozen, and returns `Ok(remaining)`. Ignoring the remaining amount creates accounting discrepancies where deposits appear transferred but aren't."@,
        suggestion: "Check the returned `remaining` amount: `let remaining = repatriate_reserved(...)?; ensure!(remaining.is_zero(), ...)`"@,
    }
}

/// The texts of a finding on a binding never looked at.
pub open spec fn unchecked_texts(name: Seq<char>) -> FindingTexts {
    FindingTexts {
        message: "`repatriate_reserved` return value is bound to `"@ + name + "` but never checked"@,
        explanation: "`repatriate_reserved` returns `Ok(remaining)`, where `remaining > 0` means part of the transfer failed. Binding the result without checking it still risks accounting mismatches."@,
        suggestion: "Add an explicit check such as `ensure!("@ + name + ".is_zero(), ...)`"@,
    }
}

/// What SEC006 reports of a `let`, if anything: a dropped result, or a
/// binding that nothing below tests, accounts for or asserts as
/// documented.
pub open spec fn repatriate_finding(s: RepatriateSite, lines: Seq<Seq<char>>, mask: Seq<bool>) -> Option<FindingTexts> {
    if masked_line(mask, s.line as nat) {
        None
    } else {
        match s.binding {
            LetBinding::Wild => Some(dropped_texts()),
            LetBinding::Ident(name) => if !has_remaining_check(lines, mask, s.line as int, name@)
                && !has_remaining_accounted(lines, mask, s.line as int, name@)
                && !has_documented_infallible_assert(lines, mask, s.line as int, name@) {
                Some(unchecked_texts(name@))
            } else {
                None
            },
            LetBinding::Other => None,
        }
    }
}

/// The SEC006 diagnostic of a `let`.
pub open spec fn sec006_model(file: Seq<char>, sev: Severity, s: RepatriateSite, t: FindingTexts) -> DiagnosticModel {
    DiagnosticModel {
        rule_id: "SEC006"@,
        rule_name: "unchecked-repatriate-reserved"@,
        category: RuleCategory::Semantic,
        severity: sev,
        file,
        line: s.line as nat,
        column: Some(s.column as nat),
        end_line: None,
        message: t.message,
        explanation: t.explanation,
        suggestion: Some(t.suggestion),
    }
}

/// The SEC006 diagnostics of a file's `let`s, in order.
pub open spec fn sec006_found(
    sites: Seq<RepatriateSite>,
    lines: Seq<Seq<char>>,
    mask: Seq<bool>,
    file: Seq<char>,
    sev: Severity,
) -> Seq<DiagnosticModel>
    decreases sites.len(),
{
    if sites.len() == 0 {
        seq![]
    } else {
        let rest = sec006_found(sites.drop_last(), lines, mask, file, sev);
        match repatriate_finding(sites.last(), lines, mask) {
            Some(t) => rest.push(sec006_model(file, sev, sites.last(), t)),
            None => rest,
        }
    }
}

/// Whether line index `j` is masked.
fn mask_at_exec(mask: &Vec<bool>, j: usize) -> (r: bool)
    ensures
        r == mask_at(mask@, j as int),
{
    j < mask.len() && mask[j]
}

/// Whether a line tests the binding.
fn tests_binding_exec(l: &Vec<char>, name: &Vec<char>) -> (r: bool)
    ensures
        r == tests_binding(l@, name@),
{
    if !contains_exec(l, name) {
        return false;
    }
    let t = trim_start_exec(l);
    contains_str(l, ".is_zero()") || contains_str(l, "== 0") || contains_str(l, "!= 0")
        || contains_str(l, "> 0") || contains_str(l, ">= 1") || contains_str(l, "ensure!")
        || starts_with_str(&t, "if ") || starts_with_str(&t, "match ")
}

/// Whether a line takes the binding off an amount.
fn accounts_binding_exec(l: &Vec<char>, name: &Vec<char>) -> (r: bool)
    ensures
        r == accounts_binding(l@, name@),
{
    let c = strip_ws_exec(&strip_strings_and_line_comments(l));
    let plain = push_str(concat(&chars_of("saturating_sub("), name), ")");
    let defensive = push_str(concat(&chars_of("defensive_saturating_sub("), name), ")");
    contains_exec(&c, &plain) || contains_exec(&c, &defensive)
}

/// Whether a comment says a failure could not be acted upon.
fn says_not_actionable_exec(comment: &Vec<char>) -> (r: bool)
    ensures
        r == says_not_actionable(comment@),
{
    let c = to_ascii_lowercase_exec(comment);
    (contains_str(&c, "no reason") && contains_str(&c, "should fail")) || (contains_str(
        &c,
        "cannot do much",
    ) && contains_str(&c, "fail")) || (contains_str(&c, "can't do much") && contains_str(
        &c,
        "fail",
    ))
}

/// Whether a line asserts the binding is `Ok`.
fn asserts_binding_ok_exec(l: &Vec<char>, name: &Vec<char>) -> (r: bool)
    ensures
        r == asserts_binding_ok(l@, name@),
{
    contains_str(l, "debug_assert") && contains_exec(l, name) && (contains_str(l, ".is_ok()")
        || contains_str(l, "Ok("))
}

/// Whether one of the twelve lines after `line` tests the binding.
fn has_remaining_check_exec(lines: &Vec<Vec<char>>, mask: &Vec<bool>, line: usize, name: &Vec<char>) -> (r: bool)
    requires
        line <= lines@.len() <= isize::MAX,
    ensures
        r == has_remaining_check(lines_view(lines@), mask@, line as int, name@),
{
    let ghost lv = lines_view(lines@);
    let end: usize = if line + 12 < lines.len() {
        line + 12
    } else {
        lines.len()
    };
    let mut j: usize = line;
    while j < end
        invariant
            line <= j,
            end == min_int(line + 12, lv.len() as int),
            end <= lines@.len(),
            lv == lines_view(lines@),
            forall|k: int|
                line <= k < j ==> !(!mask_at(mask@, k) && tests_binding(#[trigger] lv[k], name@)),
        decreases end - j,
    {
        assert(lv[j as int] == lines@[j as int]@);
        if !mask_at_exec(mask, j) && tests_binding_exec(&lines[j], name) {
            return true;
        }
        j += 1;
    }
    false
}

/// Whether one of the twelve lines after `line` takes the binding off an
/// amount.
fn has_remaining_accounted_exec(lines: &Vec<Vec<char>>, mask: &Vec<bool>, line: usize, name: &Vec<char>) -> (r: bool)
    requires
        line <= lines@.len() <= isize::MAX,
    ensures
        r == has_remaining_accounted(lines_view(lines@), mask@, line as int, name@),
{
    let ghost lv = lines_view(lines@);
    let end: usize = if line + 12 < lines.len() {
        line + 12
    } else {
        lines.len()
    };
    let mut j: usize = line;
    while j < end
        invariant
            line <= j,
            end == min_int(line + 12, lv.len() as int),
            end <= lines@.len(),
            lv == lines_view(lines@),
            forall|k: int|
                line <= k < j ==> !(!mask_at(mask@, k) && accounts_binding(#[trigger] lv[k], name@)),
        decreases end - j,
    {
        assert(lv[j as int] == lines@[j as int]@);
        if !mask_at_exec(mask, j) && accounts_binding_exec(&lines[j], name) {
            return true;
        }
        j += 1;
    }
    false
}

/// Whether one of lines `lo` to `hi` says a failure could not be acted
/// upon.
fn not_actionable_window_exec(lines: &Vec<Vec<char>>, lo: usize, hi: usize) -> (r: bool)
    requires
        hi <= lines@.len(),
    ensures
        r == not_actionable_window(lines_view(lines@), lo as int, hi as int),
{
    let ghost lv = lines_view(lines@);
    let mut k: usize = lo;
    while k < hi
        invariant
            lo <= k,
            hi <= lines@.len(),
            lv == lines_view(lines@),
            forall|m: int|
                lo <= m < k ==> !match comment_of(#[trigger] lv[m]) {
                    Some(c) => says_not_actionable(c),
                    None => false,
                },
        decreases hi - k,
    {
        assert(lv[k as int] == lines@[k as int]@);
        match comment_of_exec(&lines[k]) {
            Some(c) => {
                if says_not_actionable_exec(&c) {
                    return true;
                }
            },
            None => {},
        }
        k += 1;
    }
    false
}

/// Whether a documented `debug_assert` of the binding follows `line`.
fn has_documented_infallible_assert_exec(
    lines: &Vec<Vec<char>>,
    mask: &Vec<bool>,
    line: usize,
    name: &Vec<char>,
) -> (r: bool)
    requires
        line <= lines@.len() <= isize::MAX,
    ensures
        r == has_documented_infallible_assert(lines_view(lines@), mask@, line as int, name@),
{
    let ghost lv = lines_view(lines@);
    let idx: usize = if line >= 1 {
        line - 1
    } else {
        0
    };
    let start: usize = if idx >= 16 {
        idx - 16
    } else {
        0
    };
    let stop: usize = if idx < lines.len() {
        idx
    } else {
        lines.len()
    };
    if !not_actionable_window_exec(lines, start, stop) {
        return false;
    }
    let end: usize = if line + 5 < lines.len() {
        line + 5
    } else {
        lines.len()
    };
    let mut j: usize = line;
    while j < end
        invariant
            line <= j,
            end == min_int(line + 5, lv.len() as int),
            end <= lines@.len(),
            lv == lines_view(lines@),
            not_actionable_window(
                lv,
                sat_sub(sat_sub(line as int, 1), 16),
                min_int(sat_sub(line as int, 1), lv.len() as int),
            ),
            forall|m: int|
                line <= m < j ==> !(!mask_at(mask@, m) && asserts_binding_ok(#[trigger] lv[m], name@)),
        decreases end - j,
    {
        assert(lv[j as int] == lines@[j as int]@);
        if !mask_at_exec(mask, j) && asserts_binding_ok_exec(&lines[j], name) {
            return true;
        }
        j += 1;
    }
    false
}

/// Every site's line is one of the `n` lines of the text.
pub open spec fn repatriate_site_lines_within(sites: Seq<RepatriateSite>, n: int) -> bool {
    forall|k: int| 0 <= k < sites.len() ==> 1 <= #[trigger] sites[k].line <= n
}

fn repatriate_site_lines_within_exec(sites: &Vec<RepatriateSite>, n: usize) -> (b: bool)
    ensures
        b == repatriate_site_lines_within(sites@, n as int),
{
    let mut k: usize = 0;
    while k < sites.len()
        invariant
            k <= sites@.len(),
            forall|j: int| 0 <= j < k ==> 1 <= #[trigger] sites@[j].line <= n,
        decreases sites.len() - k,
    {
        if sites[k].line < 1 || sites[k].line > n {
            return false;
        }
        k += 1;
    }
    true
}

impl UncheckedRepatriateReserved {
    /// Runs the rule on the file, with `walk` reading the `let`s that call `repatriate_reserved` off its
    /// syntax tree: nothing when the file is not Rust or does not parse, or
    /// when a site's line lies outside the text.
    pub fn check_file<W: Fn(&syn::File) -> Vec<RepatriateSite>>(&self, ctx: &FileContext, config: &Config, walk: W) -> (r: Option<Vec<Diagnostic>>)
        requires
            ctx.content@.len() <= isize::MAX,
            forall|t: syn::File| walk.requires((&t,)),
        ensures
            !(ctx.is_rust && rust_file_parses(ctx.content@)) ==> r is None,
            (ctx.is_rust && rust_file_parses(ctx.content@)) ==> exists|sites: Vec<RepatriateSite>|
                #[trigger] walked_on(walk, ctx.content@, sites) && (!repatriate_site_lines_within(sites@, lines_of(ctx.content@).len() as int)
                    ==> r is None) && (repatriate_site_lines_within(sites@, lines_of(ctx.content@).len() as int) ==> (!(!spec_should_skip_production_rule(ctx))
                    ==> r is None) && ((!spec_should_skip_production_rule(ctx)) ==> report_of(
                    sec006_found(sites@, lines_of(ctx.content@), spec_cfg_test_module_mask(lines_of(ctx.content@)), ctx.path@, config.spec_rule_severity("SEC006"@, Severity::Warning)),
                    r,
                ))),
    {
        let sites = ctx.file_sites(walk);
        match sites {
            None => None,
            Some(v) => {
                let ghost g = v;
                proof {
                    assert(walked_on(walk, ctx.content@, g));
                }
                let n = content_lines(ctx).len();
                if !repatriate_site_lines_within_exec(&v, n) {
                    return None;
                }
                self.check(ctx, config, Some(v))
            }
        }
    }

    /// Reports each `let` of production code that drops the result of
    /// `repatriate_reserved`, or binds it to a name that no line below
    /// tests, takes off an amount or asserts as documented. `sites` are the
    /// file's `let`s that call it directly, in the syntax tree's order
    /// (`None` when it did not parse); each stands on a line of the file.
    pub fn check(&self, ctx: &FileContext, config: &Config, sites: Option<Vec<RepatriateSite>>) -> (r: Option<Vec<Diagnostic>>)
        requires
            ctx.content@.len() <= isize::MAX,
            sites matches Some(ss) ==> forall|k: int|
                0 <= k < ss@.len() ==> 1 <= #[trigger] ss@[k].line <= lines_of(ctx.content@).len(),
        ensures
            (spec_should_skip_production_rule(ctx) || sites is None) ==> r is None,
            (!spec_should_skip_production_rule(ctx) && sites is Some) ==> report_of(
                sec006_found(
                    sites->0@,
                    lines_of(ctx.content@),
                    spec_cfg_test_module_mask(lines_of(ctx.content@)),
                    ctx.path@,
                    config.spec_rule_severity("SEC006"@, Severity::Warning),
                ),
                r,
            ),
    {
        if should_skip_production_rule(ctx) {
            return None;
        }
        let sites = match sites {
            Some(s) => s,
            None => return None,
        };
        let lines = content_lines(ctx);
        let ghost lv = lines_view(lines@);
        let mask = cfg_test_module_mask(&lines);
        let severity = config.rule_severity(self.id(), Severity::Warning);
        let mut diagnostics: Vec<Diagnostic> = Vec::new();
        let mut i: usize = 0;
        assert(sites@.take(0) =~= Seq::<RepatriateSite>::empty());
        while i < sites.len()
            invariant
                i <= sites@.len(),
                lv == lines_view(lines@),
                lv == lines_of(ctx.content@),
                lines@.len() <= isize::MAX,
                forall|k: int| 0 <= k < sites@.len() ==> 1 <= #[trigger] sites@[k].line <= lv.len(),
                models(diagnostics@) == sec006_found(sites@.take(i as int), lv, mask@, ctx.path@, severity),
            decreases sites.len() - i,
        {
            let s = &sites[i];
            assert(sites@.take(i + 1).drop_last() =~= sites@.take(i as int));
            assert(sites@.take(i + 1).last() == *s);
            assert(1 <= sites@[i as int].line <= lv.len());
            if !masked_line_exec(&mask, s.line) {
                let ghost before = models(diagnostics@);
                match &s.binding {
                    LetBinding::Wild => {
                        diagnostics.push(
                            make_diagnostic(
                                self.id(),
                                self.name(),
                                RuleCategory::Semantic,
                                severity,
                                &ctx.path,
                                s.line,
                                Some(s.column),
                                None,
                                "Return value of `repatriate_reserved` is discarded — accounting risk".to_owned(),
                                "`repatriate_reserved` operates in best-effort mode: it may transfer less than requested if funds are locked/frozen, and returns `Ok(remaining)`. Ignoring the remaining amount creates accounting discrepancies where deposits appear transferred but aren't.",
                                Some(
                                    "Check the returned `remaining` amount: `let remaining = repatriate_reserved(...)?; ensure!(remaining.is_zero(), ...)`".to_owned(),
                                ),
                            ),
                        );
                        assert(models(diagnostics@) =~= before.push(
                            sec006_model(ctx.path@, severity, *s, dropped_texts()),
                        ));
                    },
                    LetBinding::Ident(name) => {
                        let n = chars_of(name.as_str());
                        if !has_remaining_check_exec(&lines, &mask, s.line, &n)
                            && !has_remaining_accounted_exec(&lines, &mask, s.line, &n)
                            && !has_documented_infallible_assert_exec(&lines, &mask, s.line, &n) {
                            let message = "`repatriate_reserved` return value is bound to `".to_owned().concat(
                                name.as_str(),
                            ).concat("` but never checked");
                            let suggestion = "Add an explicit check such as `ensure!(".to_owned().concat(
                                name.as_str(),
                            ).concat(".is_zero(), ...)`");
                            diagnostics.push(
                                make_diagnostic(
                                    self.id(),
                                    self.name(),
                                    RuleCategory::Semantic,
                                    severity,
                                    &ctx.path,
                                    s.line,
                                    Some(s.column),
                                    None,
                                    message,
                                    "`repatriate_reserved` returns `Ok(remaining)`, where `remaining > 0` means part of the transfer failed. Binding the result without checking it still risks accounting mismatches.",
                                    Some(suggestion),
                                ),
                            );
                            assert(models(diagnostics@) =~= before.push(
                                sec006_model(ctx.path@, severity, *s, unchecked_texts(name@)),
                            ));
                        }
                    },
                    LetBinding::Other => {},
                }
            }
            i += 1;
        }
        assert(sites@.take(sites@.len() as int) =~= sites@);
        into_report(diagnostics)
    }
}

} // verus!
