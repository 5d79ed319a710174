//! SEC009: raw `+`, `-` and `*` in functions that return a `Result`, where a
//! wrapping overflow in a release build goes unnoticed.
use vstd::prelude::*;
use crate::config::Config;
use crate::context::{rust_file_parses, walked_on, FileContext};
use crate::diagnostics::{
    into_report, make_diagnostic, models, report_of, Diagnostic, DiagnosticModel, RuleCategory,
    Severity,
};
use crate::rules::masks::{
    cfg_test_module_mask, integrity_test_mask, merge_masks, spec_cfg_test_module_mask,
    spec_item_mask, spec_merge_masks, strip_ws, strip_ws_exec, MaskAttr,
};
use crate::rules::paths::{
    is_documented_benchmark_test_builder, is_runtime_or_pallet_security_path,
    spec_is_documented_benchmark_test_builder, spec_is_runtime_or_pallet_security_path,
};
use crate::rules::production_rules::{line_reported, line_taken};
use crate::rules::semantic::{
    content_lines, should_skip_production_rule, spec_should_skip_production_rule, spec_strip,
    strip_strings_and_line_comments, RawArithmeticInFallible,
};
use crate::rules::syntax_rules::{masked_line, masked_line_exec};
use crate::rules::LintRule;
use crate::text::{
    chars_of, contains, contains_str, ends_with, ends_with_str, equals_str, is_ascii_alnum,
    is_ascii_alnum_exec, lines_of,
};

verus! {

/// The operator of a binary expression, as far as SEC009 tells them apart.
#[derive(PartialEq, Eq, Structural, Clone, Copy, Debug)]
pub enum ArithOp {
    Add,
    Sub,
    Mul,
    Other,
}

/// Whether an arithmetic site is a binary expression or a macro call.
#[derive(PartialEq, Eq, Structural, Clone, Copy, Debug)]
pub enum ArithSiteKind {
    Binary,
    MacroCall,
}

/// A binary expression or macro call in a function body, with what the walk
/// learnt of it and of the branches around it.
pub struct ArithSite {
    pub kind: ArithSiteKind,
    pub line: usize,
    pub column: usize,
    /// Binary: its operator.
    pub op: ArithOp,
    /// Binary: the keys of its two operands (integer literals by their
    /// digits, `x.into()` by `x`, anything else by its tokens without
    /// whitespace).
    pub operands: (String, String),
    /// Binary: the left operand is `a.max(b)`: `a` and `b` without whitespace.
    pub left_max: Option<(String, String)>,
    /// Binary: the right operand is `a.min(b)`: `a` and `b` without whitespace.
    pub right_min: Option<(String, String)>,
    /// Binary: it lies inside a `from_jacobian(..)` call, whose group
    /// arithmetic is overloaded.
    pub in_group_conversion: bool,
    /// Binary: the subtractions `(a, b)` that the enclosing `if` and `match`
    /// branches show to be `a >= b` or `a > b`.
    pub safe_subtractions: Vec<(String, String)>,
    /// Macro: the last segment of its path.
    pub name: String,
    /// Macro: its tokens as written back.
    pub tokens: String,
}

/// A function of the file, in the walk's order: its return type's tokens
/// without whitespace (`None` for `()`), and the sites of its body.
pub struct FnArithSites {
    pub output: Option<String>,
    pub sites: Vec<ArithSite>,
}

/// A return type that can carry an error.
pub open spec fn is_fallible_output(output: Option<Seq<char>>) -> bool {
    match output {
        Some(t) => contains(t, "Result"@) || contains(t, "DispatchResult"@) || contains(
            t,
            "TransactionValidity"@,
        ) || contains(t, "ApplyExtrinsicResult"@),
        None => false,
    }
}

/// A character that can end the left operand of an operator.
pub open spec fn is_operand_end(c: char) -> bool {
    is_ascii_alnum(c) || c == '_' || c == ')' || c == ']'
}

/// A character that can start the right operand of an operator.
pub open spec fn is_operand_start(c: char) -> bool {
    is_ascii_alnum(c) || c == '_' || c == '('
}

/// A `+`, `-` or `*` at `i` stands between two operands.
pub open spec fn raw_operator_at(t: Seq<char>, i: int) -> bool {
    &&& 1 <= i && i + 1 < t.len()
    &&& (t[i] == '+' || t[i] == '-' || t[i] == '*')
    &&& is_operand_end(t[i - 1])
    &&& is_operand_start(t[i + 1])
    &&& !(t[i - 1] == '<' || t[i - 1] == '>' || t[i - 1] == '=' || t[i - 1] == '!')
    &&& !(t[i + 1] == '=' || t[i + 1] == '>')
}

/// Compact tokens with a raw arithmetic operator.
pub open spec fn has_raw_arithmetic(t: Seq<char>) -> bool {
    exists|i: int| #[trigger] raw_operator_at(t, i)
}

/// An `ensure!` whose condition does raw arithmetic: its tokens, without
/// string literals, comments and whitespace, hold an operator between two
/// operands and no checked, saturating, overflowing or wrapping call.
pub open spec fn ensure_does_raw_arithmetic(tokens: Seq<char>) -> bool {
    let t = strip_ws(spec_strip(tokens));
    &&& has_raw_arithmetic(t)
    &&& !contains(t, "checked_"@)
    &&& !contains(t, "saturating_"@)
    &&& !contains(t, "overflowing_"@)
    &&& !contains(t, "wrapping_"@)
}

/// `left` and `right` hold the same two operands, in either order.
pub open spec fn same_unordered(left: (Seq<char>, Seq<char>), right: (Seq<char>, Seq<char>)) -> bool {
    (left.0 == right.0 && left.1 == right.1) || (left.0 == right.1 && left.1 == right.0)
}

/// `a.max(b) - a.min(b)`, which cannot underflow.
pub open spec fn max_minus_min(s: ArithSite) -> bool {
    &&& s.op == ArithOp::Sub
    &&& match (s.left_max, s.right_min) {
        (Some((a, b)), Some((c, d))) => same_unordered((a@, b@), (c@, d@)),
        _ => false,
    }
}

/// A subtraction that an enclosing branch shows cannot underflow.
pub open spec fn guarded_subtraction(s: ArithSite) -> bool {
    &&& s.op == ArithOp::Sub
    &&& exists|k: int|
        0 <= k < s.safe_subtractions@.len() && (#[trigger] s.safe_subtractions@[k]).0@
            == s.operands.0@ && s.safe_subtractions@[k].1@ == s.operands.1@
}

/// A site that SEC009 reports.
pub open spec fn arith_flagged(s: ArithSite, mask: Seq<bool>) -> bool {
    &&& !masked_line(mask, s.line as nat)
    &&& match s.kind {
        ArithSiteKind::Binary => (s.op == ArithOp::Add || s.op == ArithOp::Sub || s.op
            == ArithOp::Mul) && !s.in_group_conversion && !max_minus_min(s)
            && !guarded_subtraction(s),
        ArithSiteKind::MacroCall => s.name@ == "ensure"@ && ensure_does_raw_arithmetic(s.tokens@),
    }
}

/// The sites of the functions that can return an error, in order.
pub open spec fn fallible_sites(fns: Seq<FnArithSites>) -> Seq<ArithSite>
    decreases fns.len(),
{
    if fns.len() == 0 {
        seq![]
    } else {
        let last = fns.last();
        if is_fallible_output(opt_chars(last.output)) {
            fallible_sites(fns.drop_last()) + last.sites@
        } else {
            fallible_sites(fns.drop_last())
        }
    }
}

/// An optional string's characters.
pub open spec fn opt_chars(o: Option<String>) -> Option<Seq<char>> {
    match o {
        Some(s) => Some(s@),
        None => None,
    }
}

/// The SEC009 diagnostic of a site.
pub open spec fn sec009_model(file: Seq<char>, sev: Severity, s: ArithSite) -> DiagnosticModel {
    DiagnosticModel {
        rule_id: "SEC009"@,
        rule_name: "raw-arithmetic-in-fallible"@,
        category: RuleCategory::Semantic,
        severity: sev,
        file,
        line: s.line as nat,
        column: Some(s.column as nat),
        end_line: None,
        message: "Raw arithmetic in fallible function — wrapping overflow risk"@,
        explanation: "In release builds, integer overflow wraps silently (e.g., 255u8 + 1 = 0). Since this function returns Result, use `checked_add`/`saturating_add` to handle overflow explicitly."@,
        suggestion: Some(
            "Replace `a + b` with `a.checked_add(b).ok_or(Error::Overflow)?` or `a.saturating_add(b)`"@,
        ),
    }
}

/// The SEC009 diagnostics of the sites, in order, at most one per line: the
/// first site that reports on a line is the one kept.
pub open spec fn sec009_found(
    sites: Seq<ArithSite>,
    mask: Seq<bool>,
    file: Seq<char>,
    sev: Severity,
) -> Seq<DiagnosticModel>
    decreases sites.len(),
{
    if sites.len() == 0 {
        seq![]
    } else {
        let rest = sec009_found(sites.drop_last(), mask, file, sev);
        let s = sites.last();
        if arith_flagged(s, mask) && !line_taken(rest, s.line as nat) {
            rest.push(sec009_model(file, sev, s))
        } else {
            rest
        }
    }
}

/// The non-production mask of SEC009: test modules and `integrity_test`
/// functions.
pub open spec fn sec009_mask(content: Seq<char>) -> Seq<bool> {
    spec_merge_masks(
        spec_cfg_test_module_mask(lines_of(content)),
        spec_item_mask(MaskAttr::IntegrityTest, lines_of(content)),
    )
}

/// The files SEC009 reads: runtime and pallet production code, but for
/// documented benchmark builders and weight files.
pub open spec fn sec009_applies(ctx: &FileContext) -> bool {
    &&& !spec_should_skip_production_rule(ctx)
    &&& spec_is_runtime_or_pallet_security_path(ctx.path@)
    &&& !spec_is_documented_benchmark_test_builder(ctx.path@, ctx.content@)
    &&& !(ends_with(ctx.rel_path@, "weights.rs"@) || contains(ctx.rel_path@, "/weights/"@))
}

/// Any two SEC009 findings stand on different lines.
pub proof fn law_sec009_one_finding_per_line(
    sites: Seq<ArithSite>,
    mask: Seq<bool>,
    file: Seq<char>,
    sev: Severity,
)
    ensures
        forall|i: int, j: int|
            0 <= i < j < sec009_found(sites, mask, file, sev).len() ==> #[trigger] sec009_found(
                sites,
                mask,
                file,
                sev,
            )[i].line != #[trigger] sec009_found(sites, mask, file, sev)[j].line,
    decreases sites.len(),
{
    if sites.len() > 0 {
        law_sec009_one_finding_per_line(sites.drop_last(), mask, file, sev);
        let rest = sec009_found(sites.drop_last(), mask, file, sev);
        let found = sec009_found(sites, mask, file, sev);
        assert forall|i: int, j: int| 0 <= i < j < found.len() implies found[i].line
            != found[j].line by {
            assert(found[i] == rest[i]);
            if j == found.len() - 1 && found.len() == rest.len() + 1 {
                if found[i].line == found[j].line {
                    assert(line_taken(rest, found[j].line));
                }
            } else {
                assert(found[j] == rest[j]);
            }
        }
    }
}

/// A site on a line that no earlier reported site took is reported exactly
/// when it is flagged: every flagged site's line carries a finding.
pub proof fn law_sec009_every_flagged_line_is_reported(
    sites: Seq<ArithSite>,
    mask: Seq<bool>,
    file: Seq<char>,
    sev: Severity,
    k: int,
)
    requires
        0 <= k < sites.len(),
        arith_flagged(sites[k], mask),
    ensures
        line_taken(sec009_found(sites, mask, file, sev), sites[k].line as nat),
    decreases sites.len(),
{
    let rest = sec009_found(sites.drop_last(), mask, file, sev);
    let found = sec009_found(sites, mask, file, sev);
    if k < sites.len() - 1 {
        assert(sites.drop_last()[k] == sites[k]);
        law_sec009_every_flagged_line_is_reported(sites.drop_last(), mask, file, sev, k);
        let w = choose|w: int| 0 <= w < rest.len() && #[trigger] rest[w].line == sites[k].line as nat;
        assert(found[w] == rest[w]);
    } else {
        assert(sites.last() == sites[k]);
        if !line_taken(rest, sites[k].line as nat) {
            assert(found[rest.len() as int].line == sites[k].line as nat);
        } else {
            let w = choose|w: int| 0 <= w < rest.len() && #[trigger] rest[w].line == sites[k].line as nat;
            assert(found[w] == rest[w]);
        }
    }
}

/// `d` is the finding of one of the sites that SEC009 flags.
pub open spec fn found_at_arith_site(
    d: DiagnosticModel,
    sites: Seq<ArithSite>,
    mask: Seq<bool>,
    file: Seq<char>,
    sev: Severity,
) -> bool {
    exists|k: int|
        0 <= k < sites.len() && arith_flagged(#[trigger] sites[k], mask) && d == sec009_model(
            file,
            sev,
            sites[k],
        )
}

/// No SEC009 finding stands on a line of test or other non-production
/// code: each is that of a flagged site.
pub proof fn law_sec009_no_finding_on_masked_line(
    sites: Seq<ArithSite>,
    mask: Seq<bool>,
    file: Seq<char>,
    sev: Severity,
)
    ensures
        forall|i: int|
            0 <= i < sec009_found(sites, mask, file, sev).len() ==> found_at_arith_site(
                #[trigger] sec009_found(sites, mask, file, sev)[i],
                sites,
                mask,
                file,
                sev,
            ),
        forall|i: int|
            0 <= i < sec009_found(sites, mask, file, sev).len() ==> !masked_line(
                mask,
                #[trigger] sec009_found(sites, mask, file, sev)[i].line,
            ),
    decreases sites.len(),
{
    if sites.len() > 0 {
        let init = sites.drop_last();
        law_sec009_no_finding_on_masked_line(init, mask, file, sev);
        let rest = sec009_found(init, mask, file, sev);
        let found = sec009_found(sites, mask, file, sev);
        assert forall|i: int| 0 <= i < found.len() implies found_at_arith_site(
            found[i],
            sites,
            mask,
            file,
            sev,
        ) by {
            if i < rest.len() {
                assert(found[i] == rest[i]);
                assert(found_at_arith_site(rest[i], init, mask, file, sev));
                let k = choose|k: int|
                    0 <= k < init.len() && arith_flagged(#[trigger] init[k], mask) && rest[i]
                        == sec009_model(file, sev, init[k]);
                assert(init[k] == sites[k]);
            } else {
                assert(sites.last() == sites[sites.len() - 1]);
            }
        }
        assert forall|i: int| 0 <= i < found.len() implies !masked_line(mask, #[trigger] found[i].line) by {
            assert(found_at_arith_site(found[i], sites, mask, file, sev));
            let k = choose|k: int|
                0 <= k < sites.len() && arith_flagged(#[trigger] sites[k], mask) && found[i]
                    == sec009_model(file, sev, sites[k]);
            assert(found[i].line == sites[k].line as nat);
        }
    }
}

/// Whether compact tokens hold a raw arithmetic operator.
fn has_raw_arithmetic_exec(t: &Vec<char>) -> (r: bool)
    ensures
        r == has_raw_arithmetic(t@),
{
    let n = t.len();
    if n < 3 {
        assert forall|i: int| !raw_operator_at(t@, i) by {}
        return false;
    }
    let mut i: usize = 1;
    while i + 1 < n
        invariant
            n == t@.len(),
            1 <= i <= n - 1,
            forall|j: int| 0 <= j < i ==> !raw_operator_at(t@, j),
        decreases n - i,
    {
        let c = t[i];
        let prev = t[i - 1];
        let next = t[i + 1];
        let operand_end = is_ascii_alnum_exec(prev) || prev == '_' || prev == ')' || prev == ']';
        let operand_start = is_ascii_alnum_exec(next) || next == '_' || next == '(';
        if (c == '+' || c == '-' || c == '*') && operand_end && operand_start && !(prev == '<'
            || prev == '>' || prev == '=' || prev == '!') && !(next == '=' || next == '>') {
            assert(raw_operator_at(t@, i as int));
            return true;
        }
        i += 1;
    }
    assert forall|j: int| !raw_operator_at(t@, j) by {
        if 0 <= j < i {
        }
    }
    false
}

/// Whether an `ensure!`'s tokens do raw arithmetic.
fn ensure_does_raw_arithmetic_exec(tokens: &String) -> (r: bool)
    ensures
        r == ensure_does_raw_arithmetic(tokens@),
{
    let t = strip_ws_exec(&strip_strings_and_line_comments(&chars_of(tokens.as_str())));
    has_raw_arithmetic_exec(&t) && !contains_str(&t, "checked_") && !contains_str(&t, "saturating_")
        && !contains_str(&t, "overflowing_") && !contains_str(&t, "wrapping_")
}

/// Whether two strings hold the same characters.
fn same_text(a: &String, b: &String) -> (r: bool)
    ensures
        r == (a@ == b@),
{
    equals_str(&chars_of(a.as_str()), b.as_str())
}

/// Whether a site is reported.
fn arith_flagged_exec(s: &ArithSite, mask: &Vec<bool>) -> (r: bool)
    ensures
        r == arith_flagged(*s, mask@),
{
    if masked_line_exec(mask, s.line) {
        return false;
    }
    match s.kind {
        ArithSiteKind::Binary => {
            if !(s.op == ArithOp::Add || s.op == ArithOp::Sub || s.op == ArithOp::Mul)
                || s.in_group_conversion {
                return false;
            }
            if s.op != ArithOp::Sub {
                return true;
            }
            match (&s.left_max, &s.right_min) {
                (Some(mx), Some(mn)) => {
                    if (same_text(&mx.0, &mn.0) && same_text(&mx.1, &mn.1)) || (same_text(
                        &mx.0,
                        &mn.1,
                    ) && same_text(&mx.1, &mn.0)) {
                        return false;
                    }
                },
                _ => {},
            }
            let mut k: usize = 0;
            while k < s.safe_subtractions.len()
                invariant
                    k <= s.safe_subtractions@.len(),
                    !masked_line(mask@, s.line as nat),
                    s.kind == ArithSiteKind::Binary,
                    s.op == ArithOp::Sub,
                    !s.in_group_conversion,
                    !max_minus_min(*s),
                    forall|j: int|
                        0 <= j < k ==> !((#[trigger] s.safe_subtractions@[j]).0@ == s.operands.0@
                            && s.safe_subtractions@[j].1@ == s.operands.1@),
                decreases s.safe_subtractions.len() - k,
            {
                let pair = &s.safe_subtractions[k];
                if same_text(&pair.0, &s.operands.0) && same_text(&pair.1, &s.operands.1) {
                    assert(s.safe_subtractions@[k as int] == *pair);
                    assert(guarded_subtraction(*s));
                    return false;
                }
                k += 1;
            }
            true
        },
        ArithSiteKind::MacroCall => {
            equals_str(&chars_of(s.name.as_str()), "ensure") && ensure_does_raw_arithmetic_exec(
                &s.tokens,
            )
        },
    }
}

/// Whether a return type can carry an error.
fn is_fallible_output_exec(output: &Option<String>) -> (r: bool)
    ensures
        r == is_fallible_output(opt_chars(*output)),
{
    match output {
        Some(o) => {
            let t = chars_of(o.as_str());
            contains_str(&t, "Result") || contains_str(&t, "DispatchResult") || contains_str(
                &t,
                "TransactionValidity",
            ) || contains_str(&t, "ApplyExtrinsicResult")
        },
        None => false,
    }
}

impl RawArithmeticInFallible {
    /// Runs the rule on the file, with `walk` reading each function's arithmetic off its
    /// syntax tree: nothing when the file is not Rust or does not parse.
    pub fn check_file<W: Fn(&syn::File) -> Vec<FnArithSites>>(&self, ctx: &FileContext, config: &Config, walk: W) -> (r: Option<Vec<Diagnostic>>)
        requires
            ctx.content@.len() <= isize::MAX,
            forall|t: syn::File| walk.requires((&t,)),
        ensures
            !(ctx.is_rust && rust_file_parses(ctx.content@)) ==> r is None,
            (ctx.is_rust && rust_file_parses(ctx.content@)) ==> exists|sites: Vec<FnArithSites>|
                #[trigger] walked_on(walk, ctx.content@, sites) && (!(sec009_applies(ctx)) ==> r is None) && ((sec009_applies(ctx)) ==> report_of(
                    sec009_found(fallible_sites(sites@), sec009_mask(ctx.content@), ctx.path@, config.spec_rule_severity("SEC009"@, Severity::Advisory)),
                    r,
                )),
    {
        let sites = ctx.file_sites(walk);
        let r = self.check(ctx, config, sites);
        proof {
            if ctx.is_rust && rust_file_parses(ctx.content@) {
                assert(walked_on(walk, ctx.content@, sites->0));
            }
        }
        r
    }

    /// Reports raw `+`, `-` and `*`, and `ensure!` conditions that do raw
    /// arithmetic, in the functions of runtime and pallet production code
    /// that return a `Result`, at most once per line. `fns` are the file's
    /// functions in the syntax tree's order (`None` when it did not parse).
    pub fn check(&self, ctx: &FileContext, config: &Config, fns: Option<Vec<FnArithSites>>) -> (r: Option<Vec<Diagnostic>>)
        requires
            ctx.content@.len() <= isize::MAX,
        ensures
            (!sec009_applies(ctx) || fns is None) ==> r is None,
            (sec009_applies(ctx) && fns is Some) ==> report_of(
                sec009_found(
                    fallible_sites(fns->0@),
                    sec009_mask(ctx.content@),
                    ctx.path@,
                    config.spec_rule_severity("SEC009"@, Severity::Advisory),
                ),
                r,
            ),
    {
        if should_skip_production_rule(ctx) {
            return None;
        }
        if !is_runtime_or_pallet_security_path(ctx.path.as_str()) {
            return None;
        }
        if is_documented_benchmark_test_builder(ctx.path.as_str(), ctx.content.as_str()) {
            return None;
        }
        let rel = chars_of(ctx.rel_path.as_str());
        if ends_with_str(&rel, "weights.rs") || contains_str(&rel, "/weights/") {
            return None;
        }
        let fns = match fns {
            Some(f) => f,
            None => return None,
        };
        let lines = content_lines(ctx);
        let mask = merge_masks(&cfg_test_module_mask(&lines), &integrity_test_mask(&lines));
        let severity = config.rule_severity(self.id(), Severity::Advisory);
        let mut diagnostics: Vec<Diagnostic> = Vec::new();
        let mut i: usize = 0;
        assert(fns@.take(0) =~= Seq::<FnArithSites>::empty());
        while i < fns.len()
            invariant
                i <= fns@.len(),
                models(diagnostics@) == sec009_found(
                    fallible_sites(fns@.take(i as int)),
                    mask@,
                    ctx.path@,
                    severity,
                ),
            decreases fns.len() - i,
        {
            let f = &fns[i];
            assert(fns@.take(i + 1).drop_last() =~= fns@.take(i as int));
            assert(fns@.take(i + 1).last() == *f);
            if is_fallible_output_exec(&f.output) {
                let ghost before = fallible_sites(fns@.take(i as int));
                let mut j: usize = 0;
                assert(before + f.sites@.take(0) =~= before);
                while j < f.sites.len()
                    invariant
                        j <= f.sites@.len(),
                        models(diagnostics@) == sec009_found(
                            before + f.sites@.take(j as int),
                            mask@,
                            ctx.path@,
                            severity,
                        ),
                    decreases f.sites.len() - j,
                {
                    let s = &f.sites[j];
                    let ghost prefix = before + f.sites@.take(j as int);
                    assert((before + f.sites@.take(j + 1)).drop_last() =~= prefix);
                    assert((before + f.sites@.take(j + 1)).last() == *s);
                    if arith_flagged_exec(s, &mask) && !line_reported(&diagnostics, s.line) {
                        let ghost old_models = models(diagnostics@);
                        diagnostics.push(
                            make_diagnostic(
                                self.id(),
                                self.name(),
                                RuleCategory::Semantic,
                                severity,
                                &ctx.path,
                                s.line,
                                Some(s.column),
                                None,
                                "Raw arithmetic in fallible function — wrapping overflow risk".to_owned(),
                                "In release builds, integer overflow wraps silently (e.g., 255u8 + 1 = 0). Since this function returns Result, use `checked_add`/`saturating_add` to handle overflow explicitly.",
                                Some(
                                    "Replace `a + b` with `a.checked_add(b).ok_or(Error::Overflow)?` or `a.saturating_add(b)`".to_owned(),
                                ),
                            ),
                        );
                        assert(models(diagnostics@) =~= old_models.push(
                            sec009_model(ctx.path@, severity, *s),
                        ));
                    }
                    j += 1;
                }
                assert(f.sites@.take(f.sites@.len() as int) =~= f.sites@);
            }
            i += 1;
        }
        assert(fns@.take(fns@.len() as int) =~= fns@);
        into_report(diagnostics)
    }
}

} // verus!
