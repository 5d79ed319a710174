//! The compiler-backed pipeline's side that the library holds: its options,
//! the diagnostics the rustc driver writes, and how they become public
//! diagnostics.
use vstd::prelude::*;
use crate::diagnostics::{make_diagnostic, models, Diagnostic, DiagnosticModel, RuleCategory};
use crate::text::{
    chars_of, decimal, decimal_exec, lines_of, lines_view, split_lines, string_of, trim, trim_exec, lemma_text_less_irreflexive, lemma_text_less_total, lemma_text_less_transitive,
    text_less, text_less_exec,
};
use crate::rules::{compiler_backed_rule_default_severity, spec_compiler_backed_rule_default_severity};

verus! {

/// How to run `cargo check` with the rustc lint driver.
pub struct RustcPipelineOptions {
    pub manifest_path: String,
    pub packages: Vec<String>,
    pub driver_path: String,
    pub toolchain: String,
    pub target_dir: Option<String>,
    pub rules: Vec<String>,
    pub file_filters: Vec<String>,
    pub lib: bool,
    pub no_default_features: bool,
    pub show_cargo_progress: bool,
}

/// One finding as the rustc driver writes it, one JSON object per line.
#[derive(Debug)]
pub struct RustcDiagnostic {
    pub rule_id: String,
    pub rule_name: String,
    pub file: String,
    pub line: usize,
    pub column: usize,
    pub message: String,
}

/// A driver finding with its texts taken as character sequences.
pub struct RustcFindingModel {
    pub rule_id: Seq<char>,
    pub rule_name: Seq<char>,
    pub file: Seq<char>,
    pub line: nat,
    pub column: nat,
    pub message: Seq<char>,
}

impl View for RustcDiagnostic {
    type V = RustcFindingModel;

    open spec fn view(&self) -> RustcFindingModel {
        RustcFindingModel {
            rule_id: self.rule_id@,
            rule_name: self.rule_name@,
            file: self.file@,
            line: self.line as nat,
            column: self.column as nat,
            message: self.message@,
        }
    }
}

/// The models of a sequence of driver findings.
pub open spec fn finding_views(s: Seq<RustcDiagnostic>) -> Seq<RustcFindingModel> {
    s.map_values(|d: RustcDiagnostic| d@)
}

/// The public diagnostic of a driver finding: semantic, at the rule's
/// default compiler-backed severity, with the finding's position and message.
pub open spec fn spec_from_rustc(v: RustcFindingModel) -> DiagnosticModel {
    DiagnosticModel {
        rule_id: v.rule_id,
        rule_name: v.rule_name,
        category: RuleCategory::Semantic,
        severity: spec_compiler_backed_rule_default_severity(v.rule_id),
        file: v.file,
        line: v.line,
        column: Some(v.column),
        end_line: None,
        message: v.message,
        explanation: "Compiler-backed analysis used rustc-resolved types, expanded cfg/macro context, and HIR/typeck evidence for this diagnostic."@,
        suggestion: Some("Review the resolved compiler-backed finding and bound, meter, or handle the reported runtime path explicitly."@),
    }
}

/// Two findings report the same thing: same rule, file, line, column and
/// message (the rule's name is not compared).
pub open spec fn same_finding(a: RustcFindingModel, b: RustcFindingModel) -> bool {
    &&& a.rule_id == b.rule_id
    &&& a.file == b.file
    &&& a.line == b.line
    &&& a.column == b.column
    &&& a.message == b.message
}

/// `a` is reported before `b`: ordered by file, line, column, rule id and
/// message, in that order of precedence.
#[verifier::opaque]
pub open spec fn finding_less(a: RustcFindingModel, b: RustcFindingModel) -> bool {
    ||| text_less(a.file, b.file)
    ||| (a.file == b.file && a.line < b.line)
    ||| (a.file == b.file && a.line == b.line && a.column < b.column)
    ||| (a.file == b.file && a.line == b.line && a.column == b.column && text_less(
        a.rule_id,
        b.rule_id,
    ))
    ||| (a.file == b.file && a.line == b.line && a.column == b.column && a.rule_id == b.rule_id
        && text_less(a.message, b.message))
}

/// Each finding comes strictly before every later one.
pub open spec fn findings_sorted(s: Seq<RustcFindingModel>) -> bool {
    forall|i: int, j: int| 0 <= i < j < s.len() ==> finding_less(#[trigger] s[i], #[trigger] s[j])
}

/// Entry `k` of `s` is the first that reports what it reports.
pub open spec fn is_first_finding(s: Seq<RustcFindingModel>, k: int) -> bool {
    0 <= k < s.len() && forall|j: int| 0 <= j < k ==> !same_finding(#[trigger] s[j], s[k])
}

/// `x` is the first finding of `input` that reports what it reports, at an
/// index below `n`.
pub open spec fn first_below(input: Seq<RustcFindingModel>, n: int, x: RustcFindingModel) -> bool {
    exists|k: int| k < n && is_first_finding(input, k) && input[k] == x
}

/// `out` is `input` sorted by `finding_less` with repeated findings dropped,
/// the first of each kept: it is sorted, each of its entries is a first
/// finding of `input`, and each first finding of `input` is in it.
pub open spec fn ordered_findings(input: Seq<RustcFindingModel>, out: Seq<RustcFindingModel>) -> bool {
    &&& findings_sorted(out)
    &&& forall|i: int|
        0 <= i < out.len() ==> first_below(input, input.len() as int, #[trigger] out[i])
    &&& forall|k: int| is_first_finding(input, k) ==> #[trigger] out.contains(input[k])
}

/// No finding comes before itself.
pub proof fn lemma_finding_less_irreflexive(a: RustcFindingModel)
    ensures
        !finding_less(a, a),
{
    reveal(finding_less);
    reveal(same_finding);
    lemma_text_less_irreflexive(a.file);
    lemma_text_less_irreflexive(a.rule_id);
    lemma_text_less_irreflexive(a.message);
}

/// Two findings report the same thing or one comes first.
pub proof fn lemma_finding_less_total(a: RustcFindingModel, b: RustcFindingModel)
    ensures
        same_finding(a, b) || finding_less(a, b) || finding_less(b, a),
{
    reveal(finding_less);
    reveal(same_finding);
    lemma_text_less_total(a.file, b.file);
    lemma_text_less_total(a.rule_id, b.rule_id);
    lemma_text_less_total(a.message, b.message);
}

/// The order of findings is transitive.
pub proof fn lemma_finding_less_transitive(a: RustcFindingModel, b: RustcFindingModel, c: RustcFindingModel)
    requires
        finding_less(a, b),
        finding_less(b, c),
    ensures
        finding_less(a, c),
{
    reveal(finding_less);
    if text_less(a.file, b.file) && text_less(b.file, c.file) {
        lemma_text_less_transitive(a.file, b.file, c.file);
    }
    if a.file == b.file && a.line == b.line && a.column == b.column && b.file == c.file && b.line
        == c.line && b.column == c.column {
        if text_less(a.rule_id, b.rule_id) && text_less(b.rule_id, c.rule_id) {
            lemma_text_less_transitive(a.rule_id, b.rule_id, c.rule_id);
        }
        if a.rule_id == b.rule_id && b.rule_id == c.rule_id && text_less(a.message, b.message)
            && text_less(b.message, c.message) {
            lemma_text_less_transitive(a.message, b.message, c.message);
        }
    }
}

/// Reporting the same thing is an equivalence.
pub proof fn lemma_same_finding_equivalence(a: RustcFindingModel, b: RustcFindingModel, c: RustcFindingModel)
    ensures
        same_finding(a, a),
        same_finding(a, b) ==> same_finding(b, a),
        same_finding(a, b) && same_finding(b, c) ==> same_finding(a, c),
{
    reveal(same_finding);
}

/// The models of a sequence without its first entry.
proof fn lemma_views_drop_first(s: Seq<RustcDiagnostic>)
    requires
        s.len() > 0,
    ensures
        finding_views(s.drop_first()) == finding_views(s).drop_first(),
{
    assert(finding_views(s.drop_first()) =~= finding_views(s).drop_first());
}

/// A finding that comes before another does not report the same thing.
pub proof fn lemma_finding_less_not_same(a: RustcFindingModel, b: RustcFindingModel)
    requires
        finding_less(a, b),
    ensures
        !same_finding(a, b),
{
    reveal(finding_less);
    reveal(same_finding);
    if same_finding(a, b) {
        lemma_text_less_irreflexive(a.file);
        lemma_text_less_irreflexive(a.rule_id);
        lemma_text_less_irreflexive(a.message);
    }
}

/// Two sorted sequences with the same members are equal.
pub proof fn lemma_sorted_same_members_equal(a: Seq<RustcFindingModel>, b: Seq<RustcFindingModel>)
    requires
        findings_sorted(a),
        findings_sorted(b),
        forall|x: RustcFindingModel| a.contains(x) <==> b.contains(x),
    ensures
        a == b,
    decreases a.len(),
{
    if a.len() == 0 {
        if b.len() > 0 {
            assert(b.contains(b[0]));
        }
        assert(a =~= b);
    } else {
        assert(a.contains(a[0]));
        let t = choose|t: int| 0 <= t < b.len() && b[t] == a[0];
        assert(b.contains(b[0]));
        let u = choose|u: int| 0 <= u < a.len() && a[u] == b[0];
        if t > 0 {
            assert(finding_less(b[0], b[t]));
            if u > 0 {
                assert(finding_less(a[0], a[u]));
                lemma_finding_less_transitive(a[0], b[0], a[0]);
            }
            lemma_finding_less_irreflexive(a[0]);
        }
        assert(b[0] == a[0]);
        let a1 = a.drop_first();
        let b1 = b.drop_first();
        assert forall|x: RustcFindingModel| a1.contains(x) <==> b1.contains(x) by {
            if a1.contains(x) {
                let s = choose|s: int| 0 <= s < a1.len() && a1[s] == x;
                assert(a[s + 1] == x);
                assert(finding_less(a[0], a[s + 1]));
                lemma_finding_less_irreflexive(x);
                assert(b.contains(x));
                let v = choose|v: int| 0 <= v < b.len() && b[v] == x;
                assert(v != 0);
                assert(b1[v - 1] == x);
            }
            if b1.contains(x) {
                let s = choose|s: int| 0 <= s < b1.len() && b1[s] == x;
                assert(b[s + 1] == x);
                assert(finding_less(b[0], b[s + 1]));
                lemma_finding_less_irreflexive(x);
                assert(a.contains(x));
                let v = choose|v: int| 0 <= v < a.len() && a[v] == x;
                assert(v != 0);
                assert(a1[v - 1] == x);
            }
        }
        lemma_sorted_same_members_equal(a1, b1);
        assert(a =~= seq![a[0]] + a1);
        assert(b =~= seq![b[0]] + b1);
    }
}

/// The sorted, de-duplicated order of a list of driver findings is unique:
/// two sequences that both order `input` are equal.
pub proof fn law_ordered_findings_unique(
    input: Seq<RustcFindingModel>,
    a: Seq<RustcFindingModel>,
    b: Seq<RustcFindingModel>,
)
    requires
        ordered_findings(input, a),
        ordered_findings(input, b),
    ensures
        a == b,
{
    assert forall|x: RustcFindingModel| a.contains(x) <==> b.contains(x) by {
        if a.contains(x) {
            let i = choose|i: int| 0 <= i < a.len() && a[i] == x;
            assert(first_below(input, input.len() as int, a[i]));
            let k = choose|k: int| k < input.len() && is_first_finding(input, k) && input[k] == a[i];
            assert(b.contains(input[k]));
        }
        if b.contains(x) {
            let i = choose|i: int| 0 <= i < b.len() && b[i] == x;
            assert(first_below(input, input.len() as int, b[i]));
            let k = choose|k: int| k < input.len() && is_first_finding(input, k) && input[k] == b[i];
            assert(a.contains(input[k]));
        }
    }
    lemma_sorted_same_members_equal(a, b);
}

/// No two findings in an ordered list report the same thing.
pub proof fn law_ordered_findings_distinct(input: Seq<RustcFindingModel>, out: Seq<RustcFindingModel>, i: int, j: int)
    requires
        ordered_findings(input, out),
        0 <= i < j < out.len(),
    ensures
        !same_finding(out[i], out[j]),
{
    lemma_finding_less_not_same(out[i], out[j]);
}

/// Whether `a` is reported before `b`.
fn finding_less_exec(a: &RustcDiagnostic, b: &RustcDiagnostic) -> (r: bool)
    ensures
        r == finding_less(a@, b@),
{
    reveal(finding_less);
    let af = chars_of(a.file.as_str());
    let bf = chars_of(b.file.as_str());
    if text_less_exec(&af, &bf) {
        return true;
    }
    if text_less_exec(&bf, &af) {
        proof {
            lemma_text_less_irreflexive(a.file@);
            if a.file@ == b.file@ {
            }
        }
        return false;
    }
    proof {
        lemma_text_less_total(a.file@, b.file@);
    }
    if a.line != b.line {
        return a.line < b.line;
    }
    if a.column != b.column {
        return a.column < b.column;
    }
    let ar = chars_of(a.rule_id.as_str());
    let br = chars_of(b.rule_id.as_str());
    if text_less_exec(&ar, &br) {
        return true;
    }
    if text_less_exec(&br, &ar) {
        proof {
            lemma_text_less_irreflexive(a.rule_id@);
        }
        return false;
    }
    proof {
        lemma_text_less_total(a.rule_id@, b.rule_id@);
    }
    let am = chars_of(a.message.as_str());
    let bm = chars_of(b.message.as_str());
    text_less_exec(&am, &bm)
}

/// Whether `a` and `b` report the same thing.
fn same_finding_exec(a: &RustcDiagnostic, b: &RustcDiagnostic) -> (r: bool)
    ensures
        r == same_finding(a@, b@),
{
    proof {
        lemma_finding_less_total(a@, b@);
    }
    let r = !finding_less_exec(a, b) && !finding_less_exec(b, a);
    proof {
        lemma_same_finding_equivalence(b@, a@, a@);
        if finding_less(a@, b@) {
            lemma_finding_less_not_same(a@, b@);
        }
        if finding_less(b@, a@) {
            lemma_finding_less_not_same(b@, a@);
        }
    }
    r
}

/// Some entry of `ov` reports what `x` reports.
pub open spec fn reported(ov: Seq<RustcFindingModel>, x: RustcFindingModel) -> bool {
    exists|i: int| 0 <= i < ov.len() && same_finding(ov[i], x)
}

/// `ov` orders the first `n` findings of `input`: it is sorted, holds only
/// first findings among them, reports each of them, and holds each first one.
pub open spec fn orders_prefix(input: Seq<RustcFindingModel>, n: int, ov: Seq<RustcFindingModel>) -> bool {
    &&& 0 <= n <= input.len()
    &&& findings_sorted(ov)
    &&& forall|i: int|
        0 <= i < ov.len() ==> first_below(input, n, #[trigger] ov[i])
    &&& forall|k: int| 0 <= k < n ==> #[trigger] reported(ov, input[k])
    &&& forall|k: int| 0 <= k < n && is_first_finding(input, k) ==> #[trigger] ov.contains(input[k])
}

/// A finding already reported is dropped: the order of the longer prefix is
/// unchanged.
proof fn lemma_order_skip(input: Seq<RustcFindingModel>, n: int, ov: Seq<RustcFindingModel>, j: int)
    requires
        orders_prefix(input, n, ov),
        n < input.len(),
        0 <= j < ov.len(),
        same_finding(ov[j], input[n]),
    ensures
        orders_prefix(input, n + 1, ov),
{
    assert(first_below(input, n, ov[j]));
    let k = choose|k: int| k < n && is_first_finding(input, k) && input[k] == ov[j];
    assert(!is_first_finding(input, n)) by {
        lemma_same_finding_equivalence(input[k], input[n], input[n]);
    }
    assert forall|k2: int| 0 <= k2 < n + 1 implies #[trigger] reported(ov, input[k2]) by {
        if k2 == n {
            assert(same_finding(ov[j], input[k2]));
        }
    }
}

/// A new finding is inserted where it sorts: the order of the longer prefix
/// is `ov` with it inserted at `j`.
proof fn lemma_order_insert(input: Seq<RustcFindingModel>, n: int, ov: Seq<RustcFindingModel>, j: int)
    requires
        orders_prefix(input, n, ov),
        n < input.len(),
        0 <= j <= ov.len(),
        forall|t: int| 0 <= t < j ==> finding_less(#[trigger] ov[t], input[n]),
        j < ov.len() ==> !finding_less(ov[j], input[n]) && !same_finding(ov[j], input[n]),
    ensures
        orders_prefix(input, n + 1, ov.insert(j, input[n])),
{
    let dv = input[n];
    assert forall|t: int| j <= t < ov.len() implies finding_less(dv, #[trigger] ov[t]) by {
        lemma_finding_less_total(ov[j], dv);
        if t > j {
            lemma_finding_less_transitive(dv, ov[j], ov[t]);
        }
    }
    assert forall|t: int| 0 <= t < ov.len() implies !same_finding(#[trigger] ov[t], dv) by {
        if t < j {
            lemma_finding_less_not_same(ov[t], dv);
        } else {
            lemma_finding_less_not_same(dv, ov[t]);
        }
    }
    assert(is_first_finding(input, n)) by {
        assert forall|k: int| 0 <= k < n implies !same_finding(#[trigger] input[k], input[n]) by {
            assert(reported(ov, input[k]));
            let i = choose|i: int| 0 <= i < ov.len() && same_finding(ov[i], input[k]);
            lemma_same_finding_equivalence(ov[i], input[k], input[n]);
        }
    }
    let nv = ov.insert(j, dv);
    assert forall|a: int, b: int| 0 <= a < b < nv.len() implies finding_less(
        #[trigger] nv[a],
        #[trigger] nv[b],
    ) by {
        if b < j {
        } else if a < j && b == j {
        } else if a < j && b > j {
            assert(nv[b] == ov[b - 1]);
        } else if a == j {
            assert(nv[b] == ov[b - 1]);
        } else {
            assert(nv[a] == ov[a - 1]);
            assert(nv[b] == ov[b - 1]);
        }
    }
    assert forall|i: int| 0 <= i < nv.len() implies first_below(input, n + 1, #[trigger] nv[i]) by {
        if i < j {
            assert(nv[i] == ov[i]);
            assert(first_below(input, n, ov[i]));
        } else if i == j {
            assert(nv[i] == input[n]);
        } else {
            assert(nv[i] == ov[i - 1]);
            assert(first_below(input, n, ov[i - 1]));
        }
    }
    assert forall|k: int| 0 <= k < n + 1 implies #[trigger] reported(nv, input[k]) by {
        if k == n {
            lemma_same_finding_equivalence(nv[j], nv[j], nv[j]);
            assert(same_finding(nv[j], input[k]));
        } else {
            assert(reported(ov, input[k]));
            let i = choose|i: int| 0 <= i < ov.len() && same_finding(ov[i], input[k]);
            if i < j {
                assert(nv[i] == ov[i]);
            } else {
                assert(nv[i + 1] == ov[i]);
            }
        }
    }
    assert forall|k: int| 0 <= k < n + 1 && is_first_finding(input, k) implies #[trigger] nv.contains(
        input[k],
    ) by {
        if k == n {
            assert(nv[j] == input[k]);
        } else {
            assert(ov.contains(input[k]));
            let i = choose|i: int| 0 <= i < ov.len() && ov[i] == input[k];
            if i < j {
                assert(nv[i] == ov[i]);
            } else {
                assert(nv[i + 1] == ov[i]);
            }
        }
    }
}

/// Sorts driver findings by file, line, column, rule id and message, and
/// drops repeated findings, keeping the first of each.
pub fn order_findings(found: Vec<RustcDiagnostic>) -> (out: Vec<RustcDiagnostic>)
    ensures
        ordered_findings(finding_views(found@), finding_views(out@)),
{
    let ghost input = finding_views(found@);
    let mut rest = found;
    let mut out: Vec<RustcDiagnostic> = Vec::new();
    let ghost mut n: int = 0;
    assert(input.skip(0) =~= input);
    assert(orders_prefix(input, 0, finding_views(out@)));
    while rest.len() > 0
        invariant
            input.len() == n + rest@.len(),
            finding_views(rest@) == input.skip(n),
            orders_prefix(input, n, finding_views(out@)),
        decreases rest.len(),
    {
        let ghost ov = finding_views(out@);
        let ghost old_rest = rest@;
        let d = rest.remove(0);
        proof {
            assert(rest@ =~= old_rest.drop_first());
            lemma_views_drop_first(old_rest);
            assert(input.skip(n)[0] == input[n]);
            assert(input.skip(n).drop_first() =~= input.skip(n + 1));
        }
        let mut j: usize = 0;
        while j < out.len() && finding_less_exec(&out[j], &d)
            invariant
                j <= out@.len(),
                ov == finding_views(out@),
                forall|t: int| 0 <= t < j ==> finding_less(#[trigger] ov[t], d@),
            decreases out.len() - j,
        {
            j += 1;
        }
        if j < out.len() && same_finding_exec(&out[j], &d) {
            proof {
                lemma_order_skip(input, n, ov, j as int);
            }
        } else {
            proof {
                lemma_order_insert(input, n, ov, j as int);
            }
            let ghost dv = d@;
            out.insert(j, d);
            assert(finding_views(out@) =~= ov.insert(j as int, dv));
        }
        proof {
            n = n + 1;
        }
    }
    proof {
        let ov = finding_views(out@);
        assert(n == input.len());
        assert forall|k: int| is_first_finding(input, k) implies #[trigger] ov.contains(input[k]) by {
            assert(0 <= k < n);
        }
        assert(findings_sorted(ov));
        assert(ordered_findings(input, ov));
    }
    out
}

impl Diagnostic {
    /// The public diagnostic of a rustc driver finding.
    pub fn from(value: RustcDiagnostic) -> (d: Diagnostic)
        ensures
            d@ == spec_from_rustc(value@),
    {
        let severity = compiler_backed_rule_default_severity(value.rule_id.as_str());
        make_diagnostic(
            value.rule_id.as_str(),
            value.rule_name.as_str(),
            RuleCategory::Semantic,
            severity,
            &value.file,
            value.line,
            Some(value.column),
            None,
            value.message,
            "Compiler-backed analysis used rustc-resolved types, expanded cfg/macro context, and HIR/typeck evidence for this diagnostic.",
            Some("Review the resolved compiler-backed finding and bound, meter, or handle the reported runtime path explicitly.".to_owned()),
        )
    }
}

/// The public diagnostics of the driver's findings: ordered by file, line,
/// column, rule id and message, repeated findings dropped (the first kept).
pub fn public_diagnostics(found: Vec<RustcDiagnostic>) -> (r: Vec<Diagnostic>)
    ensures
        exists|out: Seq<RustcFindingModel>|
            ordered_findings(finding_views(found@), out) && models(r@) == out.map_values(
                |f: RustcFindingModel| spec_from_rustc(f),
            ),
{
    let mut ordered = order_findings(found);
    let ghost ov = finding_views(ordered@);
    let mut r: Vec<Diagnostic> = Vec::new();
    let ghost mut n: int = 0;
    assert(ov.skip(0) =~= ov);
    while ordered.len() > 0
        invariant
            0 <= n <= ov.len(),
            ov.len() == n + ordered@.len(),
            finding_views(ordered@) == ov.skip(n),
            models(r@) == ov.take(n).map_values(|f: RustcFindingModel| spec_from_rustc(f)),
        decreases ordered.len(),
    {
        let ghost old_rest = ordered@;
        let ghost old_r = r@;
        let f = ordered.remove(0);
        proof {
            assert(ordered@ =~= old_rest.drop_first());
            lemma_views_drop_first(old_rest);
            assert(ov.skip(n)[0] == ov[n]);
            assert(ov.skip(n).drop_first() =~= ov.skip(n + 1));
        }
        let d = Diagnostic::from(f);
        r.push(d);
        proof {
            assert(r@ =~= old_r.push(d));
            assert(models(r@) =~= models(old_r).push(d@));
            assert(ov.take(n + 1) =~= ov.take(n).push(ov[n]));
            assert(models(r@) =~= ov.take(n + 1).map_values(|f: RustcFindingModel| spec_from_rustc(f)));
        }
        proof {
            n = n + 1;
        }
    }
    assert(ov.take(n) =~= ov);
    r
}

// ---------------------------------------------------------------------------
// The driver's JSONL output
// ---------------------------------------------------------------------------

/// The lines of `ls` that hold more than whitespace, in order.
pub open spec fn non_blank_lines(ls: Seq<Seq<char>>) -> Seq<Seq<char>>
    decreases ls.len(),
{
    if ls.len() == 0 {
        seq![]
    } else {
        let rest = non_blank_lines(ls.drop_last());
        if trim(ls.last()).len() > 0 {
            rest.push(ls.last())
        } else {
            rest
        }
    }
}

/// The records of the driver's JSONL output: its lines, as `str::lines`
/// splits them, that hold more than whitespace, in order. Each is one
/// diagnostic's JSON.
pub fn jsonl_records(content: &str) -> (r: Vec<String>)
    ensures
        r@.map_values(|s: String| s@) == non_blank_lines(lines_of(content@)),
{
    let lines = split_lines(&chars_of(content));
    let ghost lv = lines_view(lines@);
    assert(lv == lines@.map_values(|l: Vec<char>| l@));
    let mut r: Vec<String> = Vec::new();
    let mut i: usize = 0;
    assert(lv.take(0) =~= Seq::<Seq<char>>::empty());
    while i < lines.len()
        invariant
            i <= lines@.len(),
            lv == lines_view(lines@),
            lv == lines_of(content@),
            r@.map_values(|s: String| s@) == non_blank_lines(lv.take(i as int)),
        decreases lines.len() - i,
    {
        assert(lv.take(i + 1).drop_last() =~= lv.take(i as int));
        assert(lv.take(i + 1).last() == lines@[i as int]@);
        let t = trim_exec(&lines[i]);
        if t.len() > 0 {
            let ghost before = r@.map_values(|s: String| s@);
            let line = string_of(&lines[i]);
            r.push(line);
            assert(r@.map_values(|s: String| s@) =~= before.push(lines@[i as int]@));
        }
        i += 1;
    }
    assert(lv.take(lines.len() as int) =~= lv);
    r
}

// ---------------------------------------------------------------------------
// Why the pipeline failed
// ---------------------------------------------------------------------------

/// A failure of the compiler-backed pipeline other than an I/O error, by the
/// texts its message is made of.
pub enum PipelineFailure {
    /// A line of the driver's JSONL output did not parse: the file's path as
    /// displayed, the line, and the parser's message.
    Json { path: String, line: String, source: String },
    /// `cargo check` exited unsuccessfully: its exit code (none when a
    /// signal ended it) and its standard error.
    CargoFailed { status: Option<i32>, stderr: String },
    /// Asking the toolchain for its compiler libraries failed.
    ToolchainProbe { toolchain: String, status: Option<i32>, stderr: String },
}

/// An exit status as the messages write it: the code in decimal, or
/// `signal` when there is none.
pub open spec fn status_text(status: Option<i32>) -> Seq<char> {
    match status {
        Some(c) => if c < 0 {
            seq!['-'] + decimal((-c) as nat)
        } else {
            decimal(c as nat)
        },
        None => "signal"@,
    }
}

/// The message of a pipeline failure.
pub open spec fn failure_message(f: PipelineFailure) -> Seq<char> {
    match f {
        PipelineFailure::Json { path, line, source } => "failed to parse rustc diagnostic JSONL from "@
            + path@ + ": "@ + source@ + "; line: "@ + line@,
        PipelineFailure::CargoFailed { status, stderr } => "compiler-backed cargo check failed with status "@
            + status_text(status) + if trim(stderr@).len() > 0 {
            "\n"@ + stderr@
        } else {
            Seq::<char>::empty()
        },
        PipelineFailure::ToolchainProbe { toolchain, status, stderr } =>
            "failed to locate rustc compiler libraries for toolchain "@ + toolchain@ + " (status "@
            + status_text(status) + "): "@ + stderr@,
    }
}

fn status_string(status: Option<i32>) -> (r: String)
    ensures
        r@ == status_text(status),
{
    match status {
        Some(c) => {
            if c < 0 {
                let n: usize = (-(c as i64)) as usize;
                let digits = decimal_exec(n);
                let mut v: Vec<char> = Vec::new();
                v.push('-');
                let mut i: usize = 0;
                while i < digits.len()
                    invariant
                        i <= digits@.len(),
                        v@ == seq!['-'] + digits@.take(i as int),
                    decreases digits.len() - i,
                {
                    v.push(digits[i]);
                    assert(digits@.take(i + 1) =~= digits@.take(i as int).push(digits@[i as int]));
                    i += 1;
                }
                assert(digits@.take(digits@.len() as int) =~= digits@);
                string_of(&v)
            } else {
                string_of(&decimal_exec(c as usize))
            }
        },
        None => "signal".to_owned(),
    }
}

impl PipelineFailure {
    /// The failure's message.
    pub fn message(&self) -> (r: String)
        ensures
            r@ == failure_message(*self),
    {
        match self {
            PipelineFailure::Json { path, line, source } => {
                let r = "failed to parse rustc diagnostic JSONL from ".to_owned().concat(path.as_str()).concat(
                    ": ",
                ).concat(source.as_str()).concat("; line: ").concat(line.as_str());
                r
            },
            PipelineFailure::CargoFailed { status, stderr } => {
                let head = "compiler-backed cargo check failed with status ".to_owned().concat(
                    status_string(*status).as_str(),
                );
                if trim_exec(&chars_of(stderr.as_str())).len() > 0 {
                    head.concat("\n").concat(stderr.as_str())
                } else {
                    let r = head;
                    assert(r@ =~= failure_message(*self));
                    r
                }
            },
            PipelineFailure::ToolchainProbe { toolchain, status, stderr } => {
                "failed to locate rustc compiler libraries for toolchain ".to_owned().concat(
                    toolchain.as_str(),
                ).concat(" (status ").concat(status_string(*status).as_str()).concat("): ").concat(
                    stderr.as_str(),
                )
            },
        }
    }
}

} // verus!
