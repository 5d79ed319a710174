//! Test smells: assertions, imports and events that tests and extrinsics
//! should have or avoid.
use vstd::prelude::*;
use crate::config::Config;
use crate::context::FileContext;
use crate::diagnostics::{
    into_report, make_diagnostic, models, opt_nat, report_of, Diagnostic, DiagnosticModel,
    RuleCategory, Severity,
};
use crate::patterns::{regex_is_match, regex_match};
use crate::rules::paths::{path_parent, std_path_parent};
use crate::rules::semantic::content_lines;
use crate::rules::LintRule;
use crate::text::{
    chars_of, contains, contains_str, ends_with, ends_with_str, equals_str, find_byte,
    find_byte_exec, lines_of, lines_view, utf8_fits,
};

verus! {

/// Lint rule `TST001` (`prefer-assert-noop`).
pub struct AssertNoop;

impl LintRule for AssertNoop {
    open spec fn spec_id(&self) -> Seq<char> {
        "TST001"@
    }

    open spec fn spec_name(&self) -> Seq<char> {
        "prefer-assert-noop"@
    }

    open spec fn spec_family(&self) -> Seq<char> {
        "test-smell"@
    }

    fn id(&self) -> (r: &str) {
        "TST001"
    }

    fn name(&self) -> (r: &str) {
        "prefer-assert-noop"
    }

    fn family(&self) -> (r: &str) {
        "test-smell"
    }
}

/// Lint rule `TST002` (`apply-extrinsic-assert-ok`).
pub struct ApplyExtrinsicAssertOk;

impl LintRule for ApplyExtrinsicAssertOk {
    open spec fn spec_id(&self) -> Seq<char> {
        "TST002"@
    }

    open spec fn spec_name(&self) -> Seq<char> {
        "apply-extrinsic-assert-ok"@
    }

    open spec fn spec_family(&self) -> Seq<char> {
        "test-smell"@
    }

    fn id(&self) -> (r: &str) {
        "TST002"
    }

    fn name(&self) -> (r: &str) {
        "apply-extrinsic-assert-ok"
    }

    fn family(&self) -> (r: &str) {
        "test-smell"
    }
}

/// Lint rule `TST003` (`imports-inside-closures`).
pub struct ImportsInsideClosures;

impl LintRule for ImportsInsideClosures {
    open spec fn spec_id(&self) -> Seq<char> {
        "TST003"@
    }

    open spec fn spec_name(&self) -> Seq<char> {
        "imports-inside-closures"@
    }

    open spec fn spec_family(&self) -> Seq<char> {
        "test-smell"@
    }

    fn id(&self) -> (r: &str) {
        "TST003"
    }

    fn name(&self) -> (r: &str) {
        "imports-inside-closures"
    }

    fn family(&self) -> (r: &str) {
        "test-smell"
    }
}

/// Lint rule `TST004` (`pays-yes-error-path`).
pub struct PaysYesErrorPath;

impl LintRule for PaysYesErrorPath {
    open spec fn spec_id(&self) -> Seq<char> {
        "TST004"@
    }

    open spec fn spec_name(&self) -> Seq<char> {
        "pays-yes-error-path"@
    }

    open spec fn spec_family(&self) -> Seq<char> {
        "test-smell"@
    }

    fn id(&self) -> (r: &str) {
        "TST004"
    }

    fn name(&self) -> (r: &str) {
        "pays-yes-error-path"
    }

    fn family(&self) -> (r: &str) {
        "test-smell"
    }
}

/// Lint rule `TST005` (`implementation-detail-assertions`).
pub struct ImplementationDetailAssertions;

impl LintRule for ImplementationDetailAssertions {
    open spec fn spec_id(&self) -> Seq<char> {
        "TST005"@
    }

    open spec fn spec_name(&self) -> Seq<char> {
        "implementation-detail-assertions"@
    }

    open spec fn spec_family(&self) -> Seq<char> {
        "test-smell"@
    }

    fn id(&self) -> (r: &str) {
        "TST005"
    }

    fn name(&self) -> (r: &str) {
        "implementation-detail-assertions"
    }

    fn family(&self) -> (r: &str) {
        "test-smell"
    }
}

/// Lint rule `TST006` (`extrinsic-without-event`).
pub struct ExtrinsicWithoutEvent;

impl LintRule for ExtrinsicWithoutEvent {
    open spec fn spec_id(&self) -> Seq<char> {
        "TST006"@
    }

    open spec fn spec_name(&self) -> Seq<char> {
        "extrinsic-without-event"@
    }

    open spec fn spec_family(&self) -> Seq<char> {
        "test-smell"@
    }

    fn id(&self) -> (r: &str) {
        "TST006"
    }

    fn name(&self) -> (r: &str) {
        "extrinsic-without-event"
    }

    fn family(&self) -> (r: &str) {
        "test-smell"
    }
}

// ---------------------------------------------------------------------------
// What the syntax tree shows
// ---------------------------------------------------------------------------

/// A statement macro of the syntax tree: the last segment of its path, its
/// 1-based line and column, and its tokens with whitespace removed.
pub struct MacroSite {
    pub name: String,
    pub line: usize,
    pub column: usize,
    pub tokens: String,
}

/// What the body of one function holds, in the syntax tree's order: its
/// statement macros and the lines of its `.unwrap_err()` calls.
pub struct FnBodySites {
    pub macros: Vec<MacroSite>,
    pub unwrap_err_lines: Vec<usize>,
}

// ---------------------------------------------------------------------------
// TST001: prefer `assert_noop!`
// ---------------------------------------------------------------------------

/// A TST001 finding's place: line and column.
pub type FindingKey = (nat, Option<nat>);

/// The column as the report sorts it: none first.
pub open spec fn column_rank(c: Option<nat>) -> nat {
    match c {
        Some(n) => n,
        None => 0,
    }
}

/// `a` comes before `b`: by line, then column.
pub open spec fn key_less(a: FindingKey, b: FindingKey) -> bool {
    a.0 < b.0 || (a.0 == b.0 && column_rank(a.1) < column_rank(b.1))
}

/// Each entry comes strictly before every later one.
pub open spec fn keys_sorted(s: Seq<FindingKey>) -> bool {
    forall|i: int, j: int| 0 <= i < j < s.len() ==> key_less(#[trigger] s[i], #[trigger] s[j])
}

/// No key has column 0 (columns are 1-based).
pub open spec fn columns_positive(s: Seq<FindingKey>) -> bool {
    forall|i: int| 0 <= i < s.len() ==> #[trigger] s[i].1 != Some(0nat)
}

/// An `assert!` whose tokens call `.is_err()`.
pub open spec fn is_err_assert(m: MacroSite) -> bool {
    m.name@ == "assert"@ && contains(m.tokens@, ".is_err()"@)
}

/// Some `.unwrap_err()` is on the line `a` or in the four after it.
pub open spec fn unwrap_err_near(lines: Seq<usize>, a: nat) -> bool {
    exists|k: int| 0 <= k < lines.len() && a <= #[trigger] lines[k] <= a + 4
}

/// The TST001 places of one function's `is_err` assertions, from its macro
/// index `i` on.
pub open spec fn fn_assert_keys(f: FnBodySites, i: int) -> Seq<FindingKey>
    decreases f.macros@.len() - i,
{
    if i < 0 || i >= f.macros@.len() {
        seq![]
    } else {
        let m = f.macros@[i];
        let rest = fn_assert_keys(f, i + 1);
        if is_err_assert(m) && unwrap_err_near(f.unwrap_err_lines@, m.line as nat) {
            seq![(m.line as nat, None::<nat>)] + rest
        } else {
            rest
        }
    }
}

/// The TST001 places found in the syntax tree's functions.
pub open spec fn ast_assert_keys(fns: Seq<FnBodySites>) -> Seq<FindingKey>
    decreases fns.len(),
{
    if fns.len() == 0 {
        seq![]
    } else {
        ast_assert_keys(fns.drop_last()) + fn_assert_keys(fns.last(), 0)
    }
}

/// One of the four lines after index `idx` calls `.unwrap_err()`.
pub open spec fn unwrap_err_follows(lines: Seq<Seq<char>>, idx: int) -> bool {
    exists|k: int| idx < k <= idx + 4 && k < lines.len() && contains(#[trigger] lines[k], ".unwrap_err()"@)
}

/// The TST001 places found in the text from line index `i` on: a line
/// calling `.is_err()` followed within four lines by `.unwrap_err()`, at the
/// 1-based byte column of its first `.is_err()`.
pub open spec fn text_assert_keys(lines: Seq<Seq<char>>, i: int) -> Seq<FindingKey>
    decreases lines.len() - i,
{
    if i < 0 || i >= lines.len() {
        seq![]
    } else {
        let rest = text_assert_keys(lines, i + 1);
        if contains(lines[i], ".is_err()"@) && unwrap_err_follows(lines, i) {
            seq![((i + 1) as nat, Some(find_byte(lines[i], ".is_err()"@)->0 + 1))] + rest
        } else {
            rest
        }
    }
}

/// The TST001 diagnostic at a place.
pub open spec fn tst001_model(file: Seq<char>, sev: Severity, k: FindingKey) -> DiagnosticModel {
    DiagnosticModel {
        rule_id: "TST001"@,
        rule_name: "prefer-assert-noop"@,
        category: RuleCategory::TestSmell,
        severity: sev,
        file,
        line: k.0,
        column: k.1,
        end_line: None,
        message: "Manual `is_err()` + `unwrap_err()` pattern; prefer `assert_noop!`"@,
        explanation: "Project convention: use `assert_noop!` for dispatch error assertions. It checks both the error and that storage was not modified."@,
        suggestion: Some("Replace with `assert_noop!(call, Error::<T>::YourError)`"@),
    }
}

/// The places of `keys` sorted by line and column, each once.
pub open spec fn orders_keys(keys: Seq<FindingKey>, out: Seq<FindingKey>) -> bool {
    keys_sorted(out) && forall|k: FindingKey| out.contains(k) <==> keys.contains(k)
}

/// Adds `k` to a sorted list of places unless it is there.
fn insert_key(v: &mut Vec<(usize, Option<usize>)>, k: (usize, Option<usize>))
    requires
        keys_sorted(key_views(old(v)@)),
        columns_positive(key_views(old(v)@)),
        key_view(k).1 != Some(0nat),
    ensures
        keys_sorted(key_views(final(v)@)),
        columns_positive(key_views(final(v)@)),
        forall|x: FindingKey| key_views(final(v)@).contains(x) <==> (key_views(old(v)@).contains(x)
            || x == key_view(k)),
{
    let ghost kv = key_view(k);
    let ghost ov = key_views(v@);
    let mut p: usize = 0;
    while p < v.len() && key_less_exec(&v[p], &k)
        invariant
            p <= v@.len(),
            ov == key_views(v@),
            kv == key_view(k),
            forall|t: int| 0 <= t < p ==> key_less(#[trigger] ov[t], kv),
        decreases v.len() - p,
    {
        assert(ov[p as int] == key_view(v@[p as int]));
        p += 1;
    }
    if p < v.len() && v[p].0 == k.0 && v[p].1 == k.1 {
        assert(ov[p as int] == kv);
        return;
    }
    proof {
        if p < ov.len() {
            assert(ov[p as int] == key_view(v@[p as int]));
            assert(!key_less(ov[p as int], kv));
            assert(ov[p as int] != kv);
            assert(ov[p as int].1 != Some(0nat));
            assert(key_less(kv, ov[p as int]));
        }
        assert forall|t: int| p <= t < ov.len() implies key_less(kv, #[trigger] ov[t]) by {
            if t > p {
                assert(key_less(ov[p as int], ov[t]));
            }
        }
    }
    v.insert(p, k);
    proof {
        let nv = key_views(v@);
        assert(nv =~= ov.insert(p as int, kv));
        assert forall|a: int, b: int| 0 <= a < b < nv.len() implies key_less(#[trigger] nv[a], #[trigger] nv[b]) by {
            if b < p {
            } else if a < p && b == p {
            } else if a < p && b > p {
                assert(nv[b] == ov[b - 1]);
            } else if a == p {
                assert(nv[b] == ov[b - 1]);
            } else {
                assert(nv[a] == ov[a - 1]);
                assert(nv[b] == ov[b - 1]);
            }
        }
        assert forall|i: int| 0 <= i < nv.len() implies #[trigger] nv[i].1 != Some(0nat) by {
            if i < p {
                assert(nv[i] == ov[i]);
            } else if i > p {
                assert(nv[i] == ov[i - 1]);
            }
        }
        assert forall|x: FindingKey| nv.contains(x) <==> (ov.contains(x) || x == kv) by {
            if nv.contains(x) {
                let i = choose|i: int| 0 <= i < nv.len() && nv[i] == x;
                if i < p {
                    assert(ov[i] == x);
                } else if i > p {
                    assert(ov[i - 1] == x);
                }
            }
            if ov.contains(x) {
                let i = choose|i: int| 0 <= i < ov.len() && ov[i] == x;
                if i < p {
                    assert(nv[i] == x);
                } else {
                    assert(nv[i + 1] == x);
                }
            }
            if x == kv {
                assert(nv[p as int] == x);
            }
        }
    }
}

/// A place as plain numbers.
pub open spec fn key_view(k: (usize, Option<usize>)) -> FindingKey {
    (k.0 as nat, opt_nat(k.1))
}

/// Places as plain numbers.
pub open spec fn key_views(v: Seq<(usize, Option<usize>)>) -> Seq<FindingKey> {
    v.map_values(|k: (usize, Option<usize>)| key_view(k))
}

/// Whether place `a` comes before place `b`.
fn key_less_exec(a: &(usize, Option<usize>), b: &(usize, Option<usize>)) -> (r: bool)
    ensures
        r == key_less(key_view(*a), key_view(*b)),
{
    a.0 < b.0 || (a.0 == b.0 && rank(a.1) < rank(b.1))
}

/// The column as the report sorts it.
fn rank(c: Option<usize>) -> (r: usize)
    ensures
        r as nat == column_rank(opt_nat(c)),
{
    match c {
        Some(n) => n,
        None => 0,
    }
}

/// Two sorted lists with the same places are equal.
pub proof fn lemma_sorted_keys_unique(a: Seq<FindingKey>, b: Seq<FindingKey>)
    requires
        keys_sorted(a),
        keys_sorted(b),
        forall|x: FindingKey| a.contains(x) <==> b.contains(x),
    ensures
        a == b,
    decreases a.len(),
{
    if a.len() == 0 {
        if b.len() > 0 {
            assert(b.contains(b[0]));
        }
        assert(a =~= b);
    } else {
        assert(a.contains(a[0]));
        let t = choose|t: int| 0 <= t < b.len() && b[t] == a[0];
        assert(b.contains(b[0]));
        let u = choose|u: int| 0 <= u < a.len() && a[u] == b[0];
        if t > 0 {
            assert(key_less(b[0], b[t]));
            if u > 0 {
                assert(key_less(a[0], a[u]));
            }
        }
        assert(b[0] == a[0]);
        let a1 = a.drop_first();
        let b1 = b.drop_first();
        assert forall|x: FindingKey| a1.contains(x) <==> b1.contains(x) by {
            if a1.contains(x) {
                let s = choose|s: int| 0 <= s < a1.len() && a1[s] == x;
                assert(a[s + 1] == x);
                assert(key_less(a[0], a[s + 1]));
                assert(b.contains(x));
                let v = choose|v: int| 0 <= v < b.len() && b[v] == x;
                assert(v != 0);
                assert(b1[v - 1] == x);
            }
            if b1.contains(x) {
                let s = choose|s: int| 0 <= s < b1.len() && b1[s] == x;
                assert(b[s + 1] == x);
                assert(key_less(b[0], b[s + 1]));
                assert(a.contains(x));
                let v = choose|v: int| 0 <= v < a.len() && a[v] == x;
                assert(v != 0);
                assert(a1[v - 1] == x);
            }
        }
        lemma_sorted_keys_unique(a1, b1);
        assert(a =~= seq![a[0]] + a1);
        assert(b =~= seq![b[0]] + b1);
    }
}

/// The places of a TST001 report are determined: two sorted, duplicate-free
/// lists of the same places are the same list.
pub proof fn law_tst001_order_unique(keys: Seq<FindingKey>, a: Seq<FindingKey>, b: Seq<FindingKey>)
    requires
        orders_keys(keys, a),
        orders_keys(keys, b),
    ensures
        a == b,
{
    lemma_sorted_keys_unique(a, b);
}

/// Whether some `.unwrap_err()` is on line `a` or the four after it.
fn unwrap_err_near_exec(lines: &Vec<usize>, a: usize) -> (r: bool)
    ensures
        r == unwrap_err_near(lines@, a as nat),
{
    let mut k: usize = 0;
    while k < lines.len()
        invariant
            k <= lines@.len(),
            forall|j: int| 0 <= j < k ==> !(a <= #[trigger] lines@[j] <= a + 4),
        decreases lines.len() - k,
    {
        if lines[k] >= a && lines[k] - a <= 4 {
            return true;
        }
        k += 1;
    }
    false
}

/// Appends the TST001 places of one function's `is_err` assertions.
fn push_fn_assert_keys(keys: &mut Vec<(usize, Option<usize>)>, f: &FnBodySites)
    requires
        columns_positive(key_views(old(keys)@)),
    ensures
        key_views(final(keys)@) == key_views(old(keys)@) + fn_assert_keys(*f, 0),
        columns_positive(key_views(final(keys)@)),
{
    let ghost base = key_views(keys@);
    let mut i: usize = 0;
    assert(key_views(keys@) + fn_assert_keys(*f, 0) =~= base + fn_assert_keys(*f, 0));
    while i < f.macros.len()
        invariant
            i <= f.macros@.len(),
            columns_positive(key_views(keys@)),
            key_views(keys@) + fn_assert_keys(*f, i as int) == base + fn_assert_keys(*f, 0),
        decreases f.macros.len() - i,
    {
        let m = &f.macros[i];
        if equals_str(&chars_of(m.name.as_str()), "assert") && contains_str(
            &chars_of(m.tokens.as_str()),
            ".is_err()",
        ) && unwrap_err_near_exec(&f.unwrap_err_lines, m.line) {
            let ghost before = key_views(keys@);
            keys.push((m.line, None));
            assert(key_views(keys@) =~= before.push((m.line as nat, None::<nat>)));
            assert(key_views(keys@) + fn_assert_keys(*f, i + 1) =~= before + fn_assert_keys(*f, i as int));
        }
        i += 1;
    }
}

/// Whether one of the four lines after index `idx` calls `.unwrap_err()`.
fn unwrap_err_follows_exec(lines: &Vec<Vec<char>>, idx: usize) -> (r: bool)
    ensures
        r == unwrap_err_follows(lines_view(lines@), idx as int),
{
    let ghost lv = lines_view(lines@);
    if idx >= lines.len() {
        return false;
    }
    let mut k: usize = idx + 1;
    while k < lines.len() && k - idx <= 4
        invariant
            idx < k,
            k <= idx + 5,
            lv == lines_view(lines@),
            forall|j: int| idx < j < k && j < lv.len() ==> !contains(#[trigger] lv[j], ".unwrap_err()"@),
        decreases lines.len() - k,
    {
        assert(lv[k as int] == lines@[k as int]@);
        if contains_str(&lines[k], ".unwrap_err()") {
            return true;
        }
        k += 1;
    }
    false
}

impl AssertNoop {
    /// Reports a manual `is_err()` check followed by `unwrap_err()`, by the
    /// syntax tree's functions (`fns`, `None` when the file did not parse)
    /// and by the text, each place once, sorted by line and column.
    pub fn check(&self, ctx: &FileContext, config: &Config, fns: Option<Vec<FnBodySites>>) -> (r: Option<Vec<Diagnostic>>)
        requires
            ctx.content@.len() <= isize::MAX,
            utf8_fits(ctx.content@),
        ensures
            (!ctx.is_rust || !ctx.is_test_file || fns is None) ==> r is None,
            (ctx.is_rust && ctx.is_test_file && fns is Some) ==> exists|out: Seq<FindingKey>|
                orders_keys(
                    ast_assert_keys(fns->0@) + text_assert_keys(lines_of(ctx.content@), 0),
                    out,
                ) && report_of(
                    out.map_values(
                        |k: FindingKey|
                            tst001_model(
                                ctx.path@,
                                config.spec_rule_severity("TST001"@, Severity::Warning),
                                k,
                            ),
                    ),
                    r,
                ),
    {
        if !ctx.is_rust || !ctx.is_test_file {
            return None;
        }
        let fn_sites = match fns {
            Some(f) => f,
            None => return None,
        };
        let severity = config.rule_severity(self.id(), Severity::Warning);
        // the syntax tree's places
        let mut keys: Vec<(usize, Option<usize>)> = Vec::new();
        let mut i: usize = 0;
        assert(fn_sites@.take(0) =~= Seq::<FnBodySites>::empty());
        while i < fn_sites.len()
            invariant
                i <= fn_sites@.len(),
                columns_positive(key_views(keys@)),
                key_views(keys@) == ast_assert_keys(fn_sites@.take(i as int)),
            decreases fn_sites.len() - i,
        {
            push_fn_assert_keys(&mut keys, &fn_sites[i]);
            assert(fn_sites@.take(i + 1).drop_last() =~= fn_sites@.take(i as int));
            i += 1;
        }
        assert(fn_sites@.take(fn_sites@.len() as int) =~= fn_sites@);
        // the text's places
        let lines = content_lines(ctx);
        let ghost lv = lines_view(lines@);
        let ghost ast_keys = key_views(keys@);
        let mut idx: usize = 0;
        assert(ast_keys + text_assert_keys(lv, 0) =~= ast_keys + text_assert_keys(lv, 0));
        assert(ast_keys =~= ast_keys + Seq::<FindingKey>::empty());
        while idx < lines.len()
            invariant
                idx <= lines@.len(),
                lv == lines_view(lines@),
                forall|j: int| 0 <= j < lines@.len() ==> lines@[j]@.len() <= ctx.content@.len(),
                utf8_fits(ctx.content@),
                columns_positive(key_views(keys@)),
                key_views(keys@) + text_assert_keys(lv, idx as int) == ast_keys + text_assert_keys(lv, 0),
            decreases lines.len() - idx,
        {
            assert(lv[idx as int] == lines@[idx as int]@);
            if contains_str(&lines[idx], ".is_err()") && unwrap_err_follows_exec(&lines, idx) {
                let col = find_byte_exec(&lines[idx], &chars_of(".is_err()"));
                match col {
                    Some(c) => {
                        let ghost before = key_views(keys@);
                        keys.push((idx + 1, Some(c + 1)));
                        assert(key_views(keys@) =~= before.push(((idx + 1) as nat, Some((c + 1) as nat))));
                        assert(key_views(keys@) + text_assert_keys(lv, idx + 1) =~= before
                            + text_assert_keys(lv, idx as int));
                    },
                    None => {},
                }
            }
            idx += 1;
        }
        let ghost all = key_views(keys@);
        assert(all == ast_assert_keys(fn_sites@) + text_assert_keys(lv, 0));
        // sorted, each place once
        let mut sorted: Vec<(usize, Option<usize>)> = Vec::new();
        let mut j: usize = 0;
        while j < keys.len()
            invariant
                j <= keys@.len(),
                all == key_views(keys@),
                columns_positive(all),
                keys_sorted(key_views(sorted@)),
                columns_positive(key_views(sorted@)),
                forall|x: FindingKey| key_views(sorted@).contains(x) <==> all.take(j as int).contains(x),
            decreases keys.len() - j,
        {
            assert(all[j as int] == key_view(keys@[j as int]));
            insert_key(&mut sorted, keys[j]);
            proof {
                let a0 = all.take(j as int);
                let a1 = all.take(j + 1);
                assert(a1 =~= a0.push(all[j as int]));
                assert forall|x: FindingKey| key_views(sorted@).contains(x) <==> a1.contains(x) by {
                    if a1.contains(x) {
                        let t = choose|t: int| 0 <= t < a1.len() && a1[t] == x;
                        if t < j {
                            assert(a0[t] == x);
                        }
                    }
                    if a0.contains(x) {
                        let t = choose|t: int| 0 <= t < a0.len() && a0[t] == x;
                        assert(a1[t] == x);
                    }
                    if x == all[j as int] {
                        assert(a1[j as int] == x);
                    }
                }
            }
            j += 1;
        }
        assert(all.take(keys@.len() as int) =~= all);
        let ghost out = key_views(sorted@);
        // the diagnostics
        let mut diagnostics: Vec<Diagnostic> = Vec::new();
        let mut t: usize = 0;
        while t < sorted.len()
            invariant
                t <= sorted@.len(),
                out == key_views(sorted@),
                models(diagnostics@) == out.take(t as int).map_values(
                    |k: FindingKey| tst001_model(ctx.path@, severity, k),
                ),
            decreases sorted.len() - t,
        {
            let (line, column) = sorted[t];
            let ghost before = models(diagnostics@);
            diagnostics.push(
                make_diagnostic(
                    self.id(),
                    self.name(),
                    RuleCategory::TestSmell,
                    severity,
                    &ctx.path,
                    line,
                    column,
                    None,
                    "Manual `is_err()` + `unwrap_err()` pattern; prefer `assert_noop!`".to_owned(),
                    "Project convention: use `assert_noop!` for dispatch error assertions. It checks both the error and that storage was not modified.",
                    Some("Replace with `assert_noop!(call, Error::<T>::YourError)`".to_owned()),
                ),
            );
            assert(out[t as int] == key_view(sorted@[t as int]));
            assert(models(diagnostics@) =~= before.push(tst001_model(ctx.path@, severity, out[t as int])));
            assert(out.take(t + 1) =~= out.take(t as int).push(out[t as int]));
            assert(models(diagnostics@) =~= out.take(t + 1).map_values(
                |k: FindingKey| tst001_model(ctx.path@, severity, k),
            ));
            t += 1;
        }
        assert(out.take(sorted@.len() as int) =~= out);
        assert(orders_keys(all, out));
        into_report(diagnostics)
    }
}

// ---------------------------------------------------------------------------
// TST002: `assert_ok!` on `apply_extrinsic`
// ---------------------------------------------------------------------------

/// An `assert_ok!` whose tokens mention `apply_extrinsic`.
pub open spec fn asserts_ok_on_apply(m: MacroSite) -> bool {
    m.name@ == "assert_ok"@ && contains(m.tokens@, "apply_extrinsic"@)
}

/// The TST002 diagnostic for a statement macro.
pub open spec fn tst002_model(file: Seq<char>, sev: Severity, m: MacroSite) -> DiagnosticModel {
    DiagnosticModel {
        rule_id: "TST002"@,
        rule_name: "apply-extrinsic-assert-ok"@,
        category: RuleCategory::TestSmell,
        severity: sev,
        file,
        line: m.line as nat,
        column: Some(m.column as nat),
        end_line: None,
        message: "`assert_ok!` on `apply_extrinsic` ignores the inner DispatchError"@,
        explanation: "`apply_extrinsic` returns `Result<Result<(), DispatchError>, TransactionInvalidityError>`. `assert_ok!` only checks the outer Result, so a dispatch failure is silently swallowed."@,
        suggestion: Some("Check both layers: `assert_eq!(apply_extrinsic(call), Ok(Ok(())))`"@),
    }
}

/// The TST002 diagnostics of a file's statement macros, in order.
pub open spec fn tst002_found(ms: Seq<MacroSite>, file: Seq<char>, sev: Severity) -> Seq<DiagnosticModel>
    decreases ms.len(),
{
    if ms.len() == 0 {
        seq![]
    } else {
        let rest = tst002_found(ms.drop_last(), file, sev);
        if asserts_ok_on_apply(ms.last()) {
            rest.push(tst002_model(file, sev, ms.last()))
        } else {
            rest
        }
    }
}

impl ApplyExtrinsicAssertOk {
    /// Reports `assert_ok!` on `apply_extrinsic` in tests; `macros` are the
    /// file's statement macros in the syntax tree's order (`None` when it
    /// did not parse).
    pub fn check(&self, ctx: &FileContext, config: &Config, macros: Option<Vec<MacroSite>>) -> (r: Option<Vec<Diagnostic>>)
        ensures
            (!ctx.is_rust || !ctx.is_test_file || macros is None) ==> r is None,
            (ctx.is_rust && ctx.is_test_file && macros is Some) ==> report_of(
                tst002_found(
                    macros->0@,
                    ctx.path@,
                    config.spec_rule_severity("TST002"@, Severity::Error),
                ),
                r,
            ),
    {
        if !ctx.is_rust || !ctx.is_test_file {
            return None;
        }
        let ms = match macros {
            Some(m) => m,
            None => return None,
        };
        let severity = config.rule_severity(self.id(), Severity::Error);
        let mut diagnostics: Vec<Diagnostic> = Vec::new();
        let mut i: usize = 0;
        assert(ms@.take(0) =~= Seq::<MacroSite>::empty());
        while i < ms.len()
            invariant
                i <= ms@.len(),
                models(diagnostics@) == tst002_found(ms@.take(i as int), ctx.path@, severity),
            decreases ms.len() - i,
        {
            let m = &ms[i];
            assert(ms@.take(i + 1).drop_last() =~= ms@.take(i as int));
            assert(ms@.take(i + 1).last() == *m);
            if equals_str(&chars_of(m.name.as_str()), "assert_ok") && contains_str(
                &chars_of(m.tokens.as_str()),
                "apply_extrinsic",
            ) {
                let ghost before = models(diagnostics@);
                diagnostics.push(
                    make_diagnostic(
                        self.id(),
                        self.name(),
                        RuleCategory::TestSmell,
                        severity,
                        &ctx.path,
                        m.line,
                        Some(m.column),
                        None,
                        "`assert_ok!` on `apply_extrinsic` ignores the inner DispatchError".to_owned(),
                        "`apply_extrinsic` returns `Result<Result<(), DispatchError>, TransactionInvalidityError>`. `assert_ok!` only checks the outer Result, so a dispatch failure is silently swallowed.",
                        Some("Check both layers: `assert_eq!(apply_extrinsic(call), Ok(Ok(())))`".to_owned()),
                    ),
                );
                assert(models(diagnostics@) =~= before.push(tst002_model(ctx.path@, severity, *m)));
            }
            i += 1;
        }
        assert(ms@.take(ms@.len() as int) =~= ms@);
        into_report(diagnostics)
    }
}

// ---------------------------------------------------------------------------
// TST003: `use` inside function bodies
// ---------------------------------------------------------------------------

/// A `use` item of the syntax tree: its 1-based line and column, its tokens
/// as written back, and how many blocks enclose it.
pub struct UseSite {
    pub line: usize,
    pub column: usize,
    pub text: String,
    pub block_depth: usize,
}

/// The TST003 diagnostic for a `use` item.
pub open spec fn tst003_model(file: Seq<char>, sev: Severity, u: UseSite) -> DiagnosticModel {
    DiagnosticModel {
        rule_id: "TST003"@,
        rule_name: "imports-inside-closures"@,
        category: RuleCategory::TestSmell,
        severity: sev,
        file,
        line: u.line as nat,
        column: Some(u.column as nat),
        end_line: None,
        message: "`use` import inside function/closure body: `"@ + u.text@ + "`"@,
        explanation: "Project convention: place `use` imports at the module level, not inside closures or test function bodies."@,
        suggestion: Some("Move this import to the module level"@),
    }
}

/// The TST003 diagnostics: each `use` item inside a block, in order.
pub open spec fn tst003_found(us: Seq<UseSite>, file: Seq<char>, sev: Severity) -> Seq<DiagnosticModel>
    decreases us.len(),
{
    if us.len() == 0 {
        seq![]
    } else {
        let rest = tst003_found(us.drop_last(), file, sev);
        if us.last().block_depth >= 1 {
            rest.push(tst003_model(file, sev, us.last()))
        } else {
            rest
        }
    }
}

impl ImportsInsideClosures {
    /// Reports `use` items inside function or closure bodies of tests;
    /// `uses` are the file's `use` items in the syntax tree's order (`None`
    /// when it did not parse).
    pub fn check(&self, ctx: &FileContext, config: &Config, uses: Option<Vec<UseSite>>) -> (r: Option<Vec<Diagnostic>>)
        ensures
            (!ctx.is_rust || !ctx.is_test_file || uses is None) ==> r is None,
            (ctx.is_rust && ctx.is_test_file && uses is Some) ==> report_of(
                tst003_found(
                    uses->0@,
                    ctx.path@,
                    config.spec_rule_severity("TST003"@, Severity::Advisory),
                ),
                r,
            ),
    {
        if !ctx.is_rust || !ctx.is_test_file {
            return None;
        }
        let us = match uses {
            Some(u) => u,
            None => return None,
        };
        let severity = config.rule_severity(self.id(), Severity::Advisory);
        let mut diagnostics: Vec<Diagnostic> = Vec::new();
        let mut i: usize = 0;
        assert(us@.take(0) =~= Seq::<UseSite>::empty());
        while i < us.len()
            invariant
                i <= us@.len(),
                models(diagnostics@) == tst003_found(us@.take(i as int), ctx.path@, severity),
            decreases us.len() - i,
        {
            let u = &us[i];
            assert(us@.take(i + 1).drop_last() =~= us@.take(i as int));
            assert(us@.take(i + 1).last() == *u);
            if u.block_depth >= 1 {
                let ghost before = models(diagnostics@);
                let message = "`use` import inside function/closure body: `".to_owned().concat(
                    u.text.as_str(),
                ).concat("`");
                diagnostics.push(
                    make_diagnostic(
                        self.id(),
                        self.name(),
                        RuleCategory::TestSmell,
                        severity,
                        &ctx.path,
                        u.line,
                        Some(u.column),
                        None,
                        message,
                        "Project convention: place `use` imports at the module level, not inside closures or test function bodies.",
                        Some("Move this import to the module level".to_owned()),
                    ),
                );
                assert(models(diagnostics@) =~= before.push(tst003_model(ctx.path@, severity, *u)));
            }
            i += 1;
        }
        assert(us@.take(us@.len() as int) =~= us@);
        into_report(diagnostics)
    }
}

// ---------------------------------------------------------------------------
// TST005: assertions on implementation details
// ---------------------------------------------------------------------------

/// An assertion macro whose tokens one of the configured regexes matches.
pub open spec fn asserts_internal_detail(m: MacroSite, patterns: Seq<String>) -> bool {
    (m.name@ == "assert"@ || m.name@ == "assert_eq"@ || m.name@ == "assert_ne"@ || m.name@
        == "assert_matches"@) && exists|k: int|
        0 <= k < patterns.len() && regex_is_match(#[trigger] patterns[k]@, m.tokens@) == Some(true)
}

/// The TST005 diagnostic for a statement macro.
pub open spec fn tst005_model(file: Seq<char>, sev: Severity, m: MacroSite) -> DiagnosticModel {
    DiagnosticModel {
        rule_id: "TST005"@,
        rule_name: "implementation-detail-assertions"@,
        category: RuleCategory::TestSmell,
        severity: sev,
        file,
        line: m.line as nat,
        column: Some(m.column as nat),
        end_line: None,
        message: "Assertion may be testing an implementation detail rather than observable behaviour"@,
        explanation: "Tests that assert on internal fields (counters, caches, flags, internal state) tend to break when refactoring and do not prove the system works correctly from a user's perspective."@,
        suggestion: Some("Consider asserting on observable output or public API results instead"@),
    }
}

/// The TST005 diagnostics of a file's statement macros, in order.
pub open spec fn tst005_found(ms: Seq<MacroSite>, patterns: Seq<String>, file: Seq<char>, sev: Severity) -> Seq<DiagnosticModel>
    decreases ms.len(),
{
    if ms.len() == 0 {
        seq![]
    } else {
        let rest = tst005_found(ms.drop_last(), patterns, file, sev);
        if asserts_internal_detail(ms.last(), patterns) {
            rest.push(tst005_model(file, sev, ms.last()))
        } else {
            rest
        }
    }
}

/// Whether one of `patterns` (regexes; one that does not compile matches
/// nothing) matches `tokens`.
fn any_pattern_matches(patterns: &Vec<String>, tokens: &String) -> (r: bool)
    ensures
        r == exists|k: int|
            0 <= k < patterns@.len() && regex_is_match(#[trigger] patterns@[k]@, tokens@) == Some(true),
{
    let mut k: usize = 0;
    while k < patterns.len()
        invariant
            k <= patterns@.len(),
            forall|j: int| 0 <= j < k ==> regex_is_match(#[trigger] patterns@[j]@, tokens@) != Some(true),
        decreases patterns.len() - k,
    {
        if regex_match(patterns[k].as_str(), tokens.as_str()) == Some(true) {
            return true;
        }
        k += 1;
    }
    false
}

impl ImplementationDetailAssertions {
    /// Reports assertions in tests whose tokens match a configured
    /// internal-field pattern; `macros` are the file's statement macros in
    /// the syntax tree's order (`None` when it did not parse).
    pub fn check(&self, ctx: &FileContext, config: &Config, macros: Option<Vec<MacroSite>>) -> (r: Option<Vec<Diagnostic>>)
        ensures
            (!ctx.is_rust || !ctx.is_test_file || macros is None) ==> r is None,
            (ctx.is_rust && ctx.is_test_file && macros is Some) ==> report_of(
                tst005_found(
                    macros->0@,
                    config.test_smells.internal_field_patterns@,
                    ctx.path@,
                    config.spec_rule_severity("TST005"@, Severity::Advisory),
                ),
                r,
            ),
    {
        if !ctx.is_rust || !ctx.is_test_file {
            return None;
        }
        let ms = match macros {
            Some(m) => m,
            None => return None,
        };
        let ghost pats = config.test_smells.internal_field_patterns@;
        let severity = config.rule_severity(self.id(), Severity::Advisory);
        let mut diagnostics: Vec<Diagnostic> = Vec::new();
        let mut i: usize = 0;
        assert(ms@.take(0) =~= Seq::<MacroSite>::empty());
        while i < ms.len()
            invariant
                i <= ms@.len(),
                pats == config.test_smells.internal_field_patterns@,
                models(diagnostics@) == tst005_found(ms@.take(i as int), pats, ctx.path@, severity),
            decreases ms.len() - i,
        {
            let m = &ms[i];
            assert(ms@.take(i + 1).drop_last() =~= ms@.take(i as int));
            assert(ms@.take(i + 1).last() == *m);
            let name = chars_of(m.name.as_str());
            if (equals_str(&name, "assert") || equals_str(&name, "assert_eq") || equals_str(
                &name,
                "assert_ne",
            ) || equals_str(&name, "assert_matches")) && any_pattern_matches(
                &config.test_smells.internal_field_patterns,
                &m.tokens,
            ) {
                let ghost before = models(diagnostics@);
                diagnostics.push(
                    make_diagnostic(
                        self.id(),
                        self.name(),
                        RuleCategory::TestSmell,
                        severity,
                        &ctx.path,
                        m.line,
                        Some(m.column),
                        None,
                        "Assertion may be testing an implementation detail rather than observable behaviour".to_owned(),
                        "Tests that assert on internal fields (counters, caches, flags, internal state) tend to break when refactoring and do not prove the system works correctly from a user's perspective.",
                        Some("Consider asserting on observable output or public API results instead".to_owned()),
                    ),
                );
                assert(models(diagnostics@) =~= before.push(tst005_model(ctx.path@, severity, *m)));
            }
            i += 1;
        }
        assert(ms@.take(ms@.len() as int) =~= ms@);
        into_report(diagnostics)
    }
}

// ---------------------------------------------------------------------------
// TST004: `Pays::No` without a test of the paying error path
// ---------------------------------------------------------------------------

/// A call of the syntax tree: the last segment of the called path, its
/// 1-based line, and each argument's tokens with whitespace removed.
pub struct CallSite {
    pub name: String,
    pub line: usize,
    pub args: Vec<String>,
}

/// An `Ok(..)` whose arguments mention `Pays::No`.
pub open spec fn pays_no_success(c: CallSite) -> bool {
    c.name@ == "Ok"@ && exists|k: int| 0 <= k < c.args@.len() && contains(#[trigger] c.args@[k]@, "Pays::No"@)
}

/// The lines of the `Ok(..Pays::No..)` calls, in order.
pub open spec fn pays_no_lines(cs: Seq<CallSite>) -> Seq<nat>
    decreases cs.len(),
{
    if cs.len() == 0 {
        seq![]
    } else {
        let rest = pays_no_lines(cs.drop_last());
        if pays_no_success(cs.last()) {
            rest.push(cs.last().line as nat)
        } else {
            rest
        }
    }
}

/// A path that is itself a test file, by its directory or name.
pub open spec fn is_pure_test_file_path(p: Seq<char>) -> bool {
    ||| contains(p, "/tests/"@)
    ||| contains(p, "/test/"@)
    ||| ends_with(p, "_test.rs"@)
    ||| ends_with(p, "_tests.rs"@)
    ||| ends_with(p, "tests.rs"@)
}

/// The file has a directory, and the tests next to it (`companion`, as read
/// from `tests.rs` or the `tests/` directory) assert `pays_fee` and
/// `Pays::Yes`.
pub open spec fn has_companion_test(path: Seq<char>, companion: Option<String>) -> bool {
    std_path_parent(path) is Some && match companion {
        Some(c) => contains(c@, "Pays::Yes"@) && contains(c@, "pays_fee"@),
        None => false,
    }
}

/// The TST004 diagnostic at a line.
pub open spec fn tst004_model(file: Seq<char>, sev: Severity, line: nat) -> DiagnosticModel {
    DiagnosticModel {
        rule_id: "TST004"@,
        rule_name: "pays-yes-error-path"@,
        category: RuleCategory::TestSmell,
        severity: sev,
        file,
        line,
        column: None,
        end_line: None,
        message: "Extrinsic returns `Pays::No` on success — no companion test found asserting `Pays::Yes` on the error path"@,
        explanation: "When an extrinsic refunds fees on success (Pays::No), there must be a test proving that the error path charges fees (Pays::Yes). This prevents someone from accidentally setting Pays::No on errors."@,
        suggestion: Some("Add a test: `assert_eq!(result.unwrap_err().post_info.pays_fee, Pays::Yes)`"@),
    }
}

/// Whether some argument mentions `Pays::No`.
fn args_mention_pays_no(args: &Vec<String>) -> (r: bool)
    ensures
        r == exists|k: int| 0 <= k < args@.len() && contains(#[trigger] args@[k]@, "Pays::No"@),
{
    let mut k: usize = 0;
    while k < args.len()
        invariant
            k <= args@.len(),
            forall|j: int| 0 <= j < k ==> !contains(#[trigger] args@[j]@, "Pays::No"@),
        decreases args.len() - k,
    {
        if contains_str(&chars_of(args[k].as_str()), "Pays::No") {
            return true;
        }
        k += 1;
    }
    false
}

impl PaysYesErrorPath {
    /// Reports each `Ok(..Pays::No..)` of a non-test file when no companion
    /// test asserts `Pays::Yes` on the error path. `calls` are the file's
    /// calls in the syntax tree's order (`None` when it did not parse);
    /// `companion` is the text of the tests next to the file, if any.
    pub fn check(
        &self,
        ctx: &FileContext,
        config: &Config,
        calls: Option<Vec<CallSite>>,
        companion: Option<String>,
    ) -> (r: Option<Vec<Diagnostic>>)
        ensures
            (!ctx.is_rust || is_pure_test_file_path(ctx.path@) || calls is None) ==> r is None,
            (ctx.is_rust && !is_pure_test_file_path(ctx.path@) && calls is Some) ==> report_of(
                if has_companion_test(ctx.path@, companion) {
                    Seq::<DiagnosticModel>::empty()
                } else {
                    pays_no_lines(calls->0@).map_values(
                        |l: nat|
                            tst004_model(
                                ctx.path@,
                                config.spec_rule_severity("TST004"@, Severity::Advisory),
                                l,
                            ),
                    )
                },
                r,
            ),
    {
        if !ctx.is_rust {
            return None;
        }
        let path = chars_of(ctx.path.as_str());
        if contains_str(&path, "/tests/") || contains_str(&path, "/test/") || ends_with_str(
            &path,
            "_test.rs",
        ) || ends_with_str(&path, "_tests.rs") || ends_with_str(&path, "tests.rs") {
            return None;
        }
        let cs = match calls {
            Some(c) => c,
            None => return None,
        };
        let mut lines: Vec<usize> = Vec::new();
        let mut i: usize = 0;
        assert(cs@.take(0) =~= Seq::<CallSite>::empty());
        while i < cs.len()
            invariant
                i <= cs@.len(),
                lines@.map_values(|l: usize| l as nat) == pays_no_lines(cs@.take(i as int)),
            decreases cs.len() - i,
        {
            let c = &cs[i];
            assert(cs@.take(i + 1).drop_last() =~= cs@.take(i as int));
            assert(cs@.take(i + 1).last() == *c);
            if equals_str(&chars_of(c.name.as_str()), "Ok") && args_mention_pays_no(&c.args) {
                let ghost before = lines@;
                lines.push(c.line);
                assert(lines@.map_values(|l: usize| l as nat) =~= before.map_values(|l: usize| l as nat).push(
                    c.line as nat,
                ));
            }
            i += 1;
        }
        assert(cs@.take(cs@.len() as int) =~= cs@);
        let ghost lv = lines@.map_values(|l: usize| l as nat);
        if lines.len() == 0 {
            return None;
        }
        let has_companion = match path_parent(ctx.path.as_str()) {
            Some(_) => match &companion {
                Some(c) => {
                    let cv = chars_of(c.as_str());
                    contains_str(&cv, "Pays::Yes") && contains_str(&cv, "pays_fee")
                },
                None => false,
            },
            None => false,
        };
        let severity = config.rule_severity(self.id(), Severity::Advisory);
        let mut diagnostics: Vec<Diagnostic> = Vec::new();
        if !has_companion {
            let mut t: usize = 0;
            while t < lines.len()
                invariant
                    t <= lines@.len(),
                    lv == lines@.map_values(|l: usize| l as nat),
                    models(diagnostics@) == lv.take(t as int).map_values(
                        |l: nat| tst004_model(ctx.path@, severity, l),
                    ),
                decreases lines.len() - t,
            {
                let ghost before = models(diagnostics@);
                diagnostics.push(
                    make_diagnostic(
                        self.id(),
                        self.name(),
                        RuleCategory::TestSmell,
                        severity,
                        &ctx.path,
                        lines[t],
                        None,
                        None,
                        "Extrinsic returns `Pays::No` on success — no companion test found asserting `Pays::Yes` on the error path".to_owned(),
                        "When an extrinsic refunds fees on success (Pays::No), there must be a test proving that the error path charges fees (Pays::Yes). This prevents someone from accidentally setting Pays::No on errors.",
                        Some("Add a test: `assert_eq!(result.unwrap_err().post_info.pays_fee, Pays::Yes)`".to_owned()),
                    ),
                );
                assert(lv[t as int] == lines@[t as int] as nat);
                assert(models(diagnostics@) =~= before.push(tst004_model(ctx.path@, severity, lv[t as int])));
                assert(lv.take(t + 1) =~= lv.take(t as int).push(lv[t as int]));
                t += 1;
            }
            assert(lv.take(lines@.len() as int) =~= lv);
        } else {
            assert(models(diagnostics@) =~= Seq::<DiagnosticModel>::empty());
        }
        into_report(diagnostics)
    }
}

// ---------------------------------------------------------------------------
// TST006: extrinsics that change storage without an event
// ---------------------------------------------------------------------------

/// A `#[pallet::call_index]` function of a `#[pallet::call]` impl: its
/// name, the 1-based line and column of its name, and the names its body
/// calls (the last segment of each called path and each method name), in
/// the syntax tree's order.
pub struct ExtrinsicBody {
    pub name: String,
    pub line: usize,
    pub column: usize,
    pub callees: Vec<String>,
}

/// A storage-changing call.
pub open spec fn is_mutating_call(n: Seq<char>) -> bool {
    ||| n == "put"@
    ||| n == "insert"@
    ||| n == "mutate"@
    ||| n == "remove"@
    ||| n == "kill"@
    ||| n == "set"@
    ||| n == "append"@
    ||| n == "try_append"@
}

/// The body changes storage and deposits no event.
pub open spec fn mutates_without_event(b: ExtrinsicBody) -> bool {
    &&& exists|k: int| 0 <= k < b.callees@.len() && is_mutating_call(#[trigger] b.callees@[k]@)
    &&& !exists|k: int| 0 <= k < b.callees@.len() && #[trigger] b.callees@[k]@ == "deposit_event"@
}

/// The TST006 diagnostic for an extrinsic.
pub open spec fn tst006_model(file: Seq<char>, sev: Severity, b: ExtrinsicBody) -> DiagnosticModel {
    DiagnosticModel {
        rule_id: "TST006"@,
        rule_name: "extrinsic-without-event"@,
        category: RuleCategory::TestSmell,
        severity: sev,
        file,
        line: b.line as nat,
        column: Some(b.column as nat),
        end_line: None,
        message: "Extrinsic `"@ + b.name@ + "` mutates storage but does not emit an event"@,
        explanation: "State-changing extrinsics should emit events so external consumers (UIs, indexers, other pallets) can observe what happened. Missing events make it impossible to track state changes off-chain."@,
        suggestion: Some("Add `Self::deposit_event(Event::YourEvent { ... })` after the state change"@),
    }
}

/// The TST006 diagnostics of a file's extrinsics, in order.
pub open spec fn tst006_found(bs: Seq<ExtrinsicBody>, file: Seq<char>, sev: Severity) -> Seq<DiagnosticModel>
    decreases bs.len(),
{
    if bs.len() == 0 {
        seq![]
    } else {
        let rest = tst006_found(bs.drop_last(), file, sev);
        if mutates_without_event(bs.last()) {
            rest.push(tst006_model(file, sev, bs.last()))
        } else {
            rest
        }
    }
}

/// A name that storage items use for a call that changes what they hold.
pub open spec fn names_storage_change(n: Seq<char>) -> bool {
    n == "put"@ || n == "insert"@ || n == "mutate"@ || n == "remove"@ || n == "kill"@ || n == "set"@
        || n == "append"@ || n == "try_append"@
}

/// The body calls one of the storage-changing names.
pub open spec fn calls_storage_change(b: ExtrinsicBody) -> bool {
    exists|k: int| 0 <= k < b.callees@.len() && names_storage_change(#[trigger] b.callees@[k]@)
}

/// The body deposits an event.
pub open spec fn deposits_event(b: ExtrinsicBody) -> bool {
    exists|k: int| 0 <= k < b.callees@.len() && #[trigger] b.callees@[k]@ == "deposit_event"@
}

/// Every finding is an extrinsic of the file that calls `put`, `insert`,
/// `mutate`, `remove`, `kill`, `set`, `append` or `try_append` and never
/// `deposit_event`; and every such extrinsic is reported.
pub proof fn law_tst006_reports_exactly_silent_storage_changes(bs: Seq<ExtrinsicBody>, file: Seq<char>, sev: Severity)
    ensures
        forall|i: int|
            0 <= i < bs.len() && calls_storage_change(#[trigger] bs[i]) && !deposits_event(bs[i])
                ==> tst006_found(bs, file, sev).contains(tst006_model(file, sev, bs[i])),
        forall|k: int|
            0 <= k < tst006_found(bs, file, sev).len() ==> exists|i: int|
                0 <= i < bs.len() && calls_storage_change(bs[i]) && !deposits_event(bs[i])
                    && #[trigger] tst006_found(bs, file, sev)[k] == tst006_model(file, sev, bs[i]),
    decreases bs.len(),
{
    if bs.len() > 0 {
        let init = bs.drop_last();
        let rest = tst006_found(init, file, sev);
        law_tst006_reports_exactly_silent_storage_changes(init, file, sev);
        let out = tst006_found(bs, file, sev);
        let b = bs.last();
        assert(mutates_without_event(b) <==> (calls_storage_change(b) && !deposits_event(b))) by {
            if calls_storage_change(b) {
                let k = choose|k: int| 0 <= k < b.callees@.len() && names_storage_change(#[trigger] b.callees@[k]@);
                assert(is_mutating_call(b.callees@[k]@));
            }
            if exists|k: int| 0 <= k < b.callees@.len() && is_mutating_call(#[trigger] b.callees@[k]@) {
                let k = choose|k: int| 0 <= k < b.callees@.len() && is_mutating_call(#[trigger] b.callees@[k]@);
                assert(names_storage_change(b.callees@[k]@));
            }
        }
        assert forall|i: int|
            0 <= i < bs.len() && calls_storage_change(#[trigger] bs[i]) && !deposits_event(bs[i]) implies out.contains(
            tst006_model(file, sev, bs[i]),
        ) by {
            if i < bs.len() - 1 {
                assert(init[i] == bs[i]);
                assert(rest.contains(tst006_model(file, sev, bs[i])));
                let k = choose|k: int| 0 <= k < rest.len() && rest[k] == tst006_model(file, sev, bs[i]);
                assert(out[k] == rest[k]);
            } else {
                assert(out[out.len() - 1] == tst006_model(file, sev, b));
            }
        }
        assert forall|k: int| 0 <= k < out.len() implies exists|i: int|
            0 <= i < bs.len() && calls_storage_change(bs[i]) && !deposits_event(bs[i])
                && #[trigger] out[k] == tst006_model(file, sev, bs[i]) by {
            if k < rest.len() {
                assert(out[k] == rest[k]);
                let i = choose|i: int|
                    0 <= i < init.len() && calls_storage_change(init[i]) && !deposits_event(init[i])
                        && #[trigger] rest[k] == tst006_model(file, sev, init[i]);
                assert(bs[i] == init[i]);
            } else {
                assert(bs[bs.len() - 1] == b);
            }
        }
    }
}

/// Whether the body changes storage and deposits no event.
fn mutates_without_event_exec(b: &ExtrinsicBody) -> (r: bool)
    ensures
        r == mutates_without_event(*b),
{
    let mut has_event = false;
    let mut has_mutation = false;
    let mut k: usize = 0;
    while k < b.callees.len()
        invariant
            k <= b.callees@.len(),
            has_event == exists|j: int| 0 <= j < k && #[trigger] b.callees@[j]@ == "deposit_event"@,
            has_mutation == exists|j: int| 0 <= j < k && is_mutating_call(#[trigger] b.callees@[j]@),
        decreases b.callees.len() - k,
    {
        let n = chars_of(b.callees[k].as_str());
        if equals_str(&n, "deposit_event") {
            has_event = true;
        }
        if equals_str(&n, "put") || equals_str(&n, "insert") || equals_str(&n, "mutate")
            || equals_str(&n, "remove") || equals_str(&n, "kill") || equals_str(&n, "set")
            || equals_str(&n, "append") || equals_str(&n, "try_append") {
            has_mutation = true;
        }
        k += 1;
    }
    has_mutation && !has_event
}

impl ExtrinsicWithoutEvent {
    /// Reports extrinsics that change storage without depositing an event;
    /// `extrinsics` are the file's `#[pallet::call_index]` functions in the
    /// syntax tree's order (`None` when it did not parse).
    pub fn check(&self, ctx: &FileContext, config: &Config, extrinsics: Option<Vec<ExtrinsicBody>>) -> (r: Option<Vec<Diagnostic>>)
        ensures
            (!ctx.is_rust || ctx.is_test_file || ctx.is_benchmark_file || extrinsics is None) ==> r is None,
            (ctx.is_rust && !ctx.is_test_file && !ctx.is_benchmark_file && extrinsics is Some)
                ==> report_of(
                tst006_found(
                    extrinsics->0@,
                    ctx.path@,
                    config.spec_rule_severity("TST006"@, Severity::Advisory),
                ),
                r,
            ),
    {
        if !ctx.is_rust || ctx.is_test_file || ctx.is_benchmark_file {
            return None;
        }
        let bs = match extrinsics {
            Some(b) => b,
            None => return None,
        };
        let severity = config.rule_severity(self.id(), Severity::Advisory);
        let mut diagnostics: Vec<Diagnostic> = Vec::new();
        let mut i: usize = 0;
        assert(bs@.take(0) =~= Seq::<ExtrinsicBody>::empty());
        while i < bs.len()
            invariant
                i <= bs@.len(),
                models(diagnostics@) == tst006_found(bs@.take(i as int), ctx.path@, severity),
            decreases bs.len() - i,
        {
            let b = &bs[i];
            assert(bs@.take(i + 1).drop_last() =~= bs@.take(i as int));
            assert(bs@.take(i + 1).last() == *b);
            if mutates_without_event_exec(b) {
                let ghost before = models(diagnostics@);
                let message = "Extrinsic `".to_owned().concat(b.name.as_str()).concat(
                    "` mutates storage but does not emit an event",
                );
                diagnostics.push(
                    make_diagnostic(
                        self.id(),
                        self.name(),
                        RuleCategory::TestSmell,
                        severity,
                        &ctx.path,
                        b.line,
                        Some(b.column),
                        None,
                        message,
                        "State-changing extrinsics should emit events so external consumers (UIs, indexers, other pallets) can observe what happened. Missing events make it impossible to track state changes off-chain.",
                        Some("Add `Self::deposit_event(Event::YourEvent { ... })` after the state change".to_owned()),
                    ),
                );
                assert(models(diagnostics@) =~= before.push(tst006_model(ctx.path@, severity, *b)));
            }
            i += 1;
        }
        assert(bs@.take(bs@.len() as int) =~= bs@);
        into_report(diagnostics)
    }
}

} // verus!
