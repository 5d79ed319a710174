//! Rules on single calls and expressions: SEM009, a `contains_key` check
//! before a `remove` of the same map; SEM010, `^` written for a power;
//! SEC003, decoding a runtime call without a depth limit; SEC012,
//! `clear_prefix` with no deletion limit.
use vstd::prelude::*;
use crate::config::Config;
use crate::context::FileContext;
use crate::diagnostics::{
    into_report, make_diagnostic, models, report_of, Diagnostic, DiagnosticModel, RuleCategory,
    Severity,
};
use crate::rules::masks::{cfg_test_module_mask, spec_cfg_test_module_mask};
use crate::rules::paths::{
    is_frame_support_migration_infrastructure, spec_is_frame_support_migration_infrastructure,
};
use crate::rules::production_rules::{comment_of, comment_of_exec, sat_sub};
use crate::rules::semantic::{
    content_lines, should_skip_production_rule, spec_should_skip_production_rule,
    MissingDecodeDepthLimit, RedundantContainsKeyBeforeRemove, UnboundedClearPrefix,
    XorAsExponentiation,
};
use crate::rules::syntax_rules::{
    has_segment, has_segment_exec, last_is, last_is_exec, masked_line, masked_line_exec,
};
use crate::rules::LintRule;
use crate::text::{
    chars_of, concat, contains, contains_str, decimal, decimal_u64_exec, lines_of, lines_view,
    push_str, string_of, to_ascii_lowercase, to_ascii_lowercase_exec,
};

verus! {

/// A call of a path: the path's segments and its tokens without
/// whitespace, its position, and whether its second argument is an
/// unbounded limit (`None`, `MAX`, or `Some` of one).
pub struct PathCallSite {
    pub path: Vec<String>,
    pub compact: String,
    pub line: usize,
    pub column: usize,
    pub unbounded_second_arg: bool,
}

/// The segment before the path's last, when there is one.
pub open spec fn owner_of(path: Seq<String>) -> Option<Seq<char>> {
    if path.len() >= 2 {
        Some(path[path.len() - 2]@)
    } else {
        None
    }
}

/// The segment before the path's last, when there is one.
fn owner_of_exec(path: &Vec<String>) -> (r: Option<Vec<char>>)
    ensures
        match r {
            Some(o) => owner_of(path@) == Some(o@),
            None => owner_of(path@) is None,
        },
{
    if path.len() >= 2 {
        Some(chars_of(path[path.len() - 2].as_str()))
    } else {
        None
    }
}

// ---------------------------------------------------------------------------
// SEM009: `contains_key` before `remove`
// ---------------------------------------------------------------------------

/// An `if` whose condition is a call of a path: that path, the call's
/// position, and the calls of paths in the `then` branch (path and line),
/// in order.
pub struct ContainsKeyIf {
    pub path: Vec<String>,
    pub line: usize,
    pub column: usize,
    pub then_calls: Vec<(Vec<String>, usize)>,
}

/// The line of the last `remove` or `take` of the map `owner` among the
/// calls.
pub open spec fn last_removal(calls: Seq<(Vec<String>, usize)>, owner: Seq<char>) -> Option<usize>
    decreases calls.len(),
{
    if calls.len() == 0 {
        None
    } else {
        let c = calls.last();
        if (last_is(c.0@, "remove"@) || last_is(c.0@, "take"@)) && owner_of(c.0@) == Some(owner) {
            Some(c.1)
        } else {
            last_removal(calls.drop_last(), owner)
        }
    }
}

/// What SEM009 reports of an `if`: the map and the line of the removal.
pub open spec fn contains_key_finding(s: ContainsKeyIf) -> Option<(Seq<char>, usize)> {
    match owner_of(s.path@) {
        Some(owner) => if last_is(s.path@, "contains_key"@) {
            match last_removal(s.then_calls@, owner) {
                Some(l) => Some((owner, l)),
                None => None,
            }
        } else {
            None
        },
        None => None,
    }
}

/// The message of a SEM009 finding.
pub open spec fn contains_key_message(owner: Seq<char>) -> Seq<char> {
    "`"@ + owner + "::contains_key()` before `"@ + owner
        + "::remove()`/`take()` is a wasted storage read"@
}

/// The SEM009 diagnostic of an `if`.
pub open spec fn sem009_model(file: Seq<char>, sev: Severity, s: ContainsKeyIf, owner: Seq<char>, removal: usize) -> DiagnosticModel {
    DiagnosticModel {
        rule_id: "SEM009"@,
        rule_name: "redundant-contains-key-before-remove"@,
        category: RuleCategory::Semantic,
        severity: sev,
        file,
        line: s.line as nat,
        column: Some(s.column as nat),
        end_line: Some(removal as nat),
        message: contains_key_message(owner),
        explanation: "`remove()` is idempotent — it does nothing if the key doesn't exist. The `contains_key()` check is an unnecessary extra storage read."@,
        suggestion: Some("Remove the `contains_key()` check and call `remove()` directly"@),
    }
}

/// The SEM009 diagnostics of a file's `if`s, in order.
pub open spec fn sem009_found(ifs: Seq<ContainsKeyIf>, file: Seq<char>, sev: Severity) -> Seq<DiagnosticModel>
    decreases ifs.len(),
{
    if ifs.len() == 0 {
        seq![]
    } else {
        let rest = sem009_found(ifs.drop_last(), file, sev);
        match contains_key_finding(ifs.last()) {
            Some((owner, l)) => rest.push(sem009_model(file, sev, ifs.last(), owner, l)),
            None => rest,
        }
    }
}

/// The line of the last `remove` or `take` of the map `owner`.
fn last_removal_exec(calls: &Vec<(Vec<String>, usize)>, owner: &Vec<char>) -> (r: Option<usize>)
    ensures
        r == last_removal(calls@, owner@),
{
    let mut k: usize = calls.len();
    assert(calls@.take(k as int) =~= calls@);
    while k > 0
        invariant
            k <= calls@.len(),
            last_removal(calls@, owner@) == last_removal(calls@.take(k as int), owner@),
        decreases k,
    {
        let c = &calls[k - 1];
        assert(calls@.take(k as int).drop_last() =~= calls@.take(k - 1));
        assert(calls@.take(k as int).last() == *c);
        if last_is_exec(&c.0, "remove") || last_is_exec(&c.0, "take") {
            match owner_of_exec(&c.0) {
                Some(o) => {
                    if crate::text::chars_equal(&o, owner) {
                        return Some(c.1);
                    }
                },
                None => {},
            }
        }
        k -= 1;
    }
    None
}

impl RedundantContainsKeyBeforeRemove {
    /// Reports each `if Map::contains_key(..)` whose branch then removes or
    /// takes from the same map, up to the last such removal. `ifs` are the
    /// file's `if`s whose condition is a call of a path, in the syntax
    /// tree's order (`None` when it did not parse).
    pub fn check(&self, ctx: &FileContext, config: &Config, ifs: Option<Vec<ContainsKeyIf>>) -> (r: Option<Vec<Diagnostic>>)
        ensures
            (!ctx.is_rust || ctx.is_test_file || ifs is None) ==> r is None,
            (ctx.is_rust && !ctx.is_test_file && ifs is Some) ==> report_of(
                sem009_found(ifs->0@, ctx.path@, config.spec_rule_severity("SEM009"@, Severity::Advisory)),
                r,
            ),
    {
        if !ctx.is_rust || ctx.is_test_file {
            return None;
        }
        let ifs = match ifs {
            Some(i) => i,
            None => return None,
        };
        let severity = config.rule_severity(self.id(), Severity::Advisory);
        let mut diagnostics: Vec<Diagnostic> = Vec::new();
        let mut i: usize = 0;
        assert(ifs@.take(0) =~= Seq::<ContainsKeyIf>::empty());
        while i < ifs.len()
            invariant
                i <= ifs@.len(),
                models(diagnostics@) == sem009_found(ifs@.take(i as int), ctx.path@, severity),
            decreases ifs.len() - i,
        {
            let s = &ifs[i];
            assert(ifs@.take(i + 1).drop_last() =~= ifs@.take(i as int));
            assert(ifs@.take(i + 1).last() == *s);
            if last_is_exec(&s.path, "contains_key") {
                match owner_of_exec(&s.path) {
                    Some(owner) => {
                        match last_removal_exec(&s.then_calls, &owner) {
                            Some(removal) => {
                                let m = concat(&chars_of("`"), &owner);
                                let m = push_str(m, "::contains_key()` before `");
                                let m = concat(&m, &owner);
                                let m = push_str(m, "::remove()`/`take()` is a wasted storage read");
                                let ghost before = models(diagnostics@);
                                diagnostics.push(
                                    make_diagnostic(
                                        self.id(),
                                        self.name(),
                                        RuleCategory::Semantic,
                                        severity,
                                        &ctx.path,
                                        s.line,
                                        Some(s.column),
                                        Some(removal),
                                        string_of(&m),
                                        "`remove()` is idempotent — it does nothing if the key doesn't exist. The `contains_key()` check is an unnecessary extra storage read.",
                                        Some("Remove the `contains_key()` check and call `remove()` directly".to_owned()),
                                    ),
                                );
                                assert(models(diagnostics@) =~= before.push(
                                    sem009_model(ctx.path@, severity, *s, owner@, removal),
                                ));
                            },
                            None => {},
                        }
                    },
                    None => {},
                }
            }
            i += 1;
        }
        assert(ifs@.take(ifs@.len() as int) =~= ifs@);
        into_report(diagnostics)
    }
}

// ---------------------------------------------------------------------------
// SEM010: `^` for a power
// ---------------------------------------------------------------------------

/// A `^` expression: its position and its operands when they are integer
/// literals that fit in a `u64`.
pub struct XorSite {
    pub line: usize,
    pub column: usize,
    pub left: Option<u64>,
    pub right: Option<u64>,
}

/// A `10 ^ n`, `2 ^ n` or `100 ^ n` with `n > 3`, most likely meant as a
/// power: its base and exponent.
pub open spec fn xor_as_power(s: XorSite) -> Option<(u64, u64)> {
    match (s.left, s.right) {
        (Some(base), Some(exp)) => if (base == 10 || base == 2 || base == 100) && exp > 3 {
            Some((base, exp))
        } else {
            None
        },
        _ => None,
    }
}

/// The SEM010 diagnostic of a `^`.
pub open spec fn sem010_model(file: Seq<char>, sev: Severity, s: XorSite, base: u64, exp: u64) -> DiagnosticModel {
    DiagnosticModel {
        rule_id: "SEM010"@,
        rule_name: "xor-as-exponentiation"@,
        category: RuleCategory::Semantic,
        severity: sev,
        file,
        line: s.line as nat,
        column: Some(s.column as nat),
        end_line: None,
        message: "`"@ + decimal(base as nat) + " ^ "@ + decimal(exp as nat) + "` is bitwise XOR (= "@
            + decimal((base ^ exp) as nat) + "), not exponentiation"@,
        explanation: "In Rust, `^` is bitwise XOR, not exponentiation. `10 ^ 16` evaluates to `26`, not `10000000000000000`."@,
        suggestion: Some("Use `"@ + decimal(base as nat) + "_u128.pow("@ + decimal(exp as nat) + ")` instead"@),
    }
}

/// The SEM010 diagnostics of a file's `^` expressions, in order.
pub open spec fn sem010_found(sites: Seq<XorSite>, file: Seq<char>, sev: Severity) -> Seq<DiagnosticModel>
    decreases sites.len(),
{
    if sites.len() == 0 {
        seq![]
    } else {
        let rest = sem010_found(sites.drop_last(), file, sev);
        match xor_as_power(sites.last()) {
            Some((b, e)) => rest.push(sem010_model(file, sev, sites.last(), b, e)),
            None => rest,
        }
    }
}

impl XorAsExponentiation {
    /// Reports each `10 ^ n`, `2 ^ n` and `100 ^ n` with `n > 3`, with the
    /// value the XOR gives. `sites` are the file's `^` expressions in the
    /// syntax tree's order (`None` when it did not parse).
    pub fn check(&self, ctx: &FileContext, config: &Config, sites: Option<Vec<XorSite>>) -> (r: Option<Vec<Diagnostic>>)
        ensures
            (!ctx.is_rust || sites is None) ==> r is None,
            (ctx.is_rust && sites is Some) ==> report_of(
                sem010_found(sites->0@, ctx.path@, config.spec_rule_severity("SEM010"@, Severity::Error)),
                r,
            ),
    {
        if !ctx.is_rust {
            return None;
        }
        let sites = match sites {
            Some(s) => s,
            None => return None,
        };
        let severity = config.rule_severity(self.id(), Severity::Error);
        let mut diagnostics: Vec<Diagnostic> = Vec::new();
        let mut i: usize = 0;
        assert(sites@.take(0) =~= Seq::<XorSite>::empty());
        while i < sites.len()
            invariant
                i <= sites@.len(),
                models(diagnostics@) == sem010_found(sites@.take(i as int), ctx.path@, severity),
            decreases sites.len() - i,
        {
            let s = &sites[i];
            assert(sites@.take(i + 1).drop_last() =~= sites@.take(i as int));
            assert(sites@.take(i + 1).last() == *s);
            match (s.left, s.right) {
                (Some(base), Some(exp)) => {
                    if (base == 10 || base == 2 || base == 100) && exp > 3 {
                        let b = decimal_u64_exec(base);
                        let e = decimal_u64_exec(exp);
                        let m = concat(&chars_of("`"), &b);
                        let m = push_str(m, " ^ ");
                        let m = concat(&m, &e);
                        let m = push_str(m, "` is bitwise XOR (= ");
                        let m = concat(&m, &decimal_u64_exec(base ^ exp));
                        let m = push_str(m, "), not exponentiation");
                        let g = concat(&chars_of("Use `"), &b);
                        let g = push_str(g, "_u128.pow(");
                        let g = concat(&g, &e);
                        let g = push_str(g, ")` instead");
                        let ghost before = models(diagnostics@);
                        diagnostics.push(
                            make_diagnostic(
                                self.id(),
                                self.name(),
                                RuleCategory::Semantic,
                                severity,
                                &ctx.path,
                                s.line,
                                Some(s.column),
                                None,
                                string_of(&m),
                                "In Rust, `^` is bitwise XOR, not exponentiation. `10 ^ 16` evaluates to `26`, not `10000000000000000`.",
                                Some(string_of(&g)),
                            ),
                        );
                        assert(models(diagnostics@) =~= before.push(
                            sem010_model(ctx.path@, severity, *s, base, exp),
                        ));
                    }
                },
                _ => {},
            }
            i += 1;
        }
        assert(sites@.take(sites@.len() as int) =~= sites@);
        into_report(diagnostics)
    }
}

// ---------------------------------------------------------------------------
// SEC003: decoding without a depth limit
// ---------------------------------------------------------------------------

/// A `decode` of a runtime call or extrinsic type, with no depth limit.
pub open spec fn unlimited_runtime_decode(s: PathCallSite) -> bool {
    &&& last_is(s.path@, "decode"@)
    &&& !has_segment(s.path@, "DecodeLimit"@)
    &&& !last_is(s.path@, "decode_with_depth_limit"@)
    &&& !last_is(s.path@, "decode_all_with_depth_limit"@)
    &&& (contains(s.compact@, "RuntimeCall"@) || contains(s.compact@, "UncheckedExtrinsic"@)
        || contains(s.compact@, "OpaqueExtrinsic"@))
}

/// The SEC003 diagnostic of a call.
pub open spec fn sec003_model(file: Seq<char>, sev: Severity, s: PathCallSite) -> DiagnosticModel {
    DiagnosticModel {
        rule_id: "SEC003"@,
        rule_name: "missing-decode-depth-limit"@,
        category: RuleCategory::Semantic,
        severity: sev,
        file,
        line: s.line as nat,
        column: Some(s.column as nat),
        end_line: None,
        message: "`Decode::decode()` without depth limit — risk of stack exhaustion"@,
        explanation: "Decoding user-supplied data without a recursion depth limit allows attackers to craft deeply nested structures (e.g., `batch(batch(batch(...)))`) that exhaust the stack. Use `decode_with_depth_limit(MAX_DEPTH, &mut input)` instead."@,
        suggestion: Some(
            "Replace with `Decode::decode_with_depth_limit(sp_io::MAX_EXTRINSIC_DEPTH, &mut input)`"@,
        ),
    }
}

/// The SEC003 diagnostics of a file's calls, in order.
pub open spec fn sec003_found(calls: Seq<PathCallSite>, mask: Seq<bool>, file: Seq<char>, sev: Severity) -> Seq<DiagnosticModel>
    decreases calls.len(),
{
    if calls.len() == 0 {
        seq![]
    } else {
        let rest = sec003_found(calls.drop_last(), mask, file, sev);
        let c = calls.last();
        if !masked_line(mask, c.line as nat) && unlimited_runtime_decode(c) {
            rest.push(sec003_model(file, sev, c))
        } else {
            rest
        }
    }
}

/// Whether a call decodes a runtime call with no depth limit.
fn unlimited_runtime_decode_exec(s: &PathCallSite) -> (r: bool)
    ensures
        r == unlimited_runtime_decode(*s),
{
    let compact = chars_of(s.compact.as_str());
    last_is_exec(&s.path, "decode") && !has_segment_exec(&s.path, "DecodeLimit") && !last_is_exec(
        &s.path,
        "decode_with_depth_limit",
    ) && !last_is_exec(&s.path, "decode_all_with_depth_limit") && (contains_str(
        &compact,
        "RuntimeCall",
    ) || contains_str(&compact, "UncheckedExtrinsic") || contains_str(&compact, "OpaqueExtrinsic"))
}

impl MissingDecodeDepthLimit {
    /// Reports each `decode` of a `RuntimeCall`, `UncheckedExtrinsic` or
    /// `OpaqueExtrinsic` in production code that sets no depth limit.
    /// `calls` are the file's calls of paths in the syntax tree's order,
    /// but for those inside the arguments of `.using_encoded(..)` (`None`
    /// when it did not parse).
    pub fn check(&self, ctx: &FileContext, config: &Config, calls: Option<Vec<PathCallSite>>) -> (r: Option<Vec<Diagnostic>>)
        requires
            ctx.content@.len() <= isize::MAX,
        ensures
            (spec_should_skip_production_rule(ctx) || calls is None) ==> r is None,
            (!spec_should_skip_production_rule(ctx) && calls is Some) ==> report_of(
                sec003_found(
                    calls->0@,
                    spec_cfg_test_module_mask(lines_of(ctx.content@)),
                    ctx.path@,
                    config.spec_rule_severity("SEC003"@, Severity::Warning),
                ),
                r,
            ),
    {
        if should_skip_production_rule(ctx) {
            return None;
        }
        let calls = match calls {
            Some(c) => c,
            None => return None,
        };
        let lines = content_lines(ctx);
        let mask = cfg_test_module_mask(&lines);
        let severity = config.rule_severity(self.id(), Severity::Warning);
        let mut diagnostics: Vec<Diagnostic> = Vec::new();
        let mut i: usize = 0;
        assert(calls@.take(0) =~= Seq::<PathCallSite>::empty());
        while i < calls.len()
            invariant
                i <= calls@.len(),
                models(diagnostics@) == sec003_found(calls@.take(i as int), mask@, ctx.path@, severity),
            decreases calls.len() - i,
        {
            let c = &calls[i];
            assert(calls@.take(i + 1).drop_last() =~= calls@.take(i as int));
            assert(calls@.take(i + 1).last() == *c);
            if !masked_line_exec(&mask, c.line) && unlimited_runtime_decode_exec(c) {
                let ghost before = models(diagnostics@);
                diagnostics.push(
                    make_diagnostic(
                        self.id(),
                        self.name(),
                        RuleCategory::Semantic,
                        severity,
                        &ctx.path,
                        c.line,
                        Some(c.column),
                        None,
                        "`Decode::decode()` without depth limit — risk of stack exhaustion".to_owned(),
                        "Decoding user-supplied data without a recursion depth limit allows attackers to craft deeply nested structures (e.g., `batch(batch(batch(...)))`) that exhaust the stack. Use `decode_with_depth_limit(MAX_DEPTH, &mut input)` instead.",
                        Some(
                            "Replace with `Decode::decode_with_depth_limit(sp_io::MAX_EXTRINSIC_DEPTH, &mut input)`".to_owned(),
                        ),
                    ),
                );
                assert(models(diagnostics@) =~= before.push(sec003_model(ctx.path@, severity, *c)));
            }
            i += 1;
        }
        assert(calls@.take(calls@.len() as int) =~= calls@);
        into_report(diagnostics)
    }
}

// ---------------------------------------------------------------------------
// SEC012: `clear_prefix` without a limit
// ---------------------------------------------------------------------------

/// A comment that documents the unbounded deletion as bounded in practice.
pub open spec fn documents_bounded_clear(comment: Seq<char>) -> bool {
    let c = to_ascii_lowercase(comment);
    contains(c, "safe to remove unbounded"@) && contains(c, "at most"@)
}

/// One of lines `lo` to `hi` (exclusive) has such a comment.
pub open spec fn bounded_clear_window(lines: Seq<Seq<char>>, lo: int, hi: int) -> bool {
    exists|k: int|
        lo <= k < hi && match comment_of(#[trigger] lines[k]) {
            Some(c) => documents_bounded_clear(c),
            None => false,
        }
}

/// A `clear_prefix` of production code with an unbounded limit and no
/// comment in the three lines above that documents it.
pub open spec fn unbounded_clear_flagged(s: PathCallSite, lines: Seq<Seq<char>>, mask: Seq<bool>) -> bool {
    let cur = s.line - 1;
    &&& !masked_line(mask, s.line as nat)
    &&& last_is(s.path@, "clear_prefix"@)
    &&& s.unbounded_second_arg
    &&& !bounded_clear_window(lines, sat_sub(cur, 3), cur)
}

/// The SEC012 diagnostic of a call.
pub open spec fn sec012_model(file: Seq<char>, sev: Severity, s: PathCallSite) -> DiagnosticModel {
    DiagnosticModel {
        rule_id: "SEC012"@,
        rule_name: "unbounded-clear-prefix"@,
        category: RuleCategory::Semantic,
        severity: sev,
        file,
        line: s.line as nat,
        column: Some(s.column as nat),
        end_line: None,
        message: "`clear_prefix` is called with an unbounded deletion limit"@,
        explanation: "Calling `clear_prefix` with `None` or `u32::MAX` can delete an unbounded number of keys in one execution path, creating unpredictable weight and DoS risk."@,
        suggestion: Some("Pass a strict bounded limit and handle continuation over multiple calls"@),
    }
}

/// The SEC012 diagnostics of a file's calls, in order.
pub open spec fn sec012_found(
    calls: Seq<PathCallSite>,
    lines: Seq<Seq<char>>,
    mask: Seq<bool>,
    file: Seq<char>,
    sev: Severity,
) -> Seq<DiagnosticModel>
    decreases calls.len(),
{
    if calls.len() == 0 {
        seq![]
    } else {
        let rest = sec012_found(calls.drop_last(), lines, mask, file, sev);
        if unbounded_clear_flagged(calls.last(), lines, mask) {
            rest.push(sec012_model(file, sev, calls.last()))
        } else {
            rest
        }
    }
}

/// Whether one of lines `lo` to `hi` documents the deletion as bounded.
fn bounded_clear_window_exec(lines: &Vec<Vec<char>>, lo: usize, hi: usize) -> (r: bool)
    requires
        hi <= lines@.len(),
    ensures
        r == bounded_clear_window(lines_view(lines@), lo as int, hi as int),
{
    let ghost lv = lines_view(lines@);
    let mut k: usize = lo;
    while k < hi
        invariant
            lo <= k,
            hi <= lines@.len(),
            lv == lines_view(lines@),
            forall|j: int|
                lo <= j < k ==> !match comment_of(#[trigger] lv[j]) {
                    Some(c) => documents_bounded_clear(c),
                    None => false,
                },
        decreases hi - k,
    {
        assert(lv[k as int] == lines@[k as int]@);
        match comment_of_exec(&lines[k]) {
            Some(c) => {
                let lower = to_ascii_lowercase_exec(&c);
                if contains_str(&lower, "safe to remove unbounded") && contains_str(&lower, "at most") {
                    return true;
                }
            },
            None => {},
        }
        k += 1;
    }
    false
}

/// Whether SEC012 reports a call.
fn unbounded_clear_flagged_exec(s: &PathCallSite, lines: &Vec<Vec<char>>, mask: &Vec<bool>) -> (r: bool)
    requires
        1 <= s.line <= lines@.len(),
    ensures
        r == unbounded_clear_flagged(*s, lines_view(lines@), mask@),
{
    if masked_line_exec(mask, s.line) || !last_is_exec(&s.path, "clear_prefix") || !s.unbounded_second_arg {
        return false;
    }
    let cur: usize = s.line - 1;
    let lo: usize = if cur >= 3 {
        cur - 3
    } else {
        0
    };
    !bounded_clear_window_exec(lines, lo, cur)
}

impl UnboundedClearPrefix {
    /// Reports each `clear_prefix` of production code whose limit is
    /// `None`, `MAX` or `Some` of one, unless a comment in the three lines
    /// above documents it as safe. `calls` are the file's calls of paths in
    /// the syntax tree's order (`None` when it did not parse); each stands
    /// on a line of the file.
    pub fn check(&self, ctx: &FileContext, config: &Config, calls: Option<Vec<PathCallSite>>) -> (r: Option<Vec<Diagnostic>>)
        requires
            ctx.content@.len() <= isize::MAX,
            calls matches Some(cs) ==> forall|k: int|
                0 <= k < cs@.len() ==> 1 <= #[trigger] cs@[k].line <= lines_of(ctx.content@).len(),
        ensures
            (spec_should_skip_production_rule(ctx) || spec_is_frame_support_migration_infrastructure(
                ctx.path@,
            ) || calls is None) ==> r is None,
            (!spec_should_skip_production_rule(ctx) && !spec_is_frame_support_migration_infrastructure(
                ctx.path@,
            ) && calls is Some) ==> report_of(
                sec012_found(
                    calls->0@,
                    lines_of(ctx.content@),
                    spec_cfg_test_module_mask(lines_of(ctx.content@)),
                    ctx.path@,
                    config.spec_rule_severity("SEC012"@, Severity::Warning),
                ),
                r,
            ),
    {
        if should_skip_production_rule(ctx) {
            return None;
        }
        if is_frame_support_migration_infrastructure(ctx.path.as_str()) {
            return None;
        }
        let calls = match calls {
            Some(c) => c,
            None => return None,
        };
        let lines = content_lines(ctx);
        let ghost lv = lines_view(lines@);
        let mask = cfg_test_module_mask(&lines);
        let severity = config.rule_severity(self.id(), Severity::Warning);
        let mut diagnostics: Vec<Diagnostic> = Vec::new();
        let mut i: usize = 0;
        assert(calls@.take(0) =~= Seq::<PathCallSite>::empty());
        while i < calls.len()
            invariant
                i <= calls@.len(),
                lv == lines_view(lines@),
                lv == lines_of(ctx.content@),
                forall|k: int| 0 <= k < calls@.len() ==> 1 <= #[trigger] calls@[k].line <= lv.len(),
                models(diagnostics@) == sec012_found(calls@.take(i as int), lv, mask@, ctx.path@, severity),
            decreases calls.len() - i,
        {
            let c = &calls[i];
            assert(calls@.take(i + 1).drop_last() =~= calls@.take(i as int));
            assert(calls@.take(i + 1).last() == *c);
            assert(1 <= calls@[i as int].line <= lv.len());
            if unbounded_clear_flagged_exec(c, &lines, &mask) {
                let ghost before = models(diagnostics@);
                diagnostics.push(
                    make_diagnostic(
                        self.id(),
                        self.name(),
                        RuleCategory::Semantic,
                        severity,
                        &ctx.path,
                        c.line,
                        Some(c.column),
                        None,
                        "`clear_prefix` is called with an unbounded deletion limit".to_owned(),
                        "Calling `clear_prefix` with `None` or `u32::MAX` can delete an unbounded number of keys in one execution path, creating unpredictable weight and DoS risk.",
                        Some("Pass a strict bounded limit and handle continuation over multiple calls".to_owned()),
                    ),
                );
                assert(models(diagnostics@) =~= before.push(sec012_model(ctx.path@, severity, *c)));
            }
            i += 1;
        }
        assert(calls@.take(calls@.len() as int) =~= calls@);
        into_report(diagnostics)
    }
}

} // verus!
