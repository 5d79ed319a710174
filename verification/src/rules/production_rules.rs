//! Production-code rules whose findings the compiler-backed driver also
//! reports; here they run on the syntax tree's sites and the file's text.
use vstd::prelude::*;
use crate::config::Config;
use crate::context::{rust_file_parses, walked_on, FileContext};
use crate::diagnostics::{
    into_report, make_diagnostic, models, report_of, Diagnostic, DiagnosticModel, RuleCategory,
    Severity,
};
use crate::rules::masks::{
    cfg_test_module_mask, const_unit_initializer_mask, genesis_build_mask,
    genesis_config_impl_mask, integrity_test_mask, merge_masks, spec_block_mask,
    spec_cfg_test_module_mask, spec_item_mask, spec_merge_masks, strip_ws, strip_ws_exec,
    BlockStart, MaskAttr,
};
use crate::rules::paths::{
    is_documented_benchmark_test_builder, is_runtime_or_pallet_security_path, path_file_name,
    spec_is_documented_benchmark_test_builder, spec_is_runtime_or_pallet_security_path,
    std_path_file_name,
};
use crate::rules::semantic::{
    content_lines, should_skip_production_rule, spec_should_skip_production_rule,
    DebugAssertInProduction, PanicInProduction,
};
use crate::rules::syntax_rules::{masked_line, masked_line_exec};
use crate::rules::LintRule;
use crate::text::{
    chars_of, concat, contains, contains_str, copy_range, ends_with, ends_with_str, equals_str,
    find, find_exec, is_ascii_alnum, is_ascii_alnum_exec, lines_of, lines_view, occurs_at,
    occurs_at_exec, push_str, starts_with, starts_with_str, to_ascii_lowercase,
    to_ascii_lowercase_exec,
};

verus! {

// ---------------------------------------------------------------------------
// Reading comments and context around a line
// ---------------------------------------------------------------------------

/// The text after the first `//` of a line, if it has one.
pub open spec fn comment_of(line: Seq<char>) -> Option<Seq<char>> {
    match find(line, "//"@) {
        Some(i) => Some(line.skip(i + 2)),
        None => None,
    }
}

/// The text after the first `//` of a line, if it has one.
pub fn comment_of_exec(line: &Vec<char>) -> (r: Option<Vec<char>>)
    ensures
        match r {
            Some(c) => comment_of(line@) == Some(c@),
            None => comment_of(line@) is None,
        },
{
    proof {
        reveal_strlit("//");
    }
    let sep = chars_of("//");
    assert(sep@.len() == 2);
    match find_exec(line, &sep) {
        Some(i) => {
            assert(crate::text::is_first_occurrence(line@, sep@, i as int));
            assert(occurs_at(line@, sep@, i as int));
            assert(i + 2 <= line@.len());
            assert(line@.len() == line.len());
            let start: usize = i + 2;
            let c = copy_range(line, start, line.len());
            assert(c@ =~= line@.skip(i + 2));
            Some(c)
        },
        None => None,
    }
}

/// The last index at or below `i` where `p` occurs in `s`.
pub open spec fn last_occurrence(s: Seq<char>, p: Seq<char>, i: int) -> Option<int>
    decreases i + 1,
{
    if i < 0 {
        None
    } else if occurs_at(s, p, i) {
        Some(i)
    } else {
        last_occurrence(s, p, i - 1)
    }
}

/// Where `p` last occurs in `s` (`str::rfind`, counted in characters).
pub open spec fn rfind(s: Seq<char>, p: Seq<char>) -> Option<int> {
    last_occurrence(s, p, s.len() - p.len())
}

/// Where `p` last occurs in `s`.
pub fn rfind_exec(s: &Vec<char>, p: &Vec<char>) -> (r: Option<usize>)
    ensures
        match r {
            Some(i) => rfind(s@, p@) == Some(i as int) && i + p@.len() <= s@.len(),
            None => rfind(s@, p@) is None,
        },
{
    if p.len() > s.len() {
        return None;
    }
    let mut i: usize = s.len() - p.len();
    loop
        invariant
            i <= s@.len() - p@.len(),
            p@.len() <= s@.len(),
            rfind(s@, p@) == last_occurrence(s@, p@, i as int),
        decreases i,
    {
        if occurs_at_exec(s, p, i) {
            return Some(i);
        }
        if i == 0 {
            assert(last_occurrence(s@, p@, -1) is None);
            return None;
        }
        i -= 1;
    }
}

/// The statement that starts `rest`: up to its first `;`, or all of it.
pub open spec fn statement_of(rest: Seq<char>) -> Seq<char> {
    match find(rest, ";"@) {
        Some(j) => rest.take(j),
        None => rest,
    }
}

/// The statement that starts `rest`.
fn statement_of_exec(rest: &Vec<char>) -> (r: Vec<char>)
    ensures
        r@ == statement_of(rest@),
{
    match find_exec(rest, &chars_of(";")) {
        Some(j) => {
            let t = copy_range(rest, 0, j);
            assert(t@ =~= rest@.take(j as int));
            t
        },
        None => copy_range(rest, 0, rest.len()),
    }
}

/// Lines `lo` to `hi` (exclusive) joined with newlines.
pub open spec fn joined(lines: Seq<Seq<char>>, lo: int, hi: int) -> Seq<char>
    decreases hi - lo,
{
    if hi <= lo {
        seq![]
    } else if hi == lo + 1 {
        lines[lo]
    } else {
        joined(lines, lo, hi - 1) + "\n"@ + lines[hi - 1]
    }
}

/// Lines `lo` to `hi` (exclusive) joined with newlines.
fn joined_exec(lines: &Vec<Vec<char>>, lo: usize, hi: usize) -> (r: Vec<char>)
    requires
        hi <= lines@.len(),
    ensures
        r@ == joined(lines_view(lines@), lo as int, hi as int),
{
    let ghost lv = lines_view(lines@);
    if hi <= lo {
        return Vec::new();
    }
    let mut r = copy_range(&lines[lo], 0, lines[lo].len());
    assert(r@ =~= lv[lo as int]);
    let mut k: usize = lo + 1;
    while k < hi
        invariant
            lo < k <= hi,
            hi <= lines@.len(),
            lv == lines_view(lines@),
            r@ == joined(lv, lo as int, k as int),
        decreases hi - k,
    {
        let with_break = push_str(r, "\n");
        r = concat(&with_break, &lines[k]);
        k += 1;
    }
    r
}

/// A character of an identifier: ASCII letter or digit, or `_`.
pub open spec fn is_ident_char(c: char) -> bool {
    is_ascii_alnum(c) || c == '_'
}

/// The identifier-like words of `s` from index `i` on, `cur` being the word
/// read so far (splitting on every other character and dropping empty
/// pieces).
pub open spec fn words_from(s: Seq<char>, i: int, cur: Seq<char>) -> Seq<Seq<char>>
    decreases s.len() - i,
{
    if i < 0 || i >= s.len() {
        if cur.len() > 0 {
            seq![cur]
        } else {
            seq![]
        }
    } else if is_ident_char(s[i]) {
        words_from(s, i + 1, cur.push(s[i]))
    } else {
        (if cur.len() > 0 {
            seq![cur]
        } else {
            seq![]
        }) + words_from(s, i + 1, seq![])
    }
}

/// The identifier-like words of `s`, in order.
pub open spec fn words(s: Seq<char>) -> Seq<Seq<char>> {
    words_from(s, 0, seq![])
}

/// The identifier-like words of `s`, in order.
pub fn words_exec(s: &Vec<char>) -> (r: Vec<Vec<char>>)
    ensures
        lines_view(r@) == words(s@),
{
    let mut r: Vec<Vec<char>> = Vec::new();
    let mut cur: Vec<char> = Vec::new();
    let mut i: usize = 0;
    assert(lines_view(r@) + words_from(s@, 0, cur@) =~= words(s@));
    while i < s.len()
        invariant
            i <= s@.len(),
            lines_view(r@) + words_from(s@, i as int, cur@) == words(s@),
        decreases s.len() - i,
    {
        let c = s[i];
        if is_ascii_alnum_exec(c) || c == '_' {
            cur.push(c);
        } else {
            if cur.len() > 0 {
                let ghost before = lines_view(r@);
                let ghost cv = cur@;
                r.push(cur);
                assert(lines_view(r@) =~= before.push(cv));
                assert(lines_view(r@) + words_from(s@, i + 1, seq![]) =~= before + (seq![cv]
                    + words_from(s@, i + 1, seq![])));
            } else {
                assert(seq![] + words_from(s@, i + 1, seq![]) =~= words_from(s@, i + 1, seq![]));
            }
            cur = Vec::new();
            assert(cur@ =~= Seq::<char>::empty());
        }
        i += 1;
    }
    if cur.len() > 0 {
        let ghost before = lines_view(r@);
        let ghost cv = cur@;
        r.push(cur);
        assert(lines_view(r@) =~= before + seq![cv]);
    } else {
        assert(lines_view(r@) =~= lines_view(r@) + Seq::<Seq<char>>::empty());
    }
    r
}

// ---------------------------------------------------------------------------
// SEC002: `debug_assert!` in production code
// ---------------------------------------------------------------------------

/// The text, ASCII case ignored, says the condition is a proven invariant.
pub open spec fn text_marks_proven_invariant(text: Seq<char>) -> bool {
    let lower = to_ascii_lowercase(text);
    ||| contains(lower, "qed"@)
    ||| contains(lower, "checked in prep"@)
    ||| contains(lower, "checked by"@)
    ||| contains(lower, "invariant"@)
    ||| contains(lower, "precondition"@)
    ||| contains(lower, "defensive"@)
    ||| contains(lower, "should not fail"@)
    ||| contains(lower, "should never"@)
    ||| contains(lower, "should resolve to"@)
    ||| contains(lower, "should be handled"@)
    ||| contains(lower, "was supposed to be"@)
    ||| contains(lower, "should exist in storage"@)
    ||| contains(lower, "outgoing must be only item"@)
    ||| contains(lower, "must be in ready ring"@)
    ||| contains(lower, "implies there are pages"@)
    ||| contains(lower, "we never bail"@)
    ||| contains(lower, "cannot change in any case"@)
}

/// Whether the text says the condition is a proven invariant.
pub fn text_marks_proven_invariant_exec(text: &Vec<char>) -> (r: bool)
    ensures
        r == text_marks_proven_invariant(text@),
{
    let lower = to_ascii_lowercase_exec(text);
    contains_str(&lower, "qed") || contains_str(&lower, "checked in prep") || contains_str(&lower, "checked by") || contains_str(&lower, "invariant") || contains_str(&lower, "precondition") || contains_str(&lower, "defensive") || contains_str(&lower, "should not fail") || contains_str(&lower, "should never") || contains_str(&lower, "should resolve to") || contains_str(&lower, "should be handled") || contains_str(&lower, "was supposed to be") || contains_str(&lower, "should exist in storage") || contains_str(&lower, "outgoing must be only item") || contains_str(&lower, "must be in ready ring") || contains_str(&lower, "implies there are pages") || contains_str(&lower, "we never bail") || contains_str(&lower, "cannot change in any case")
}

/// A comment says the condition is a proven invariant or a sanity check.
pub open spec fn comment_marks_proven_invariant(comment: Seq<char>) -> bool {
    let lower = to_ascii_lowercase(comment);
    ||| text_marks_proven_invariant(comment)
    ||| contains(lower, "state is sane"@)
    ||| contains(lower, "sane things"@)
    ||| contains(lower, "sanity"@)
    ||| contains(lower, "post-condition"@)
    ||| contains(lower, "postcondition"@)
    ||| contains(lower, "consistency check"@)
    ||| contains(lower, "state is not corrupted"@)
    ||| contains(lower, "assumption of the trait"@)
    ||| (contains(lower, "safety:"@) && (contains(lower, "validated by the caller"@) || contains(
        lower,
        "caller ensures"@,
    )))
    ||| contains(lower, "verified by the client"@)
    ||| contains(lower, "verify the expectation"@)
}

/// Whether a comment says the condition is a proven invariant.
pub fn comment_marks_proven_invariant_exec(comment: &Vec<char>) -> (r: bool)
    ensures
        r == comment_marks_proven_invariant(comment@),
{
    let lower = to_ascii_lowercase_exec(comment);
    text_marks_proven_invariant_exec(comment) || contains_str(&lower, "state is sane") || contains_str(&lower, "sane things") || contains_str(&lower, "sanity") || contains_str(&lower, "post-condition") || contains_str(&lower, "postcondition") || contains_str(&lower, "consistency check") || contains_str(&lower, "state is not corrupted") || contains_str(&lower, "assumption of the trait") || (contains_str(&lower, "safety:")
        && (contains_str(&lower, "validated by the caller") || contains_str(
        &lower,
        "caller ensures",
    ))) || contains_str(&lower, "verified by the client") || contains_str(&lower, "verify the expectation")
}

/// One of lines `lo` to `hi` (exclusive) has a comment that marks a proven
/// invariant.
pub open spec fn comment_window_marks(lines: Seq<Seq<char>>, lo: int, hi: int) -> bool {
    exists|k: int|
        lo <= k < hi && match comment_of(#[trigger] lines[k]) {
            Some(c) => comment_marks_proven_invariant(c),
            None => false,
        }
}

/// Whether one of lines `lo` to `hi` has a comment marking a proven
/// invariant.
fn comment_window_marks_exec(lines: &Vec<Vec<char>>, lo: usize, hi: usize) -> (r: bool)
    requires
        hi <= lines@.len(),
    ensures
        r == comment_window_marks(lines_view(lines@), lo as int, hi as int),
{
    let ghost lv = lines_view(lines@);
    let mut k: usize = lo;
    while k < hi
        invariant
            lo <= k,
            hi <= lines@.len(),
            lv == lines_view(lines@),
            forall|j: int|
                lo <= j < k ==> !match comment_of(#[trigger] lv[j]) {
                    Some(c) => comment_marks_proven_invariant(c),
                    None => false,
                },
        decreases hi - k,
    {
        assert(lv[k as int] == lines@[k as int]@);
        match comment_of_exec(&lines[k]) {
            Some(c) => {
                if comment_marks_proven_invariant_exec(&c) {
                    return true;
                }
            },
            None => {},
        }
        k += 1;
    }
    false
}

/// `a - b`, or 0 when `b` is larger.
pub open spec fn sat_sub(a: int, b: int) -> int {
    if a >= b {
        a - b
    } else {
        0
    }
}

/// After the last `b` in `context`, the rest contains `x`.
pub open spec fn binding_followed_by(context: Seq<char>, b: Seq<char>, x: Seq<char>) -> bool {
    match rfind(context, b) {
        Some(i) => contains(context.skip(i), x),
        None => false,
    }
}

/// The statement that starts at the last `b` in `context` contains `x`.
pub open spec fn statement_contains(context: Seq<char>, b: Seq<char>, x: Seq<char>) -> bool {
    match rfind(context, b) {
        Some(i) => contains(statement_of(context.skip(i)), x),
        None => false,
    }
}

/// Whether the statement that starts at the last `b` in `context`
/// contains `x`; with `whole`, whether the rest after it does.
fn after_last_contains(context: &Vec<char>, b: &Vec<char>, x: &str, whole: bool) -> (r: bool)
    ensures
        r == if whole {
            binding_followed_by(context@, b@, x@)
        } else {
            statement_contains(context@, b@, x@)
        },
{
    match rfind_exec(context, b) {
        Some(i) => {
            let rest = copy_range(context, i, context.len());
            assert(rest@ =~= context@.skip(i as int));
            if whole {
                contains_str(&rest, x)
            } else {
                contains_str(&statement_of_exec(&rest), x)
            }
        },
        None => false,
    }
}

/// An assertion of `false` or of `.is_ok()` with an invariant comment in
/// the eight lines before line index `cur`.
pub open spec fn has_extended_invariant_comment(tokens: Seq<char>, lines: Seq<Seq<char>>, cur: int) -> bool {
    let compact = strip_ws(tokens);
    (compact == "false"@ || contains(compact, ".is_ok()"@)) && comment_window_marks(
        lines,
        sat_sub(cur, 8),
        cur,
    )
}

/// A word of the assertion names a `_`-prefixed or `_res` binding that the
/// ten lines before filled from `.defensive()`.
pub open spec fn defensive_binding(t: Seq<char>, context: Seq<char>) -> bool {
    (starts_with(t, "_"@) || ends_with(t, "_res"@)) && (binding_followed_by(
        context,
        "let "@ + t,
        ".defensive()"@,
    ) || binding_followed_by(context, "let mut "@ + t, ".defensive()"@))
}

/// The assertion checks the result of a `.defensive()` call above it.
pub open spec fn checks_defensive_result(tokens: Seq<char>, lines: Seq<Seq<char>>, cur: int) -> bool {
    let context = joined(lines, sat_sub(cur, 10), cur);
    contains(context, ".defensive()"@) && exists|k: int|
        0 <= k < words(tokens).len() && defensive_binding(#[trigger] words(tokens)[k], context)
}

/// A word of the assertion is tested with `.is_zero()` and is the remainder
/// of an `unreserve(` or `slash_reserved(` just above.
pub open spec fn balance_remainder_word(t: Seq<char>, compact: Seq<char>, context: Seq<char>) -> bool {
    contains(compact, t + ".is_zero()"@) && (statement_contains(context, "let "@ + t, "unreserve("@)
        || statement_contains(context, ", "@ + t + ")"@, "slash_reserved("@) || statement_contains(
        context,
        ","@ + t + ")"@,
        "slash_reserved("@,
    ))
}

/// The assertion checks that a reserved-balance remainder is zero.
pub open spec fn checks_balance_remainder(tokens: Seq<char>, lines: Seq<Seq<char>>, cur: int) -> bool {
    let compact = strip_ws(tokens);
    let context = joined(lines, sat_sub(cur, 10), cur);
    (contains(context, "unreserve("@) || contains(context, "slash_reserved("@)) && exists|k: int|
        0 <= k < words(tokens).len() && balance_remainder_word(
            #[trigger] words(tokens)[k],
            compact,
            context,
        )
}

/// The assertion bounds the result of a documented bounded `clear_prefix`.
pub open spec fn checks_bounded_clear_prefix(tokens: Seq<char>, lines: Seq<Seq<char>>, cur: int) -> bool {
    let context = joined(lines, sat_sub(cur, 6), cur);
    let lower = to_ascii_lowercase(context);
    contains(strip_ws(tokens), ".unique<="@) && contains(context, "clear_prefix("@) && contains(
        lower,
        "safe to remove unbounded"@,
    ) && contains(lower, "at most"@)
}

/// A macro call of the syntax tree: the last segment of its path, its
/// 1-based line and column, and its tokens as written back.
pub struct MacroCallSite {
    pub name: String,
    pub line: usize,
    pub column: usize,
    pub tokens: String,
}

/// A `debug_assert!`-family macro.
pub open spec fn is_debug_assert(name: Seq<char>) -> bool {
    name == "debug_assert"@ || name == "debug_assert_eq"@ || name == "debug_assert_ne"@
}

/// A `debug_assert!` in production code that nothing marks as a checked
/// invariant.
pub open spec fn debug_assert_flagged(m: MacroCallSite, lines: Seq<Seq<char>>, mask: Seq<bool>) -> bool {
    let cur = m.line - 1;
    &&& is_debug_assert(m.name@)
    &&& !masked_line(mask, m.line as nat)
    &&& !text_marks_proven_invariant(m.tokens@)
    &&& !comment_window_marks(lines, sat_sub(cur, 4), cur + 1)
    &&& !has_extended_invariant_comment(m.tokens@, lines, cur)
    &&& !checks_defensive_result(m.tokens@, lines, cur)
    &&& !checks_balance_remainder(m.tokens@, lines, cur)
    &&& !checks_bounded_clear_prefix(m.tokens@, lines, cur)
}

/// The SEC002 diagnostic for a macro.
pub open spec fn sec002_model(file: Seq<char>, sev: Severity, m: MacroCallSite) -> DiagnosticModel {
    DiagnosticModel {
        rule_id: "SEC002"@,
        rule_name: "debug-assert-in-production"@,
        category: RuleCategory::Semantic,
        severity: sev,
        file,
        line: m.line as nat,
        column: Some(m.column as nat),
        end_line: None,
        message: "`debug_assert!` in production code — panics in debug, stripped in release"@,
        explanation: "`debug_assert!` panics in debug builds and is completely removed in release builds. Neither is correct for runtime code: panics crash the node, and silent removal means the invariant is unchecked. Use `defensive!()` or a proper error return instead."@,
        suggestion: Some("Replace with `defensive!()` or return an error"@),
    }
}

/// The SEC002 diagnostics of a file's macros, in order.
pub open spec fn sec002_found(
    ms: Seq<MacroCallSite>,
    lines: Seq<Seq<char>>,
    mask: Seq<bool>,
    file: Seq<char>,
    sev: Severity,
) -> Seq<DiagnosticModel>
    decreases ms.len(),
{
    if ms.len() == 0 {
        seq![]
    } else {
        let rest = sec002_found(ms.drop_last(), lines, mask, file, sev);
        if debug_assert_flagged(ms.last(), lines, mask) {
            rest.push(sec002_model(file, sev, ms.last()))
        } else {
            rest
        }
    }
}

/// The non-production mask of SEC002: test and non-production code, and
/// `integrity_test` functions.
pub open spec fn sec002_mask(content: Seq<char>) -> Seq<bool> {
    spec_merge_masks(
        spec_cfg_test_module_mask(lines_of(content)),
        spec_item_mask(MaskAttr::IntegrityTest, lines_of(content)),
    )
}

/// Whether the assertion is of `false` or `.is_ok()` with an invariant
/// comment in the eight lines before.
fn has_extended_invariant_comment_exec(tokens: &Vec<char>, lines: &Vec<Vec<char>>, cur: usize) -> (r: bool)
    requires
        cur <= lines@.len(),
    ensures
        r == has_extended_invariant_comment(tokens@, lines_view(lines@), cur as int),
{
    let compact = strip_ws_exec(tokens);
    if !(equals_str(&compact, "false") || contains_str(&compact, ".is_ok()")) {
        return false;
    }
    let lo: usize = if cur >= 8 {
        cur - 8
    } else {
        0
    };
    comment_window_marks_exec(lines, lo, cur)
}

/// Whether a word names a `.defensive()` binding in the context.
fn defensive_binding_exec(t: &Vec<char>, context: &Vec<char>) -> (r: bool)
    ensures
        r == defensive_binding(t@, context@),
{
    if !(starts_with_str(t, "_") || ends_with_str(t, "_res")) {
        return false;
    }
    let plain = concat(&chars_of("let "), t);
    let with_mut = concat(&chars_of("let mut "), t);
    after_last_contains(context, &plain, ".defensive()", true) || after_last_contains(
        context,
        &with_mut,
        ".defensive()",
        true,
    )
}

/// Whether the assertion checks the result of a `.defensive()` call above.
fn checks_defensive_result_exec(tokens: &Vec<char>, lines: &Vec<Vec<char>>, cur: usize) -> (r: bool)
    requires
        cur <= lines@.len(),
    ensures
        r == checks_defensive_result(tokens@, lines_view(lines@), cur as int),
{
    let lo: usize = if cur >= 10 {
        cur - 10
    } else {
        0
    };
    let context = joined_exec(lines, lo, cur);
    if !contains_str(&context, ".defensive()") {
        return false;
    }
    let ws = words_exec(tokens);
    let ghost wv = words(tokens@);
    let mut k: usize = 0;
    while k < ws.len()
        invariant
            k <= ws@.len(),
            lines_view(ws@) == wv,
            wv == words(tokens@),
            context@ == joined(lines_view(lines@), sat_sub(cur as int, 10), cur as int),
            contains(context@, ".defensive()"@),
            forall|j: int| 0 <= j < k ==> !defensive_binding(#[trigger] wv[j], context@),
        decreases ws.len() - k,
    {
        assert(wv[k as int] == ws@[k as int]@);
        if defensive_binding_exec(&ws[k], &context) {
            assert(defensive_binding(wv[k as int], context@));
            return true;
        }
        k += 1;
    }
    false
}

/// Whether a word is a zero-tested reserved-balance remainder.
fn balance_remainder_word_exec(t: &Vec<char>, compact: &Vec<char>, context: &Vec<char>) -> (r: bool)
    ensures
        r == balance_remainder_word(t@, compact@, context@),
{
    let zero = push_str(copy_range(t, 0, t.len()), ".is_zero()");
    assert(t@.subrange(0, t@.len() as int) =~= t@);
    if !crate::text::contains_exec(compact, &zero) {
        return false;
    }
    let let_binding = concat(&chars_of("let "), t);
    let spaced = push_str(concat(&chars_of(", "), t), ")");
    let tight = push_str(concat(&chars_of(","), t), ")");
    after_last_contains(context, &let_binding, "unreserve(", false) || after_last_contains(
        context,
        &spaced,
        "slash_reserved(",
        false,
    ) || after_last_contains(context, &tight, "slash_reserved(", false)
}

/// Whether the assertion checks that a reserved-balance remainder is zero.
fn checks_balance_remainder_exec(tokens: &Vec<char>, lines: &Vec<Vec<char>>, cur: usize) -> (r: bool)
    requires
        cur <= lines@.len(),
    ensures
        r == checks_balance_remainder(tokens@, lines_view(lines@), cur as int),
{
    let compact = strip_ws_exec(tokens);
    let lo: usize = if cur >= 10 {
        cur - 10
    } else {
        0
    };
    let context = joined_exec(lines, lo, cur);
    if !(contains_str(&context, "unreserve(") || contains_str(&context, "slash_reserved(")) {
        return false;
    }
    let ws = words_exec(tokens);
    let ghost wv = words(tokens@);
    let mut k: usize = 0;
    while k < ws.len()
        invariant
            k <= ws@.len(),
            lines_view(ws@) == wv,
            wv == words(tokens@),
            compact@ == strip_ws(tokens@),
            context@ == joined(lines_view(lines@), sat_sub(cur as int, 10), cur as int),
            contains(context@, "unreserve("@) || contains(context@, "slash_reserved("@),
            forall|j: int| 0 <= j < k ==> !balance_remainder_word(#[trigger] wv[j], compact@, context@),
        decreases ws.len() - k,
    {
        assert(wv[k as int] == ws@[k as int]@);
        if balance_remainder_word_exec(&ws[k], &compact, &context) {
            assert(balance_remainder_word(wv[k as int], compact@, context@));
            return true;
        }
        k += 1;
    }
    false
}

/// Whether the assertion bounds a documented bounded `clear_prefix`.
fn checks_bounded_clear_prefix_exec(tokens: &Vec<char>, lines: &Vec<Vec<char>>, cur: usize) -> (r: bool)
    requires
        cur <= lines@.len(),
    ensures
        r == checks_bounded_clear_prefix(tokens@, lines_view(lines@), cur as int),
{
    let lo: usize = if cur >= 6 {
        cur - 6
    } else {
        0
    };
    let context = joined_exec(lines, lo, cur);
    let lower = to_ascii_lowercase_exec(&context);
    contains_str(&strip_ws_exec(tokens), ".unique<=") && contains_str(&context, "clear_prefix(")
        && contains_str(&lower, "safe to remove unbounded") && contains_str(&lower, "at most")
}

/// Whether a macro is a `debug_assert!` that nothing marks as a checked
/// invariant.
fn debug_assert_flagged_exec(m: &MacroCallSite, lines: &Vec<Vec<char>>, mask: &Vec<bool>) -> (r: bool)
    requires
        1 <= m.line <= lines@.len(),
    ensures
        r == debug_assert_flagged(*m, lines_view(lines@), mask@),
{
    let name = chars_of(m.name.as_str());
    if !(equals_str(&name, "debug_assert") || equals_str(&name, "debug_assert_eq") || equals_str(
        &name,
        "debug_assert_ne",
    )) {
        return false;
    }
    if masked_line_exec(mask, m.line) {
        return false;
    }
    let tokens = chars_of(m.tokens.as_str());
    let cur: usize = m.line - 1;
    let lo: usize = if cur >= 4 {
        cur - 4
    } else {
        0
    };
    !text_marks_proven_invariant_exec(&tokens) && !comment_window_marks_exec(lines, lo, cur + 1)
        && !has_extended_invariant_comment_exec(&tokens, lines, cur)
        && !checks_defensive_result_exec(&tokens, lines, cur) && !checks_balance_remainder_exec(
        &tokens,
        lines,
        cur,
    ) && !checks_bounded_clear_prefix_exec(&tokens, lines, cur)
}

/// Every site's line is one of the `n` lines of the text.
pub open spec fn macro_call_site_lines_within(sites: Seq<MacroCallSite>, n: int) -> bool {
    forall|k: int| 0 <= k < sites.len() ==> 1 <= #[trigger] sites[k].line <= n
}

fn macro_call_site_lines_within_exec(sites: &Vec<MacroCallSite>, n: usize) -> (b: bool)
    ensures
        b == macro_call_site_lines_within(sites@, n as int),
{
    let mut k: usize = 0;
    while k < sites.len()
        invariant
            k <= sites@.len(),
            forall|j: int| 0 <= j < k ==> 1 <= #[trigger] sites@[j].line <= n,
        decreases sites.len() - k,
    {
        if sites[k].line < 1 || sites[k].line > n {
            return false;
        }
        k += 1;
    }
    true
}

impl DebugAssertInProduction {
    /// Runs the rule on the file, with `walk` reading its macro calls off its
    /// syntax tree: nothing when the file is not Rust or does not parse, or
    /// when a site's line lies outside the text.
    pub fn check_file<W: Fn(&syn::File) -> Vec<MacroCallSite>>(&self, ctx: &FileContext, config: &Config, walk: W) -> (r: Option<Vec<Diagnostic>>)
        requires
            ctx.content@.len() <= isize::MAX,
            forall|t: syn::File| walk.requires((&t,)),
        ensures
            !(ctx.is_rust && rust_file_parses(ctx.content@)) ==> r is None,
            (ctx.is_rust && rust_file_parses(ctx.content@)) ==> exists|sites: Vec<MacroCallSite>|
                #[trigger] walked_on(walk, ctx.content@, sites) && (!macro_call_site_lines_within(sites@, lines_of(ctx.content@).len() as int)
                    ==> r is None) && (macro_call_site_lines_within(sites@, lines_of(ctx.content@).len() as int) ==> (!(!spec_should_skip_production_rule(ctx) && spec_is_runtime_or_pallet_security_path(ctx.path@) && !spec_is_documented_benchmark_test_builder(ctx.path@, ctx.content@))
                    ==> r is None) && ((!spec_should_skip_production_rule(ctx) && spec_is_runtime_or_pallet_security_path(ctx.path@) && !spec_is_documented_benchmark_test_builder(ctx.path@, ctx.content@)) ==> report_of(
                    sec002_found(sites@, lines_of(ctx.content@), sec002_mask(ctx.content@), ctx.path@, config.spec_rule_severity("SEC002"@, Severity::Warning)),
                    r,
                ))),
    {
        let sites = ctx.file_sites(walk);
        match sites {
            None => None,
            Some(v) => {
                let ghost g = v;
                proof {
                    assert(walked_on(walk, ctx.content@, g));
                }
                let n = content_lines(ctx).len();
                if !macro_call_site_lines_within_exec(&v, n) {
                    return None;
                }
                self.check(ctx, config, Some(v))
            }
        }
    }

    /// Reports `debug_assert!` in runtime and pallet production code, unless
    /// its message or a comment near it marks a checked invariant or it
    /// checks a defensive result, a balance remainder or a bounded
    /// `clear_prefix`. `macros` are the file's macro calls in the syntax
    /// tree's order (`None` when it did not parse); each stands on a line of
    /// the file.
    pub fn check(&self, ctx: &FileContext, config: &Config, macros: Option<Vec<MacroCallSite>>) -> (r: Option<Vec<Diagnostic>>)
        requires
            ctx.content@.len() <= isize::MAX,
            macros matches Some(ms) ==> forall|k: int|
                0 <= k < ms@.len() ==> 1 <= #[trigger] ms@[k].line <= lines_of(ctx.content@).len(),
        ensures
            (spec_should_skip_production_rule(ctx) || !spec_is_runtime_or_pallet_security_path(ctx.path@)
                || spec_is_documented_benchmark_test_builder(ctx.path@, ctx.content@) || macros is None)
                ==> r is None,
            (!spec_should_skip_production_rule(ctx) && spec_is_runtime_or_pallet_security_path(ctx.path@)
                && !spec_is_documented_benchmark_test_builder(ctx.path@, ctx.content@) && macros is Some)
                ==> report_of(
                sec002_found(
                    macros->0@,
                    lines_of(ctx.content@),
                    sec002_mask(ctx.content@),
                    ctx.path@,
                    config.spec_rule_severity("SEC002"@, Severity::Warning),
                ),
                r,
            ),
    {
        if should_skip_production_rule(ctx) {
            return None;
        }
        if !is_runtime_or_pallet_security_path(ctx.path.as_str()) {
            return None;
        }
        if is_documented_benchmark_test_builder(ctx.path.as_str(), ctx.content.as_str()) {
            return None;
        }
        let ms = match macros {
            Some(m) => m,
            None => return None,
        };
        let lines = content_lines(ctx);
        let ghost lv = lines_view(lines@);
        let mask = merge_masks(&cfg_test_module_mask(&lines), &integrity_test_mask(&lines));
        let severity = config.rule_severity(self.id(), Severity::Warning);
        let mut diagnostics: Vec<Diagnostic> = Vec::new();
        let mut i: usize = 0;
        assert(ms@.take(0) =~= Seq::<MacroCallSite>::empty());
        while i < ms.len()
            invariant
                i <= ms@.len(),
                lv == lines_view(lines@),
                lv == lines_of(ctx.content@),
                forall|k: int| 0 <= k < ms@.len() ==> 1 <= #[trigger] ms@[k].line <= lv.len(),
                models(diagnostics@) == sec002_found(ms@.take(i as int), lv, mask@, ctx.path@, severity),
            decreases ms.len() - i,
        {
            let m = &ms[i];
            assert(ms@.take(i + 1).drop_last() =~= ms@.take(i as int));
            assert(ms@.take(i + 1).last() == *m);
            assert(1 <= ms@[i as int].line <= lv.len());
            if debug_assert_flagged_exec(m, &lines, &mask) {
                let ghost before = models(diagnostics@);
                diagnostics.push(
                    make_diagnostic(
                        self.id(),
                        self.name(),
                        RuleCategory::Semantic,
                        severity,
                        &ctx.path,
                        m.line,
                        Some(m.column),
                        None,
                        "`debug_assert!` in production code — panics in debug, stripped in release".to_owned(),
                        "`debug_assert!` panics in debug builds and is completely removed in release builds. Neither is correct for runtime code: panics crash the node, and silent removal means the invariant is unchecked. Use `defensive!()` or a proper error return instead.",
                        Some("Replace with `defensive!()` or return an error".to_owned()),
                    ),
                );
                assert(models(diagnostics@) =~= before.push(sec002_model(ctx.path@, severity, *m)));
            }
            i += 1;
        }
        assert(ms@.take(ms@.len() as int) =~= ms@);
        into_report(diagnostics)
    }
}


// ---------------------------------------------------------------------------
// SEC008: panics in production code
// ---------------------------------------------------------------------------

/// Whether a panic site is a method call or a macro call.
#[derive(PartialEq, Eq, Structural, Clone, Copy, Debug)]
pub enum PanicSiteKind {
    MethodCall,
    MacroCall,
}

/// The first argument of a method call: a string literal's value, or the
/// tokens of another expression as written back.
pub enum FirstArg {
    Literal(String),
    Tokens(String),
}

/// A method call or macro call of the syntax tree, with what the walk
/// learnt of its receiver and of the items around it.
pub struct PanicSite {
    pub kind: PanicSiteKind,
    /// The method's name, or the last segment of the macro's path.
    pub name: String,
    pub line: usize,
    pub column: usize,
    /// The macro's tokens as written back (empty for a method call).
    pub tokens: String,
    /// The method call's first argument.
    pub first_arg: Option<FirstArg>,
    /// The receiver is `NonZero*::new(<integer literal>)`: that literal.
    pub nonzero_new_literal: Option<IntLiteral>,
    /// The receiver is `x[a..b].try_into()` over a range of fixed length.
    pub fixed_range_try_into: bool,
    /// The receiver is `h.as_ref()[12..].try_into()` on an `H160` parameter.
    pub h160_suffix_try_into: bool,
    /// The receiver is `n.to_usize()` on a `BigUint` that a rejecting `if`
    /// above bounded to `u32`.
    pub bounded_biguint_to_usize: bool,
    /// The receiver is `BoundedVec<_, ConstU32<bound>>::try_from(vec![..])`:
    /// the literal's length and the bound.
    pub bounded_vec_literal: Option<(usize, u128)>,
    /// The receiver is `vec![..].try_into()`: the literal's length.
    pub vec_literal_try_into_len: Option<usize>,
    /// The site lies in an `impl` on a variant-less enum of the file.
    pub in_uninhabited_impl: bool,
    /// The site lies in an `impl` on `TestDefaultConfig`.
    pub in_test_default_impl: bool,
}

/// An integer literal as written, and its type suffix (`"u32"`, or empty).
pub struct IntLiteral {
    pub text: String,
    pub suffix: String,
}

/// The literal's text without its `u..` or `i..` type suffix.
pub open spec fn literal_without_suffix(text: Seq<char>, suffix: Seq<char>) -> Seq<char> {
    if starts_with(suffix, "u"@) || starts_with(suffix, "i"@) {
        text.take(sat_sub(text.len() as int, suffix.len() as int))
    } else {
        text
    }
}

/// `s` without its `_` separators.
pub open spec fn without_underscores(s: Seq<char>) -> Seq<char>
    decreases s.len(),
{
    if s.len() == 0 {
        seq![]
    } else if s.last() == '_' {
        without_underscores(s.drop_last())
    } else {
        without_underscores(s.drop_last()).push(s.last())
    }
}

/// The digits after a `0x`, `0o` or `0b` radix prefix, if there is one.
pub open spec fn without_radix_prefix(s: Seq<char>) -> Seq<char> {
    if starts_with(s, "0x"@) || starts_with(s, "0o"@) || starts_with(s, "0b"@) {
        s.skip(2)
    } else {
        s
    }
}

/// An integer literal is nonzero: one of its digits, once the suffix,
/// the separators and the radix prefix are gone, is not `0`.
pub open spec fn literal_is_nonzero(text: Seq<char>, suffix: Seq<char>) -> bool {
    let digits = without_radix_prefix(without_underscores(literal_without_suffix(text, suffix)));
    exists|i: int| 0 <= i < digits.len() && digits[i] != '0'
}

/// Whether an integer literal is nonzero.
pub fn integer_literal_is_nonzero(lit: &IntLiteral) -> (r: bool)
    ensures
        r == literal_is_nonzero(lit.text@, lit.suffix@),
{
    let text = chars_of(lit.text.as_str());
    let suffix = chars_of(lit.suffix.as_str());
    let body = if starts_with_str(&suffix, "u") || starts_with_str(&suffix, "i") {
        let keep: usize = if text.len() >= suffix.len() {
            text.len() - suffix.len()
        } else {
            0
        };
        let b = copy_range(&text, 0, keep);
        assert(b@ =~= text@.take(keep as int));
        b
    } else {
        text
    };
    assert(body@ == literal_without_suffix(lit.text@, lit.suffix@));
    let mut plain: Vec<char> = Vec::new();
    let mut i: usize = 0;
    while i < body.len()
        invariant
            i <= body@.len(),
            plain@ == without_underscores(body@.take(i as int)),
        decreases body.len() - i,
    {
        assert(body@.take(i + 1).drop_last() =~= body@.take(i as int));
        assert(body@.take(i + 1).last() == body@[i as int]);
        if body[i] != '_' {
            plain.push(body[i]);
        }
        i += 1;
    }
    assert(body@.take(body@.len() as int) =~= body@);
    proof {
        reveal_strlit("0x");
        reveal_strlit("0o");
        reveal_strlit("0b");
    }
    let start: usize = if starts_with_str(&plain, "0x") || starts_with_str(&plain, "0o")
        || starts_with_str(&plain, "0b") {
        2
    } else {
        0
    };
    let ghost digits = without_radix_prefix(
        without_underscores(literal_without_suffix(lit.text@, lit.suffix@)),
    );
    assert(plain@ == without_underscores(literal_without_suffix(lit.text@, lit.suffix@)));
    assert(start <= plain@.len());
    assert(digits =~= plain@.skip(start as int));
    let mut k: usize = start;
    while k < plain.len()
        invariant
            start <= k <= plain@.len(),
            digits == without_radix_prefix(
                without_underscores(literal_without_suffix(lit.text@, lit.suffix@)),
            ),
            digits =~= plain@.skip(start as int),
            forall|j: int| 0 <= j < k - start ==> digits[j] == '0',
        decreases plain.len() - k,
    {
        if plain[k] != '0' {
            assert(digits[k - start] != '0');
            return true;
        }
        k += 1;
    }
    false
}

/// What a SEC008 finding reports.
#[derive(PartialEq, Eq, Structural, Clone, Copy, Debug)]
pub enum PanicPattern {
    Unwrap,
    Expect,
    Panic,
    Unreachable,
    Todo,
    Unimplemented,
}

/// The message of a finding.
pub open spec fn panic_message(p: PanicPattern) -> Seq<char> {
    match p {
        PanicPattern::Unwrap => "`.unwrap()` in production code — can panic and halt the chain"@,
        PanicPattern::Expect => "`.expect()` in production code — can panic and halt the chain"@,
        PanicPattern::Panic => "`panic!()` in production code — can panic and halt the chain"@,
        PanicPattern::Unreachable => "`unreachable!()` in production code — can panic and halt the chain"@,
        PanicPattern::Todo => "`todo!()` in production code — can panic and halt the chain"@,
        PanicPattern::Unimplemented => "`unimplemented!()` in production code — can panic and halt the chain"@,
    }
}

/// The suggestion of a finding.
pub open spec fn panic_suggestion(p: PanicPattern) -> Seq<char> {
    match p {
        PanicPattern::Unwrap => "Use `.ok_or(Error::...)?`, `.unwrap_or_default()`, or `.defensive()`"@,
        PanicPattern::Expect => "Use `.ok_or(Error::...)?` or `.defensive()`"@,
        PanicPattern::Panic => "Return an error or use `defensive!()`"@,
        PanicPattern::Unreachable => "Use `defensive_unreachable!()` or return an error"@,
        PanicPattern::Todo => "Implement the function or return an error"@,
        PanicPattern::Unimplemented => "Implement the function or return an error"@,
    }
}

/// The message and suggestion of a finding.
fn panic_texts(p: PanicPattern) -> (r: (&'static str, &'static str))
    ensures
        r.0@ == panic_message(p),
        r.1@ == panic_suggestion(p),
{
    match p {
        PanicPattern::Unwrap => (
            "`.unwrap()` in production code — can panic and halt the chain",
            "Use `.ok_or(Error::...)?`, `.unwrap_or_default()`, or `.defensive()`",
        ),
        PanicPattern::Expect => (
            "`.expect()` in production code — can panic and halt the chain",
            "Use `.ok_or(Error::...)?` or `.defensive()`",
        ),
        PanicPattern::Panic => (
            "`panic!()` in production code — can panic and halt the chain",
            "Return an error or use `defensive!()`",
        ),
        PanicPattern::Unreachable => (
            "`unreachable!()` in production code — can panic and halt the chain",
            "Use `defensive_unreachable!()` or return an error",
        ),
        PanicPattern::Todo => (
            "`todo!()` in production code — can panic and halt the chain",
            "Implement the function or return an error",
        ),
        PanicPattern::Unimplemented => (
            "`unimplemented!()` in production code — can panic and halt the chain",
            "Implement the function or return an error",
        ),
    }
}

/// A text that says "qed", in any case.
pub open spec fn says_qed(t: Seq<char>) -> bool {
    contains(to_ascii_lowercase(t), "qed"@)
}

/// The `.expect(..)` message marks a proven invariant: a literal that says
/// "qed", or an expression written `qed` in any case.
pub open spec fn expect_marks_proven_invariant(arg: Option<FirstArg>) -> bool {
    match arg {
        Some(FirstArg::Literal(m)) => says_qed(m@),
        Some(FirstArg::Tokens(t)) => to_ascii_lowercase(t@) == "qed"@,
        None => false,
    }
}

/// A `BoundedVec` built from a `vec![..]` literal that fits its bound.
pub open spec fn bounded_vec_literal_fits(s: PanicSite) -> bool {
    match s.bounded_vec_literal {
        Some((len, bound)) => len as int <= bound as int,
        None => false,
    }
}

/// An `.expect(..)` on `vec![..].try_into()` of at most one item whose
/// message names a lower bound of one.
pub open spec fn vec_literal_fits_min_one(s: PanicSite) -> bool {
    &&& s.name@ == "expect"@
    &&& match s.first_arg {
        Some(FirstArg::Literal(m)) => contains(
            to_ascii_lowercase(m@),
            "must be greater than or equal to 1"@,
        ),
        _ => false,
    }
    &&& match s.vec_literal_try_into_len {
        Some(len) => len <= 1,
        None => false,
    }
}

/// The receiver is `NonZero*::new` of a nonzero literal.
pub open spec fn nonzero_literal_new(s: PanicSite) -> bool {
    match s.nonzero_new_literal {
        Some(l) => literal_is_nonzero(l.text@, l.suffix@),
        None => false,
    }
}

/// The receiver makes the call unable to panic.
pub open spec fn receiver_cannot_fail(s: PanicSite) -> bool {
    s.fixed_range_try_into || s.h160_suffix_try_into || s.bounded_biguint_to_usize
        || bounded_vec_literal_fits(s)
}

/// What a site reports, if anything: every `.unwrap()`, `.expect()`,
/// `panic!`, `unreachable!`, `todo!` and `unimplemented!` in production
/// code, but for the shapes that cannot fail and the messages that mark a
/// proven invariant.
pub open spec fn panic_pattern(s: PanicSite, mask: Seq<bool>) -> Option<PanicPattern> {
    if masked_line(mask, s.line as nat) || s.in_test_default_impl {
        None
    } else {
        match s.kind {
            PanicSiteKind::MethodCall => if s.name@ == "unwrap"@ && !nonzero_literal_new(s)
                && !receiver_cannot_fail(s) {
                Some(PanicPattern::Unwrap)
            } else if s.name@ == "expect"@ && !expect_marks_proven_invariant(s.first_arg)
                && !receiver_cannot_fail(s) && !vec_literal_fits_min_one(s) {
                Some(PanicPattern::Expect)
            } else {
                None
            },
            PanicSiteKind::MacroCall => if says_qed(s.tokens@) {
                None
            } else if s.name@ == "panic"@ {
                Some(PanicPattern::Panic)
            } else if s.name@ == "unreachable"@ && !s.in_uninhabited_impl {
                Some(PanicPattern::Unreachable)
            } else if s.name@ == "todo"@ {
                Some(PanicPattern::Todo)
            } else if s.name@ == "unimplemented"@ {
                Some(PanicPattern::Unimplemented)
            } else {
                None
            },
        }
    }
}

/// The SEC008 diagnostic of a site.
pub open spec fn sec008_model(file: Seq<char>, sev: Severity, s: PanicSite, p: PanicPattern) -> DiagnosticModel {
    DiagnosticModel {
        rule_id: "SEC008"@,
        rule_name: "panic-in-production"@,
        category: RuleCategory::Semantic,
        severity: sev,
        file,
        line: s.line as nat,
        column: Some(s.column as nat),
        end_line: None,
        message: panic_message(p),
        explanation: "Panics in runtime code crash the node or halt block production. FRAME provides `defensive!()` for \"should never happen\" paths, which logs an error instead of panicking. For fallible operations, propagate errors with `?` or use `unwrap_or_default()`."@,
        suggestion: Some(panic_suggestion(p)),
    }
}

/// Some finding already stands on `line`.
pub open spec fn line_taken(found: Seq<DiagnosticModel>, line: nat) -> bool {
    exists|k: int| 0 <= k < found.len() && #[trigger] found[k].line == line
}

/// The SEC008 diagnostics of a file's sites, in order, at most one per line:
/// the first site that reports on a line is the one reported.
pub open spec fn sec008_found(
    sites: Seq<PanicSite>,
    mask: Seq<bool>,
    file: Seq<char>,
    sev: Severity,
) -> Seq<DiagnosticModel>
    decreases sites.len(),
{
    if sites.len() == 0 {
        seq![]
    } else {
        let rest = sec008_found(sites.drop_last(), mask, file, sev);
        let s = sites.last();
        match panic_pattern(s, mask) {
            Some(p) => if line_taken(rest, s.line as nat) {
                rest
            } else {
                rest.push(sec008_model(file, sev, s, p))
            },
            None => rest,
        }
    }
}

/// The non-production mask of SEC008: test modules, genesis building,
/// inherent `GenesisConfig` impls, `const _: () = ..` initializers and
/// `integrity_test` functions.
pub open spec fn sec008_mask(content: Seq<char>) -> Seq<bool> {
    let lines = lines_of(content);
    spec_merge_masks(
        spec_merge_masks(
            spec_merge_masks(
                spec_cfg_test_module_mask(lines),
                spec_item_mask(MaskAttr::GenesisBuild, lines),
            ),
            spec_merge_masks(
                spec_block_mask(BlockStart::GenesisConfigImpl, lines),
                spec_block_mask(BlockStart::ConstUnitInitializer, lines),
            ),
        ),
        spec_item_mask(MaskAttr::IntegrityTest, lines),
    )
}

/// The files SEC008 reads: runtime and pallet production code, but for
/// documented benchmark builders, weight files and genesis presets.
pub open spec fn sec008_applies(ctx: &FileContext) -> bool {
    &&& !spec_should_skip_production_rule(ctx)
    &&& spec_is_runtime_or_pallet_security_path(ctx.path@)
    &&& !spec_is_documented_benchmark_test_builder(ctx.path@, ctx.content@)
    &&& !(ends_with(ctx.rel_path@, "weights.rs"@) || contains(ctx.rel_path@, "/weights/"@))
    &&& std_path_file_name(ctx.path@) != Some("genesis_config_presets.rs"@)
}

/// Any two SEC008 findings stand on different lines.
pub proof fn law_sec008_one_finding_per_line(
    sites: Seq<PanicSite>,
    mask: Seq<bool>,
    file: Seq<char>,
    sev: Severity,
)
    ensures
        forall|i: int, j: int|
            0 <= i < j < sec008_found(sites, mask, file, sev).len() ==> #[trigger] sec008_found(
                sites,
                mask,
                file,
                sev,
            )[i].line != #[trigger] sec008_found(sites, mask, file, sev)[j].line,
    decreases sites.len(),
{
    if sites.len() > 0 {
        law_sec008_one_finding_per_line(sites.drop_last(), mask, file, sev);
        let rest = sec008_found(sites.drop_last(), mask, file, sev);
        let found = sec008_found(sites, mask, file, sev);
        assert forall|i: int, j: int| 0 <= i < j < found.len() implies found[i].line != found[j].line by {
            if j == found.len() - 1 && found.len() == rest.len() + 1 {
                assert(found[i] == rest[i]);
                if found[i].line == found[j].line {
                    assert(line_taken(rest, found[j].line));
                }
            } else {
                assert(found[i] == rest[i]);
                assert(found[j] == rest[j]);
            }
        }
    }
}

/// `d` is the finding of one of the sites that report.
pub open spec fn found_at_site(
    d: DiagnosticModel,
    sites: Seq<PanicSite>,
    mask: Seq<bool>,
    file: Seq<char>,
    sev: Severity,
) -> bool {
    exists|k: int|
        0 <= k < sites.len() && (#[trigger] panic_pattern(sites[k], mask)) is Some && d
            == sec008_model(file, sev, sites[k], panic_pattern(sites[k], mask)->0)
}

/// Every SEC008 finding is that of a site that reports.
pub proof fn law_sec008_findings_come_from_sites(
    sites: Seq<PanicSite>,
    mask: Seq<bool>,
    file: Seq<char>,
    sev: Severity,
)
    ensures
        forall|i: int|
            0 <= i < sec008_found(sites, mask, file, sev).len() ==> found_at_site(
                #[trigger] sec008_found(sites, mask, file, sev)[i],
                sites,
                mask,
                file,
                sev,
            ),
    decreases sites.len(),
{
    if sites.len() > 0 {
        let init = sites.drop_last();
        law_sec008_findings_come_from_sites(init, mask, file, sev);
        let rest = sec008_found(init, mask, file, sev);
        let found = sec008_found(sites, mask, file, sev);
        assert forall|i: int| 0 <= i < found.len() implies found_at_site(
            found[i],
            sites,
            mask,
            file,
            sev,
        ) by {
            if i < rest.len() {
                assert(found[i] == rest[i]);
                assert(found_at_site(rest[i], init, mask, file, sev));
                let k = choose|k: int|
                    0 <= k < init.len() && (#[trigger] panic_pattern(init[k], mask)) is Some
                        && rest[i] == sec008_model(file, sev, init[k], panic_pattern(init[k], mask)->0);
                assert(init[k] == sites[k]);
                assert(panic_pattern(sites[k], mask) is Some);
            } else {
                let last = sites.len() - 1;
                assert(sites.last() == sites[last]);
                assert(panic_pattern(sites[last], mask) is Some);
            }
        }
    }
}

/// No SEC008 finding stands on a line of test or other non-production
/// code.
pub proof fn law_sec008_no_finding_on_masked_line(
    sites: Seq<PanicSite>,
    mask: Seq<bool>,
    file: Seq<char>,
    sev: Severity,
)
    ensures
        forall|i: int|
            0 <= i < sec008_found(sites, mask, file, sev).len() ==> !masked_line(
                mask,
                #[trigger] sec008_found(sites, mask, file, sev)[i].line,
            ),
{
    law_sec008_findings_come_from_sites(sites, mask, file, sev);
    let found = sec008_found(sites, mask, file, sev);
    assert forall|i: int| 0 <= i < found.len() implies !masked_line(mask, #[trigger] found[i].line) by {
        assert(found_at_site(found[i], sites, mask, file, sev));
        let k = choose|k: int|
            0 <= k < sites.len() && (#[trigger] panic_pattern(sites[k], mask)) is Some && found[i]
                == sec008_model(file, sev, sites[k], panic_pattern(sites[k], mask)->0);
        assert(found[i].line == sites[k].line as nat);
    }
}

/// `d` is the finding of one of the macros that SEC002 flags.
pub open spec fn found_at_macro(
    d: DiagnosticModel,
    ms: Seq<MacroCallSite>,
    lines: Seq<Seq<char>>,
    mask: Seq<bool>,
    file: Seq<char>,
    sev: Severity,
) -> bool {
    exists|k: int|
        0 <= k < ms.len() && debug_assert_flagged(#[trigger] ms[k], lines, mask) && d
            == sec002_model(file, sev, ms[k])
}

/// No SEC002 finding stands on a line of test or other non-production
/// code, and each is that of a `debug_assert` macro.
pub proof fn law_sec002_findings_are_flagged_macros(
    ms: Seq<MacroCallSite>,
    lines: Seq<Seq<char>>,
    mask: Seq<bool>,
    file: Seq<char>,
    sev: Severity,
)
    ensures
        forall|i: int|
            0 <= i < sec002_found(ms, lines, mask, file, sev).len() ==> found_at_macro(
                #[trigger] sec002_found(ms, lines, mask, file, sev)[i],
                ms,
                lines,
                mask,
                file,
                sev,
            ),
        forall|i: int|
            0 <= i < sec002_found(ms, lines, mask, file, sev).len() ==> !masked_line(
                mask,
                #[trigger] sec002_found(ms, lines, mask, file, sev)[i].line,
            ),
    decreases ms.len(),
{
    if ms.len() > 0 {
        let init = ms.drop_last();
        law_sec002_findings_are_flagged_macros(init, lines, mask, file, sev);
        let rest = sec002_found(init, lines, mask, file, sev);
        let found = sec002_found(ms, lines, mask, file, sev);
        assert forall|i: int| 0 <= i < found.len() implies found_at_macro(
            found[i],
            ms,
            lines,
            mask,
            file,
            sev,
        ) by {
            if i < rest.len() {
                assert(found[i] == rest[i]);
                assert(found_at_macro(rest[i], init, lines, mask, file, sev));
                let k = choose|k: int|
                    0 <= k < init.len() && debug_assert_flagged(#[trigger] init[k], lines, mask)
                        && rest[i] == sec002_model(file, sev, init[k]);
                assert(init[k] == ms[k]);
            } else {
                assert(ms.last() == ms[ms.len() - 1]);
            }
        }
        assert forall|i: int| 0 <= i < found.len() implies !masked_line(mask, #[trigger] found[i].line) by {
            assert(found_at_macro(found[i], ms, lines, mask, file, sev));
            let k = choose|k: int|
                0 <= k < ms.len() && debug_assert_flagged(#[trigger] ms[k], lines, mask) && found[i]
                    == sec002_model(file, sev, ms[k]);
            assert(found[i].line == ms[k].line as nat);
        }
    }
}

/// The pattern a site reports, if any.
fn panic_pattern_exec(s: &PanicSite, mask: &Vec<bool>) -> (r: Option<PanicPattern>)
    ensures
        r == panic_pattern(*s, mask@),
{
    if masked_line_exec(mask, s.line) || s.in_test_default_impl {
        return None;
    }
    let name = chars_of(s.name.as_str());
    match s.kind {
        PanicSiteKind::MethodCall => {
            let fits = match s.bounded_vec_literal {
                Some((len, bound)) => (len as u128) <= bound,
                None => false,
            };
            let cannot_fail = s.fixed_range_try_into || s.h160_suffix_try_into
                || s.bounded_biguint_to_usize || fits;
            let nonzero = match &s.nonzero_new_literal {
                Some(l) => integer_literal_is_nonzero(l),
                None => false,
            };
            if equals_str(&name, "unwrap") && !nonzero && !cannot_fail {
                return Some(PanicPattern::Unwrap);
            }
            if !equals_str(&name, "expect") || cannot_fail {
                return None;
            }
            let (marks, min_one_message) = match &s.first_arg {
                Some(FirstArg::Literal(m)) => {
                    let lower = to_ascii_lowercase_exec(&chars_of(m.as_str()));
                    (contains_str(&lower, "qed"), contains_str(
                        &lower,
                        "must be greater than or equal to 1",
                    ))
                },
                Some(FirstArg::Tokens(t)) => {
                    let lower = to_ascii_lowercase_exec(&chars_of(t.as_str()));
                    (equals_str(&lower, "qed"), false)
                },
                None => (false, false),
            };
            let small = match s.vec_literal_try_into_len {
                Some(len) => len <= 1,
                None => false,
            };
            if marks || (min_one_message && small) {
                None
            } else {
                Some(PanicPattern::Expect)
            }
        },
        PanicSiteKind::MacroCall => {
            let lower = to_ascii_lowercase_exec(&chars_of(s.tokens.as_str()));
            if contains_str(&lower, "qed") {
                None
            } else if equals_str(&name, "panic") {
                Some(PanicPattern::Panic)
            } else if equals_str(&name, "unreachable") && !s.in_uninhabited_impl {
                Some(PanicPattern::Unreachable)
            } else if equals_str(&name, "todo") {
                Some(PanicPattern::Todo)
            } else if equals_str(&name, "unimplemented") {
                Some(PanicPattern::Unimplemented)
            } else {
                None
            }
        },
    }
}

/// Whether some diagnostic already stands on `line`.
pub(crate) fn line_reported(found: &Vec<Diagnostic>, line: usize) -> (r: bool)
    ensures
        r == line_taken(models(found@), line as nat),
{
    let mut k: usize = 0;
    while k < found.len()
        invariant
            k <= found@.len(),
            forall|j: int| 0 <= j < k ==> #[trigger] models(found@)[j].line != line as nat,
        decreases found.len() - k,
    {
        if found[k].line == line {
            assert(models(found@)[k as int].line == line as nat);
            return true;
        }
        k += 1;
    }
    false
}

impl PanicInProduction {
    /// Reports `.unwrap()`, `.expect()`, `panic!`, `unreachable!`, `todo!`
    /// and `unimplemented!` in runtime and pallet production code, at most
    /// once per line. `sites` are the file's method and macro calls in the
    /// syntax tree's order (`None` when it did not parse).
    pub fn check(&self, ctx: &FileContext, config: &Config, sites: Option<Vec<PanicSite>>) -> (r: Option<Vec<Diagnostic>>)
        requires
            ctx.content@.len() <= isize::MAX,
        ensures
            (!sec008_applies(ctx) || sites is None) ==> r is None,
            (sec008_applies(ctx) && sites is Some) ==> report_of(
                sec008_found(
                    sites->0@,
                    sec008_mask(ctx.content@),
                    ctx.path@,
                    config.spec_rule_severity("SEC008"@, Severity::Warning),
                ),
                r,
            ),
    {
        if should_skip_production_rule(ctx) {
            return None;
        }
        if !is_runtime_or_pallet_security_path(ctx.path.as_str()) {
            return None;
        }
        if is_documented_benchmark_test_builder(ctx.path.as_str(), ctx.content.as_str()) {
            return None;
        }
        let rel = chars_of(ctx.rel_path.as_str());
        if ends_with_str(&rel, "weights.rs") || contains_str(&rel, "/weights/") {
            return None;
        }
        match path_file_name(ctx.path.as_str()) {
            Some(name) => {
                if equals_str(&chars_of(name.as_str()), "genesis_config_presets.rs") {
                    return None;
                }
            },
            None => {},
        }
        let sites = match sites {
            Some(s) => s,
            None => return None,
        };
        let lines = content_lines(ctx);
        let mask = merge_masks(
            &merge_masks(
                &merge_masks(&cfg_test_module_mask(&lines), &genesis_build_mask(&lines)),
                &merge_masks(&genesis_config_impl_mask(&lines), &const_unit_initializer_mask(&lines)),
            ),
            &integrity_test_mask(&lines),
        );
        let severity = config.rule_severity(self.id(), Severity::Warning);
        let mut diagnostics: Vec<Diagnostic> = Vec::new();
        let mut i: usize = 0;
        assert(sites@.take(0) =~= Seq::<PanicSite>::empty());
        while i < sites.len()
            invariant
                i <= sites@.len(),
                models(diagnostics@) == sec008_found(sites@.take(i as int), mask@, ctx.path@, severity),
            decreases sites.len() - i,
        {
            let s = &sites[i];
            assert(sites@.take(i + 1).drop_last() =~= sites@.take(i as int));
            assert(sites@.take(i + 1).last() == *s);
            match panic_pattern_exec(s, &mask) {
                Some(p) => {
                    if !line_reported(&diagnostics, s.line) {
                        let ghost before = models(diagnostics@);
                        let (message, suggestion) = panic_texts(p);
                        diagnostics.push(
                            make_diagnostic(
                                self.id(),
                                self.name(),
                                RuleCategory::Semantic,
                                severity,
                                &ctx.path,
                                s.line,
                                Some(s.column),
                                None,
                                message.to_owned(),
                                "Panics in runtime code crash the node or halt block production. FRAME provides `defensive!()` for \"should never happen\" paths, which logs an error instead of panicking. For fallible operations, propagate errors with `?` or use `unwrap_or_default()`.",
                                Some(suggestion.to_owned()),
                            ),
                        );
                        assert(models(diagnostics@) =~= before.push(sec008_model(ctx.path@, severity, *s, p)));
                    }
                },
                None => {},
            }
            i += 1;
        }
        assert(sites@.take(sites@.len() as int) =~= sites@);
        into_report(diagnostics)
    }

    /// Runs the rule on the file, with `walk` reading its method and macro
    /// calls off its syntax tree: nothing when the file is not Rust or does
    /// not parse.
    pub fn check_file<W: Fn(&syn::File) -> Vec<PanicSite>>(&self, ctx: &FileContext, config: &Config, walk: W) -> (r: Option<Vec<Diagnostic>>)
        requires
            ctx.content@.len() <= isize::MAX,
            forall|t: syn::File| walk.requires((&t,)),
        ensures
            !(ctx.is_rust && rust_file_parses(ctx.content@)) ==> r is None,
            (ctx.is_rust && rust_file_parses(ctx.content@)) ==> exists|sites: Vec<PanicSite>|
                #[trigger] walked_on(walk, ctx.content@, sites) && (!sec008_applies(ctx) ==> r is None) && (sec008_applies(
                    ctx,
                ) ==> report_of(
                    sec008_found(
                        sites@,
                        sec008_mask(ctx.content@),
                        ctx.path@,
                        config.spec_rule_severity("SEC008"@, Severity::Warning),
                    ),
                    r,
                )),
    {
        let sites = ctx.file_sites(walk);
        let r = self.check(ctx, config, sites);
        proof {
            if ctx.is_rust && rust_file_parses(ctx.content@) {
                assert(walked_on(walk, ctx.content@, sites->0));
            }
        }
        r
    }
}

} // verus!
