//! The benchmarking rules: weight functions and extrinsics need benchmarks,
//! and benchmarks need a verification step.
use vstd::prelude::*;
use crate::config::Config;
use crate::context::FileContext;
use crate::diagnostics::{
    into_report, make_diagnostic, models, report_of, Diagnostic, DiagnosticModel, RuleCategory,
    Severity,
};
use crate::rules::paths::{ident_prefix, ident_prefix_exec, path_parent, std_path_parent};
use crate::rules::semantic::{content_lines, spec_strip, strip_strings_and_line_comments};
use crate::rules::LintRule;
use crate::patterns::{regex_capture, regex_first_group, regex_is_match, regex_match};
use crate::text::{
    chars_of, contains, contains_exec, contains_str, count_char, count_char_exec, equals_str,
    ends_with, ends_with_str, lines_of, lines_view, split_lines, starts_with, starts_with_str,
    string_of, total_len, trim, trim_exec, trim_start,
};

verus! {

/// Lint rule `BEN001` (`benchmark-for-weight-function`).
pub struct BenchmarkForWeightFunction;

impl LintRule for BenchmarkForWeightFunction {
    open spec fn spec_id(&self) -> Seq<char> {
        "BEN001"@
    }

    open spec fn spec_name(&self) -> Seq<char> {
        "benchmark-for-weight-function"@
    }

    open spec fn spec_family(&self) -> Seq<char> {
        "benchmark"@
    }

    fn id(&self) -> (r: &str) {
        "BEN001"
    }

    fn name(&self) -> (r: &str) {
        "benchmark-for-weight-function"
    }

    fn family(&self) -> (r: &str) {
        "benchmark"
    }
}

/// Lint rule `BEN002` (`benchmark-verification`).
pub struct BenchmarkVerification;

impl LintRule for BenchmarkVerification {
    open spec fn spec_id(&self) -> Seq<char> {
        "BEN002"@
    }

    open spec fn spec_name(&self) -> Seq<char> {
        "benchmark-verification"@
    }

    open spec fn spec_family(&self) -> Seq<char> {
        "benchmark"@
    }

    fn id(&self) -> (r: &str) {
        "BEN002"
    }

    fn name(&self) -> (r: &str) {
        "benchmark-verification"
    }

    fn family(&self) -> (r: &str) {
        "benchmark"
    }
}

/// Lint rule `BEN003` (`extrinsic-without-benchmark`).
pub struct ExtrinsicWithoutBenchmark;

impl LintRule for ExtrinsicWithoutBenchmark {
    open spec fn spec_id(&self) -> Seq<char> {
        "BEN003"@
    }

    open spec fn spec_name(&self) -> Seq<char> {
        "extrinsic-without-benchmark"@
    }

    open spec fn spec_family(&self) -> Seq<char> {
        "benchmark"@
    }

    fn id(&self) -> (r: &str) {
        "BEN003"
    }

    fn name(&self) -> (r: &str) {
        "extrinsic-without-benchmark"
    }

    fn family(&self) -> (r: &str) {
        "benchmark"
    }
}


// ---------------------------------------------------------------------------
// Matching benchmark names
// ---------------------------------------------------------------------------

/// A benchmark named `b` covers `target`: the same name, or the name
/// followed by `_` and a suffix.
pub open spec fn benchmark_covers(b: Seq<char>, target: Seq<char>) -> bool {
    b == target || (starts_with(b, target) && starts_with(b.skip(target.len() as int), "_"@))
}

/// Whether some benchmark in `benchmark_names` covers `target_name`.
pub fn has_matching_benchmark_name(benchmark_names: &Vec<String>, target_name: &str) -> (r: bool)
    ensures
        r == exists|k: int|
            0 <= k < benchmark_names@.len() && benchmark_covers(
                #[trigger] benchmark_names@[k]@,
                target_name@,
            ),
{
    let target = chars_of(target_name);
    let mut k: usize = 0;
    while k < benchmark_names.len()
        invariant
            k <= benchmark_names@.len(),
            target@ == target_name@,
            forall|j: int|
                0 <= j < k ==> !benchmark_covers(#[trigger] benchmark_names@[j]@, target_name@),
        decreases benchmark_names.len() - k,
    {
        let b = chars_of(benchmark_names[k].as_str());
        let covers = if b.len() == target.len() {
            let same = crate::text::starts_with_exec(&b, &target);
            proof {
                assert(b@.take(target@.len() as int) =~= b@);
                if b@ == target@ {
                    assert(b@.take(target@.len() as int) =~= target@);
                }
            }
            same
        } else if crate::text::starts_with_exec(&b, &target) {
            let rest = crate::text::copy_range(&b, target.len(), b.len());
            assert(rest@ =~= b@.skip(target@.len() as int));
            starts_with_str(&rest, "_")
        } else {
            false
        };
        assert(covers == benchmark_covers(b@, target@));
        if covers {
            return true;
        }
        k += 1;
    }
    false
}

// ---------------------------------------------------------------------------
// Reading benchmark headers
// ---------------------------------------------------------------------------

/// The function name on a line that starts, after indentation, with `fn `.
pub open spec fn spec_parse_fn_name_line(line: Seq<char>) -> Option<Seq<char>> {
    let t = trim_start(line);
    if starts_with(t, "fn "@) {
        let name = ident_prefix(t.skip(3));
        if name.len() > 0 {
            Some(name)
        } else {
            None
        }
    } else {
        None
    }
}

/// The function name declared by `line`, if it starts with `fn `.
pub fn parse_fn_name_line(line: &Vec<char>) -> (r: Option<Vec<char>>)
    ensures
        match r {
            Some(n) => spec_parse_fn_name_line(line@) == Some(n@),
            None => spec_parse_fn_name_line(line@) is None,
        },
{
    let t = crate::text::trim_start_exec(line);
    proof {
        reveal_strlit("fn ");
    }
    if !starts_with_str(&t, "fn ") {
        return None;
    }
    let name = ident_prefix_exec(&t, 3);
    if name.len() > 0 {
        Some(name)
    } else {
        None
    }
}

/// The words that cannot name a benchmark in `benchmarks!`.
pub open spec fn is_macro_keyword(c: Seq<char>) -> bool {
    ||| c == "mod"@
    ||| c == "use"@
    ||| c == "impl"@
    ||| c == "pub"@
    ||| c == "fn"@
    ||| c == "let"@
    ||| c == "if"@
    ||| c == "for"@
    ||| c == "where"@
    ||| c == "type"@
    ||| c == "benchmarks"@
}

/// The benchmark name of a `name {` line inside `benchmarks!`: the trimmed
/// text before the first `{`, when it is a single word without `(` and not
/// a keyword.
pub open spec fn spec_parse_macro_benchmark_name(line: Seq<char>) -> Option<Seq<char>> {
    let t = trim(line);
    match crate::text::find(t, "{"@) {
        None => None,
        Some(b) => {
            let c = trim(t.take(b));
            if c.len() == 0 || contains(c, " "@) || contains(c, "("@) || is_macro_keyword(c) {
                None
            } else {
                Some(c)
            }
        },
    }
}

/// The benchmark named by a `name {` line of `benchmarks!`, if any.
pub fn parse_macro_benchmark_name(line: &Vec<char>) -> (r: Option<Vec<char>>)
    ensures
        match r {
            Some(n) => spec_parse_macro_benchmark_name(line@) == Some(n@),
            None => spec_parse_macro_benchmark_name(line@) is None,
        },
{
    let t = trim_exec(line);
    let b = match crate::text::find_exec(&t, &chars_of("{")) {
        Some(b) => b,
        None => {
            return None;
        },
    };
    let pre = crate::text::copy_range(&t, 0, b);
    assert(pre@ =~= t@.take(b as int));
    let c = trim_exec(&pre);
    if c.len() == 0 || contains_str(&c, " ") || contains_str(&c, "(") {
        return None;
    }
    if equals_str(&c, "mod") || equals_str(&c, "use") || equals_str(&c, "impl") || equals_str(
        &c,
        "pub",
    ) || equals_str(&c, "fn") || equals_str(&c, "let") || equals_str(&c, "if") || equals_str(
        &c,
        "for",
    ) || equals_str(&c, "where") || equals_str(&c, "type") || equals_str(&c, "benchmarks") {
        return None;
    }
    Some(c)
}

// ---------------------------------------------------------------------------
// Block extents
// ---------------------------------------------------------------------------

/// Scanning from line `idx` with brace depth `depth`: the index of the line
/// where the block closes (depth back to zero after some brace opened),
/// else the last line.
pub open spec fn block_end_scan(lines: Seq<Seq<char>>, idx: int, depth: int, started: bool) -> int
    decreases lines.len() - idx,
{
    if idx >= lines.len() {
        if lines.len() > 0 {
            lines.len() - 1
        } else {
            0
        }
    } else {
        let d1 = depth + count_char(lines[idx], '{');
        let s1 = started || d1 > 0;
        let d2 = d1 - count_char(lines[idx], '}');
        if s1 && d2 == 0 {
            idx
        } else {
            block_end_scan(lines, idx + 1, d2, s1)
        }
    }
}

/// The index of the line that closes the block opened at or after `start`.
pub open spec fn spec_find_block_end_from(lines: Seq<Seq<char>>, start: int) -> int {
    block_end_scan(lines, if start < 0 {
        0
    } else {
        start
    }, 0, false)
}

pub proof fn lemma_block_end_scan_range(lines: Seq<Seq<char>>, idx: int, depth: int, started: bool)
    requires
        0 <= idx,
    ensures
        ({
            let e = block_end_scan(lines, idx, depth, started);
            (idx < lines.len() ==> idx <= e < lines.len()) && (idx >= lines.len() ==> (e
                == if lines.len() > 0 {
                lines.len() - 1
            } else {
                0
            }))
        }),
    decreases lines.len() - idx,
{
    if idx < lines.len() {
        let d1 = depth + count_char(lines[idx], '{');
        let s1 = started || d1 > 0;
        let d2 = d1 - count_char(lines[idx], '}');
        if !(s1 && d2 == 0) {
            lemma_block_end_scan_range(lines, idx + 1, d2, s1);
        }
    }
}

/// The index of the line that closes the block opened at or after line
/// `start` (the last line when none closes).
pub fn find_block_end_from(lines: &Vec<Vec<char>>, start: usize) -> (r: usize)
    requires
        total_len(lines_view(lines@)) <= isize::MAX,
    ensures
        r == spec_find_block_end_from(lines_view(lines@), start as int),
        start < lines.len() ==> start <= r < lines.len(),
        start >= lines.len() ==> r == if lines.len() > 0 {
            lines.len() - 1
        } else {
            0
        },
{
    let ghost lv = lines_view(lines@);
    proof {
        lemma_block_end_scan_range(lv, start as int, 0, false);
    }
    if start >= lines.len() {
        return if lines.len() > 0 {
            lines.len() - 1
        } else {
            0
        };
    }
    let mut depth: i64 = 0;
    let mut started = false;
    let mut idx = start;
    while idx < lines.len()
        invariant
            start <= idx <= lines@.len(),
            lv == lines_view(lines@),
            total_len(lv) <= isize::MAX,
            -total_len(lv.take(idx as int)) <= depth <= total_len(lv.take(idx as int)),
            block_end_scan(lv, idx as int, depth as int, started) == block_end_scan(
                lv,
                start as int,
                0,
                false,
            ),
        decreases lines.len() - idx,
    {
        proof {
            assert(lv[idx as int] == lines@[idx as int]@);
            crate::text::lemma_total_len_take(lv, idx as int);
            crate::text::lemma_total_len_prefix(lv, idx + 1);
            crate::rules::masks::lemma_count_le(lv[idx as int], '{');
            crate::rules::masks::lemma_count_le(lv[idx as int], '}');
            if start > 0 {
                crate::text::lemma_total_len_prefix(lv.take(idx as int), start as int);
            }
        }
        let open = count_char_exec(&lines[idx], '{');
        depth = depth + open as i64;
        if depth > 0 {
            started = true;
        }
        let close = count_char_exec(&lines[idx], '}');
        depth = depth - close as i64;
        if started && depth == 0 {
            return idx;
        }
        idx += 1;
    }
    if lines.len() > 0 {
        lines.len() - 1
    } else {
        0
    }
}


// ---------------------------------------------------------------------------
// Verification inside a benchmark body
// ---------------------------------------------------------------------------

/// The lines of a benchmark body outside its `#[block]` (the measured
/// part): a `#[block]` line is dropped, then the block from the next line
/// with a `{` until its braces balance.
pub open spec fn measured_scan(lines: Seq<Seq<char>>, pending: bool, in_block: bool, depth: int) -> Seq<
    Seq<char>,
>
    decreases lines.len(),
{
    if lines.len() == 0 {
        seq![]
    } else {
        let line = lines[0];
        let rest = lines.drop_first();
        let t = trim(line);
        let open = count_char(line, '{') as int;
        let close = count_char(line, '}') as int;
        if starts_with(t, "#[block]"@) {
            measured_scan(rest, true, in_block, depth)
        } else if pending {
            if open > 0 {
                let d = depth + open - close;
                if d <= 0 {
                    measured_scan(rest, false, false, 0)
                } else {
                    measured_scan(rest, false, true, d)
                }
            } else {
                measured_scan(rest, true, in_block, depth)
            }
        } else if in_block {
            let d = depth + open - close;
            if d <= 0 {
                measured_scan(rest, false, false, 0)
            } else {
                measured_scan(rest, false, true, d)
            }
        } else {
            seq![line] + measured_scan(rest, false, false, depth)
        }
    }
}

/// The body lines outside measured `#[block]` blocks.
pub open spec fn spec_body_lines_outside_measured_blocks(body: Seq<Seq<char>>) -> Seq<Seq<char>> {
    measured_scan(body, false, false, 0)
}

/// The lines `lines[a..b]` outside measured `#[block]` blocks.
pub fn body_lines_outside_measured_blocks(lines: &Vec<Vec<char>>, a: usize, b: usize) -> (r: Vec<
    Vec<char>,
>)
    requires
        a <= b <= lines.len(),
        total_len(lines_view(lines@)) <= isize::MAX,
    ensures
        lines_view(r@) == spec_body_lines_outside_measured_blocks(
            lines_view(lines@).subrange(a as int, b as int),
        ),
{
    let ghost lv = lines_view(lines@);
    let ghost body = lv.subrange(a as int, b as int);
    let mut kept: Vec<Vec<char>> = Vec::new();
    let mut pending = false;
    let mut in_block = false;
    let mut depth: i64 = 0;
    let mut k = a;
    assert(body.skip(0) =~= body);
    while k < b
        invariant
            a <= k <= b <= lines@.len(),
            lv == lines_view(lines@),
            body == lv.subrange(a as int, b as int),
            total_len(lv) <= isize::MAX,
            -total_len(lv.take(k as int)) <= depth <= total_len(lv.take(k as int)),
            lines_view(kept@) + measured_scan(
                body.skip(k - a),
                pending,
                in_block,
                depth as int,
            ) == spec_body_lines_outside_measured_blocks(body),
        decreases b - k,
    {
        let line = &lines[k];
        let ghost rest = body.skip(k - a);
        proof {
            assert(lv[k as int] == line@);
            assert(rest[0] == line@);
            assert(rest.drop_first() =~= body.skip(k + 1 - a));
            crate::text::lemma_total_len_take(lv, k as int);
            crate::text::lemma_total_len_prefix(lv, k + 1);
            crate::rules::masks::lemma_count_le(line@, '{');
            crate::rules::masks::lemma_count_le(line@, '}');
        }
        let t = trim_exec(line);
        let open = count_char_exec(line, '{') as i64;
        let close = count_char_exec(line, '}') as i64;
        if starts_with_str(&t, "#[block]") {
            pending = true;
        } else if pending {
            if open > 0 {
                in_block = true;
                pending = false;
                depth = depth + open - close;
                if depth <= 0 {
                    in_block = false;
                    depth = 0;
                }
            }
        } else if in_block {
            depth = depth + open - close;
            if depth <= 0 {
                in_block = false;
                depth = 0;
            }
        } else {
            let ghost before = kept@;
            kept.push(crate::text::copy_range(line, 0, line.len()));
            proof {
                assert(line@.subrange(0, line@.len() as int) =~= line@);
                assert(lines_view(kept@) =~= lines_view(before).push(line@));
                assert(lines_view(before).push(line@) + measured_scan(
                    rest.drop_first(),
                    false,
                    false,
                    depth as int,
                ) =~= lines_view(before) + (seq![line@] + measured_scan(
                    rest.drop_first(),
                    false,
                    false,
                    depth as int,
                )));
            }
        }
        k += 1;
    }
    assert(body.skip(b - a) =~= Seq::<Seq<char>>::empty());
    assert(lines_view(kept@) + Seq::<Seq<char>>::empty() =~= lines_view(kept@));
    kept
}

/// A sanitized body line shows a verification step: a `verify` block, a
/// configured verification helper called or opened as a block, or an
/// assertion macro.
pub open spec fn line_verifies(line: Seq<char>, patterns: Seq<Seq<char>>) -> bool {
    let t = trim(line);
    ||| starts_with(t, "verify "@)
    ||| t == "verify{"@
    ||| starts_with(t, "verify{"@)
    ||| (exists|p: int|
        0 <= p < patterns.len() && (contains(line, #[trigger] patterns[p] + "("@) || contains(
            line,
            patterns[p] + " {"@,
        )))
    ||| contains(line, "assert!("@)
    ||| contains(line, "assert_eq!("@)
    ||| contains(line, "assert_ne!("@)
    ||| contains(line, "assert_ok!("@)
    ||| contains(line, "assert_noop!("@)
    ||| contains(line, "assert_err!("@)
    ||| contains(line, "ensure!("@)
    ||| contains(line, "assert_last_event("@)
    ||| contains(line, "assert_has_event("@)
}

/// A benchmark body verifies its outcome: some line outside its measured
/// block, with strings and comments stripped, shows a verification step.
pub open spec fn spec_has_verification_in_text(body: Seq<Seq<char>>, patterns: Seq<Seq<char>>) -> bool {
    let kept = spec_body_lines_outside_measured_blocks(body);
    exists|k: int| 0 <= k < kept.len() && line_verifies(spec_strip(#[trigger] kept[k]), patterns)
}

fn line_verifies_exec(line: &Vec<char>, patterns: &Vec<Vec<char>>) -> (r: bool)
    ensures
        r == line_verifies(line@, lines_view(patterns@)),
{
    let ghost pv = lines_view(patterns@);
    let t = trim_exec(line);
    if starts_with_str(&t, "verify ") || equals_str(&t, "verify{") || starts_with_str(
        &t,
        "verify{",
    ) {
        return true;
    }
    let mut p: usize = 0;
    while p < patterns.len()
        invariant
            p <= patterns.len(),
            pv == lines_view(patterns@),
            forall|q: int|
                0 <= q < p ==> !(contains(line@, #[trigger] pv[q] + "("@) || contains(
                    line@,
                    pv[q] + " {"@,
                )),
        decreases patterns.len() - p,
    {
        assert(pv[p as int] == patterns@[p as int]@);
        let call = crate::text::push_str(crate::text::copy_range(&patterns[p], 0, patterns[p].len()), "(");
        let block = crate::text::push_str(crate::text::copy_range(&patterns[p], 0, patterns[p].len()), " {");
        assert(patterns@[p as int]@.subrange(0, patterns@[p as int]@.len() as int) =~= patterns@[p as int]@);
        if contains_exec(line, &call) || contains_exec(line, &block) {
            return true;
        }
        p += 1;
    }
    contains_str(line, "assert!(") || contains_str(line, "assert_eq!(") || contains_str(
        line,
        "assert_ne!(",
    ) || contains_str(line, "assert_ok!(") || contains_str(line, "assert_noop!(") || contains_str(
        line,
        "assert_err!(",
    ) || contains_str(line, "ensure!(") || contains_str(line, "assert_last_event(")
        || contains_str(line, "assert_has_event(")
}

/// Whether the benchmark body `lines[a..b]` verifies its outcome.
pub fn has_verification_in_text(
    lines: &Vec<Vec<char>>,
    a: usize,
    b: usize,
    patterns: &Vec<Vec<char>>,
) -> (r: bool)
    requires
        a <= b <= lines.len(),
        total_len(lines_view(lines@)) <= isize::MAX,
    ensures
        r == spec_has_verification_in_text(
            lines_view(lines@).subrange(a as int, b as int),
            lines_view(patterns@),
        ),
{
    let kept = body_lines_outside_measured_blocks(lines, a, b);
    let ghost kv = lines_view(kept@);
    let mut k: usize = 0;
    while k < kept.len()
        invariant
            k <= kept.len(),
            kv == lines_view(kept@),
            kv == spec_body_lines_outside_measured_blocks(
                lines_view(lines@).subrange(a as int, b as int),
            ),
            forall|j: int|
                0 <= j < k ==> !line_verifies(spec_strip(#[trigger] kv[j]), lines_view(patterns@)),
        decreases kept.len() - k,
    {
        assert(kv[k as int] == kept@[k as int]@);
        let sanitized = strip_strings_and_line_comments(&kept[k]);
        if line_verifies_exec(&sanitized, patterns) {
            assert(line_verifies(spec_strip(kv[k as int]), lines_view(patterns@)));
            return true;
        }
        k += 1;
    }
    false
}

// ---------------------------------------------------------------------------
// BEN002: benchmarks must verify their outcome
// ---------------------------------------------------------------------------

/// The first line at or after `j` that declares a function, else `dflt`.
pub open spec fn first_fn_line_from(lines: Seq<Seq<char>>, j: int, dflt: int) -> int
    decreases lines.len() - j,
{
    if j >= lines.len() || j < 0 {
        dflt
    } else if spec_parse_fn_name_line(lines[j]) is Some {
        j
    } else {
        first_fn_line_from(lines, j + 1, dflt)
    }
}

/// A benchmark without verification: its name and the lines its body spans.
pub struct UnverifiedBenchmark {
    pub name: Seq<char>,
    pub start: int,
    pub end: int,
}

/// BEN002 from line `i` on, inside `benchmarks!` or not, at macro brace depth
/// `depth`: the benchmarks (a `#[benchmark]` function, or a `name {` entry of
/// `benchmarks!`) whose body does not verify, in order.
pub open spec fn ben2_scan(
    lines: Seq<Seq<char>>,
    patterns: Seq<Seq<char>>,
    i: int,
    in_macro: bool,
    depth: int,
) -> Seq<UnverifiedBenchmark>
    decreases lines.len() - i,
{
    if i >= lines.len() || i < 0 {
        seq![]
    } else {
        let t = trim(lines[i]);
        let starts_macro = starts_with(t, "benchmarks!"@);
        let in_m = starts_macro || in_macro;
        let d = if starts_macro {
            0
        } else {
            depth
        };
        let is_proc = t == "#[benchmark]"@;
        let is_mac = in_m && !is_proc && spec_parse_macro_benchmark_name(t) is Some;
        if is_proc || is_mac {
            let fs = if is_proc {
                first_fn_line_from(lines, i + 1, i + 1)
            } else {
                i
            };
            let name = if is_proc {
                match (if fs < lines.len() {
                    spec_parse_fn_name_line(lines[fs])
                } else {
                    None
                }) {
                    Some(n) => n,
                    None => "unknown"@,
                }
            } else {
                spec_parse_macro_benchmark_name(t)->0
            };
            let end = spec_find_block_end_from(lines, fs);
            proof {
                lemma_first_fn_line_range(lines, i + 1, i + 1);
                lemma_block_end_scan_range(lines, fs, 0, false);
            }
            let rest = ben2_scan(lines, patterns, end + 1, in_m, d);
            if spec_has_verification_in_text(lines.subrange(fs, end + 1), patterns) {
                rest
            } else {
                seq![UnverifiedBenchmark { name, start: fs, end }] + rest
            }
        } else {
            let (in2, d2) = if in_m {
                let dd = d + count_char(lines[i], '{') - count_char(lines[i], '}');
                (dd > 0, dd)
            } else {
                (in_m, d)
            };
            ben2_scan(lines, patterns, i + 1, in2, d2)
        }
    }
}

pub proof fn lemma_first_fn_line_range(lines: Seq<Seq<char>>, j: int, dflt: int)
    requires
        0 <= j,
        j <= dflt <= lines.len(),
    ensures
        j <= first_fn_line_from(lines, j, dflt) <= lines.len(),
        first_fn_line_from(lines, j, dflt) < lines.len() ==> spec_parse_fn_name_line(
            lines[first_fn_line_from(lines, j, dflt)],
        ) is Some || first_fn_line_from(lines, j, dflt) == dflt,
    decreases lines.len() - j,
{
    if j < lines.len() && spec_parse_fn_name_line(lines[j]) is None {
        if j + 1 <= dflt {
            lemma_first_fn_line_range(lines, j + 1, dflt);
        } else {
            lemma_first_fn_line_range(lines, j + 1, j + 1);
            assert(first_fn_line_from(lines, j + 1, dflt) == first_fn_line_from(lines, j + 1, dflt));
            lemma_first_fn_line_default(lines, j + 1, dflt);
        }
    }
}

proof fn lemma_first_fn_line_default(lines: Seq<Seq<char>>, j: int, dflt: int)
    requires
        0 <= j,
    ensures
        first_fn_line_from(lines, j, dflt) == dflt || (j <= first_fn_line_from(lines, j, dflt)
            < lines.len() && spec_parse_fn_name_line(lines[first_fn_line_from(lines, j, dflt)]) is Some),
    decreases lines.len() - j,
{
    if j < lines.len() && spec_parse_fn_name_line(lines[j]) is None {
        lemma_first_fn_line_default(lines, j + 1, dflt);
    }
}

/// The sanitized line calls an assertion macro or event check: `assert!`,
/// `assert_eq!`, `assert_ne!`, `assert_ok!`, `assert_noop!`, `assert_err!`,
/// `ensure!`, `assert_last_event` or `assert_has_event`.
pub open spec fn shows_assertion(line: Seq<char>) -> bool {
    ||| contains(line, "assert!("@)
    ||| contains(line, "assert_eq!("@)
    ||| contains(line, "assert_ne!("@)
    ||| contains(line, "assert_ok!("@)
    ||| contains(line, "assert_noop!("@)
    ||| contains(line, "assert_err!("@)
    ||| contains(line, "ensure!("@)
    ||| contains(line, "assert_last_event("@)
    ||| contains(line, "assert_has_event("@)
}

/// Every benchmark that the scan from line `i` reports has a body that does
/// not verify its outcome.
proof fn lemma_ben2_scan_unverified(
    lines: Seq<Seq<char>>,
    patterns: Seq<Seq<char>>,
    i: int,
    in_macro: bool,
    depth: int,
)
    ensures
        forall|k: int|
            0 <= k < ben2_scan(lines, patterns, i, in_macro, depth).len() ==> !spec_has_verification_in_text(
                lines.subrange(
                    (#[trigger] ben2_scan(lines, patterns, i, in_macro, depth)[k]).start,
                    ben2_scan(lines, patterns, i, in_macro, depth)[k].end + 1,
                ),
                patterns,
            ),
    decreases lines.len() - i,
{
    if !(i >= lines.len() || i < 0) {
        let t = trim(lines[i]);
        let starts_macro = starts_with(t, "benchmarks!"@);
        let in_m = starts_macro || in_macro;
        let d = if starts_macro {
            0
        } else {
            depth
        };
        let is_proc = t == "#[benchmark]"@;
        let is_mac = in_m && !is_proc && spec_parse_macro_benchmark_name(t) is Some;
        if is_proc || is_mac {
            let fs = if is_proc {
                first_fn_line_from(lines, i + 1, i + 1)
            } else {
                i
            };
            lemma_first_fn_line_range(lines, i + 1, i + 1);
            lemma_block_end_scan_range(lines, fs, 0, false);
            let end = spec_find_block_end_from(lines, fs);
            lemma_ben2_scan_unverified(lines, patterns, end + 1, in_m, d);
            let name = if is_proc {
                match (if fs < lines.len() {
                    spec_parse_fn_name_line(lines[fs])
                } else {
                    None
                }) {
                    Some(n) => n,
                    None => "unknown"@,
                }
            } else {
                spec_parse_macro_benchmark_name(t)->0
            };
            let rest = ben2_scan(lines, patterns, end + 1, in_m, d);
            let scan = ben2_scan(lines, patterns, i, in_macro, depth);
            if spec_has_verification_in_text(lines.subrange(fs, end + 1), patterns) {
                assert(scan == rest);
            } else {
                let u = UnverifiedBenchmark { name, start: fs, end };
                assert(scan == seq![u] + rest);
                assert forall|k: int| 0 <= k < scan.len() implies !spec_has_verification_in_text(
                    lines.subrange((#[trigger] scan[k]).start, scan[k].end + 1),
                    patterns,
                ) by {
                    if k > 0 {
                        assert(scan[k] == rest[k - 1]);
                    }
                }
            }
        } else {
            let (in2, d2) = if in_m {
                let dd = d + count_char(lines[i], '{') - count_char(lines[i], '}');
                (dd > 0, dd)
            } else {
                (in_m, d)
            };
            lemma_ben2_scan_unverified(lines, patterns, i + 1, in2, d2);
            assert(ben2_scan(lines, patterns, i, in_macro, depth) == ben2_scan(lines, patterns, i + 1, in2, d2));
        }
    }
}

/// A benchmark is reported only when no line of its body outside the
/// measured block (strings and comments stripped) calls an assertion
/// macro or event check: a benchmark that asserts with `assert_eq!` after
/// its call is never reported.
pub proof fn law_ben002_asserting_benchmarks_are_not_reported(
    lines: Seq<Seq<char>>,
    patterns: Seq<Seq<char>>,
    file: Seq<char>,
    sev: Severity,
)
    ensures
        forall|k: int|
            0 <= k < ben2_found(lines, patterns, file, sev).len() ==> exists|u: UnverifiedBenchmark|
                #[trigger] ben2_found(lines, patterns, file, sev)[k] == ben2_model(file, sev, u) && forall|j: int|
                    0 <= j < spec_body_lines_outside_measured_blocks(lines.subrange(u.start, u.end + 1)).len()
                        ==> !shows_assertion(
                        spec_strip(
                            #[trigger] spec_body_lines_outside_measured_blocks(
                                lines.subrange(u.start, u.end + 1),
                            )[j],
                        ),
                    ),
{
    let scan = ben2_scan(lines, patterns, 0, false, 0);
    lemma_ben2_scan_unverified(lines, patterns, 0, false, 0);
    assert forall|k: int| 0 <= k < ben2_found(lines, patterns, file, sev).len() implies exists|u: UnverifiedBenchmark|
        #[trigger] ben2_found(lines, patterns, file, sev)[k] == ben2_model(file, sev, u) && forall|j: int|
            0 <= j < spec_body_lines_outside_measured_blocks(lines.subrange(u.start, u.end + 1)).len()
                ==> !shows_assertion(
                spec_strip(
                    #[trigger] spec_body_lines_outside_measured_blocks(lines.subrange(u.start, u.end + 1))[j],
                ),
            ) by {
        let u = scan[k];
        let kept = spec_body_lines_outside_measured_blocks(lines.subrange(u.start, u.end + 1));
        assert(!spec_has_verification_in_text(lines.subrange(u.start, u.end + 1), patterns));
        assert forall|j: int| 0 <= j < kept.len() implies !shows_assertion(spec_strip(#[trigger] kept[j])) by {
            if shows_assertion(spec_strip(kept[j])) {
                assert(line_verifies(spec_strip(kept[j]), patterns));
            }
        }
        assert(ben2_found(lines, patterns, file, sev)[k] == ben2_model(file, sev, u));
    }
}

/// The diagnostic of an unverified benchmark.
pub open spec fn ben2_model(file: Seq<char>, sev: Severity, u: UnverifiedBenchmark) -> DiagnosticModel {
    DiagnosticModel {
        rule_id: "BEN002"@,
        rule_name: "benchmark-verification"@,
        category: RuleCategory::Benchmark,
        severity: sev,
        file,
        line: (u.start + 1) as nat,
        column: None,
        end_line: Some((u.end + 1) as nat),
        message: "Benchmark `"@ + u.name + "` has no verification/postcondition check"@,
        explanation: "Benchmarks should include a `verify` block that asserts the expected state change occurred. Without verification, a benchmark can silently measure a no-op."@,
        suggestion: Some("Add a `verify { ... }` block with assertions like `assert_last_event` or `assert_has_event`"@),
    }
}

/// The BEN002 diagnostics of a benchmark file.
pub open spec fn ben2_found(
    lines: Seq<Seq<char>>,
    patterns: Seq<Seq<char>>,
    file: Seq<char>,
    sev: Severity,
) -> Seq<DiagnosticModel> {
    ben2_scan(lines, patterns, 0, false, 0).map_values(|u: UnverifiedBenchmark| ben2_model(file, sev, u))
}

fn first_fn_line_exec(lines: &Vec<Vec<char>>, j: usize, dflt: usize) -> (r: usize)
    requires
        j <= dflt <= lines.len(),
    ensures
        r == first_fn_line_from(lines_view(lines@), j as int, dflt as int),
    decreases lines.len() - j,
{
    if j >= lines.len() {
        return dflt;
    }
    assert(lines_view(lines@)[j as int] == lines@[j as int]@);
    if parse_fn_name_line(&lines[j]).is_some() {
        j
    } else if j + 1 <= dflt {
        first_fn_line_exec(lines, j + 1, dflt)
    } else {
        first_fn_line_exec_any(lines, j + 1, dflt)
    }
}

fn first_fn_line_exec_any(lines: &Vec<Vec<char>>, j: usize, dflt: usize) -> (r: usize)
    requires
        j <= lines.len(),
    ensures
        r == first_fn_line_from(lines_view(lines@), j as int, dflt as int),
    decreases lines.len() - j,
{
    if j >= lines.len() {
        return dflt;
    }
    assert(lines_view(lines@)[j as int] == lines@[j as int]@);
    if parse_fn_name_line(&lines[j]).is_some() {
        j
    } else {
        first_fn_line_exec_any(lines, j + 1, dflt)
    }
}

impl BenchmarkVerification {
    /// Reports benchmarks whose body has no verification step.
    pub fn check(&self, ctx: &FileContext, config: &Config) -> (r: Option<Vec<Diagnostic>>)
        requires
            ctx.content@.len() <= isize::MAX,
        ensures
            (!ctx.is_rust || !ctx.is_benchmark_file) ==> r is None,
            (ctx.is_rust && ctx.is_benchmark_file) ==> report_of(
                ben2_found(
                    lines_of(ctx.content@),
                    config.benchmarking.verification_patterns@.map_values(|s: String| s@),
                    ctx.path@,
                    config.spec_rule_severity("BEN002"@, Severity::Warning),
                ),
                r,
            ),
    {
        if !ctx.is_rust || !ctx.is_benchmark_file {
            return None;
        }
        let lines = content_lines(ctx);
        let ghost lv = lines_view(lines@);
        let patterns = crate::rules::semantic::strings_chars(
            &config.benchmarking.verification_patterns,
        );
        let ghost pv = lines_view(patterns@);
        let severity = config.rule_severity(self.id(), Severity::Warning);
        let mut diagnostics: Vec<Diagnostic> = Vec::new();
        let ghost mut found: Seq<UnverifiedBenchmark> = seq![];
        let mut in_macro = false;
        let mut depth: i64 = 0;
        let mut i: usize = 0;
        let n = lines.len();
        assert(found + ben2_scan(lv, pv, 0, false, 0) =~= ben2_scan(lv, pv, 0, false, 0));
        while i < n
            invariant
                i <= n,
                n == lines@.len(),
                n <= isize::MAX,
                lv == lines_view(lines@),
                pv == lines_view(patterns@),
                total_len(lv) <= isize::MAX,
                -total_len(lv.take(i as int)) <= depth <= total_len(lv.take(i as int)),
                found + ben2_scan(lv, pv, i as int, in_macro, depth as int) == ben2_scan(
                    lv,
                    pv,
                    0,
                    false,
                    0,
                ),
                models(diagnostics@) == found.map_values(
                    |u: UnverifiedBenchmark| ben2_model(ctx.path@, severity, u),
                ),
            decreases n - i,
        {
            let ghost old_found = found;
            let ghost in0 = in_macro;
            let ghost d0 = depth as int;
            let line = &lines[i];
            proof {
                assert(lv[i as int] == line@);
                crate::text::lemma_line_len_le_total(lv, i as int);
                crate::text::lemma_total_len_take(lv, i as int);
                crate::text::lemma_total_len_prefix(lv, i + 1);
                crate::rules::masks::lemma_count_le(line@, '{');
                crate::rules::masks::lemma_count_le(line@, '}');
            }
            let t = trim_exec(line);
            if starts_with_str(&t, "benchmarks!") {
                in_macro = true;
                depth = 0;
            }
            let is_proc = equals_str(&t, "#[benchmark]");
            let is_mac = in_macro && !is_proc && parse_macro_benchmark_name(&t).is_some();
            if is_proc || is_mac {
                proof {
                    lemma_first_fn_line_range(lv, i + 1, i + 1);
                }
                let fs = if is_proc {
                    first_fn_line_exec(&lines, i + 1, i + 1)
                } else {
                    i
                };
                let name: Vec<char> = if is_proc {
                    let parsed = if fs < n {
                        assert(lv[fs as int] == lines@[fs as int]@);
                        parse_fn_name_line(&lines[fs])
                    } else {
                        None
                    };
                    match parsed {
                        Some(nm) => nm,
                        None => chars_of("unknown"),
                    }
                } else {
                    match parse_macro_benchmark_name(&t) {
                        Some(nm) => nm,
                        None => Vec::new(),
                    }
                };
                let body_end = find_block_end_from(&lines, fs);
                proof {
                    lemma_block_end_scan_range(lv, fs as int, 0, false);
                }
                let verified = has_verification_in_text(&lines, fs, body_end + 1, &patterns);
                let ghost u = UnverifiedBenchmark {
                    name: name@,
                    start: fs as int,
                    end: body_end as int,
                };
                let ghost rest = ben2_scan(lv, pv, body_end + 1, in_macro, depth as int);
                assert(ben2_scan(lv, pv, i as int, in0, d0) == if verified {
                    rest
                } else {
                    seq![u] + rest
                });
                if !verified {
                    let m = crate::text::concat(&chars_of("Benchmark `"), &name);
                    let m = crate::text::push_str(m, "` has no verification/postcondition check");
                    let d = make_diagnostic(
                        self.id(),
                        self.name(),
                        RuleCategory::Benchmark,
                        severity,
                        &ctx.path,
                        fs + 1,
                        None,
                        Some(body_end + 1),
                        crate::text::string_of(&m),
                        "Benchmarks should include a `verify` block that asserts the expected state change occurred. Without verification, a benchmark can silently measure a no-op.",
                        Some(
                            "Add a `verify { ... }` block with assertions like `assert_last_event` or `assert_has_event`".to_owned(),
                        ),
                    );
                    let ghost before = diagnostics@;
                    diagnostics.push(d);
                    proof {
                        found = found.push(u);
                        assert(models(diagnostics@) =~= models(before).push(d@));
                        assert(found.map_values(
                            |u: UnverifiedBenchmark| ben2_model(ctx.path@, severity, u),
                        ) =~= old_found.map_values(
                            |u: UnverifiedBenchmark| ben2_model(ctx.path@, severity, u),
                        ).push(ben2_model(ctx.path@, severity, u)));
                        assert(found + rest =~= old_found + (seq![u] + rest));
                    }
                }
                proof {
                    crate::text::lemma_total_len_prefix(lv, body_end + 1);
                    crate::text::lemma_total_len_prefix(lv.take(body_end + 1), i + 1);
                    assert(lv.take(body_end + 1).take(i + 1) =~= lv.take(i + 1));
                }
                i = body_end + 1;
            } else {
                if in_macro {
                    let open = count_char_exec(line, '{') as i64;
                    let close = count_char_exec(line, '}') as i64;
                    depth = depth + open - close;
                    if depth <= 0 {
                        in_macro = false;
                    }
                }
                i += 1;
            }
        }
        assert(ben2_scan(lv, pv, i as int, in_macro, depth as int) =~= Seq::<UnverifiedBenchmark>::empty());
        assert(found + Seq::<UnverifiedBenchmark>::empty() =~= found);
        into_report(diagnostics)
    }
}

// ---------------------------------------------------------------------------
// Weight functions, benchmarks and extrinsics found in the text
// ---------------------------------------------------------------------------

/// A name with the 1-based line it stands on.
pub open spec fn named_lines(v: Seq<(String, usize)>) -> Seq<(Seq<char>, nat)> {
    v.map_values(|p: (String, usize)| (p.0@, p.1 as nat))
}

/// The texts of a list of names.
pub open spec fn names_view(v: Seq<String>) -> Seq<Seq<char>> {
    v.map_values(|s: String| s@)
}

/// The regex of a weight function's header, with the name as group 1.
pub open spec fn weight_fn_regex() -> Seq<char> {
    "fn\\s+(\\w+)\\s*\\("@
}

/// A line that opens the `WeightInfo` trait or an implementation of it.
pub open spec fn opens_weight_info(t: Seq<char>) -> bool {
    ||| contains(t, "trait WeightInfo"@)
    ||| contains(t, "impl<T: frame_system::Config> WeightInfo"@)
    ||| (contains(t, "impl<T: frame_system::Config>"@) && contains(t, "WeightInfo"@))
}

/// The weight functions the text names from line index `i` on: once a line
/// opens `WeightInfo`, every later line with a function header gives its
/// name and line.
pub open spec fn weight_fns_from(lines: Seq<Seq<char>>, i: int, in_trait: bool) -> Seq<(Seq<char>, nat)>
    decreases lines.len() - i,
{
    if i < 0 || i >= lines.len() {
        seq![]
    } else {
        let t = trim(lines[i]);
        if opens_weight_info(t) {
            weight_fns_from(lines, i + 1, true)
        } else if in_trait {
            match regex_first_group(weight_fn_regex(), t) {
                Some(n) => seq![(n, (i + 1) as nat)] + weight_fns_from(lines, i + 1, true),
                None => weight_fns_from(lines, i + 1, true),
            }
        } else {
            weight_fns_from(lines, i + 1, false)
        }
    }
}

/// The weight functions of a `weights.rs`: those the syntax tree gave when
/// it gave any, else those found in the text.
pub open spec fn spec_weight_function_names(ast_names: Seq<(Seq<char>, nat)>, content: Seq<char>) -> Seq<(Seq<char>, nat)> {
    if ast_names.len() > 0 {
        ast_names
    } else {
        weight_fns_from(lines_of(content), 0, false)
    }
}

/// The weight functions of a `weights.rs` file: `ast_names` are those that
/// the syntax tree's `WeightInfo` trait and impls declare, empty when the
/// file did not parse; when there are none, the text is scanned.
pub fn collect_weight_function_names(ast_names: Vec<(String, usize)>, content: &String) -> (r: Vec<(String, usize)>)
    ensures
        named_lines(r@) == spec_weight_function_names(named_lines(ast_names@), content@),
{
    if ast_names.len() > 0 {
        return ast_names;
    }
    let lines = split_lines(&chars_of(content.as_str()));
    let ghost lv = lines_view(lines@);
    assert(lv == lines_of(content@));
    let mut r: Vec<(String, usize)> = Vec::new();
    let mut in_trait = false;
    let mut i: usize = 0;
    assert(named_lines(r@) + weight_fns_from(lv, 0, false) =~= weight_fns_from(lv, 0, false));
    while i < lines.len()
        invariant
            i <= lines@.len(),
            lv == lines_view(lines@),
            named_lines(r@) + weight_fns_from(lv, i as int, in_trait) == weight_fns_from(lv, 0, false),
        decreases lines.len() - i,
    {
        assert(lv[i as int] == lines@[i as int]@);
        let t = trim_exec(&lines[i]);
        if contains_str(&t, "trait WeightInfo") || contains_str(
            &t,
            "impl<T: frame_system::Config> WeightInfo",
        ) || (contains_str(&t, "impl<T: frame_system::Config>") && contains_str(&t, "WeightInfo")) {
            in_trait = true;
        } else if in_trait {
            match regex_capture("fn\\s+(\\w+)\\s*\\(", string_of(&t).as_str()) {
                Some(n) => {
                    let ghost before = r@;
                    r.push((n, i + 1));
                    assert(named_lines(r@) =~= named_lines(before).push((n@, (i + 1) as nat)));
                    assert(named_lines(r@) + weight_fns_from(lv, i + 1, true) =~= named_lines(before)
                        + weight_fns_from(lv, i as int, true));
                },
                None => {},
            }
        }
        i += 1;
    }
    r
}

/// The regex of a benchmark function's header, with the name as group 1.
pub open spec fn bench_fn_regex() -> Seq<char> {
    "fn\\s+(\\w+)"@
}

/// The regex of a `name {` line of `benchmarks!`, with the name as group 1.
pub open spec fn bare_bench_regex() -> Seq<char> {
    "^(\\w+)\\s*\\{"@
}

/// Item keywords that cannot name a benchmark.
pub open spec fn is_item_keyword(c: Seq<char>) -> bool {
    ||| c == "mod"@
    ||| c == "use"@
    ||| c == "impl"@
    ||| c == "pub"@
    ||| c == "fn"@
    ||| c == "let"@
    ||| c == "if"@
    ||| c == "for"@
    ||| c == "where"@
    ||| c == "type"@
}

/// A line that opens a benchmarks module.
pub open spec fn opens_benchmarks(t: Seq<char>) -> bool {
    starts_with(t, "benchmarks!"@) || contains(t, "benchmarks! {"@) || t == "#[benchmarks]"@
}

/// The benchmark names the text gives from line index `i` on: the function
/// after a `#[benchmark]` line (attributes and blank lines between), and,
/// inside a benchmarks module, each `name {` line that is no comment and
/// whose name is no item keyword.
pub open spec fn bench_names_from(lines: Seq<Seq<char>>, i: int, in_macro: bool, next_fn: bool) -> Seq<Seq<char>>
    decreases lines.len() - i,
{
    if i < 0 || i >= lines.len() {
        seq![]
    } else {
        let t = trim(lines[i]);
        let m = in_macro || opens_benchmarks(t);
        if t == "#[benchmark]"@ {
            bench_names_from(lines, i + 1, m, true)
        } else if next_fn && regex_first_group(bench_fn_regex(), t) is Some {
            seq![regex_first_group(bench_fn_regex(), t)->0] + bench_names_from(lines, i + 1, m, false)
        } else if next_fn && (starts_with(t, "#"@) || t.len() == 0) {
            bench_names_from(lines, i + 1, m, true)
        } else {
            let rest = bench_names_from(lines, i + 1, m, false);
            if m && !starts_with(t, "//"@) {
                match regex_first_group(bare_bench_regex(), t) {
                    Some(name) => if is_item_keyword(name) {
                        rest
                    } else {
                        seq![name] + rest
                    },
                    None => rest,
                }
            } else {
                rest
            }
        }
    }
}

/// Whether `name` is one of the item keywords.
fn is_item_keyword_exec(name: &Vec<char>) -> (r: bool)
    ensures
        r == is_item_keyword(name@),
{
    equals_str(name, "mod") || equals_str(name, "use") || equals_str(name, "impl") || equals_str(
        name,
        "pub",
    ) || equals_str(name, "fn") || equals_str(name, "let") || equals_str(name, "if")
        || equals_str(name, "for") || equals_str(name, "where") || equals_str(name, "type")
}

/// The benchmark names of a benchmarking file: `ast_names` are the
/// `#[benchmark]` functions of its syntax tree (empty when it did not
/// parse), followed by the names found in its text.
pub fn collect_benchmark_names(ast_names: Vec<String>, content: &String) -> (r: Vec<String>)
    ensures
        names_view(r@) == names_view(ast_names@) + bench_names_from(lines_of(content@), 0, false, false),
{
    let lines = split_lines(&chars_of(content.as_str()));
    let ghost lv = lines_view(lines@);
    assert(lv == lines_of(content@));
    let mut r = ast_names;
    let ghost base = names_view(r@);
    let ghost mut got: Seq<Seq<char>> = seq![];
    let mut in_macro = false;
    let mut next_fn = false;
    let mut i: usize = 0;
    while i < lines.len()
        invariant
            i <= lines@.len(),
            lv == lines_view(lines@),
            names_view(r@) == base + got,
            got + bench_names_from(lv, i as int, in_macro, next_fn) == bench_names_from(lv, 0, false, false),
        decreases lines.len() - i,
    {
        assert(lv[i as int] == lines@[i as int]@);
        let t = trim_exec(&lines[i]);
        let ts = string_of(&t);
        if starts_with_str(&t, "benchmarks!") || contains_str(&t, "benchmarks! {") || equals_str(
            &t,
            "#[benchmarks]",
        ) {
            in_macro = true;
        }
        if equals_str(&t, "#[benchmark]") {
            next_fn = true;
            i += 1;
            continue;
        }
        if next_fn {
            match regex_capture("fn\\s+(\\w+)", ts.as_str()) {
                Some(n) => {
                    let ghost before = r@;
                    r.push(n);
                    proof {
                        assert(names_view(r@) =~= names_view(before).push(n@));
                        assert(got.push(n@) + bench_names_from(lv, i + 1, in_macro, false) =~= got
                            + (seq![n@] + bench_names_from(lv, i + 1, in_macro, false)));
                        got = got.push(n@);
                    }
                    next_fn = false;
                    i += 1;
                    continue;
                },
                None => {},
            }
            if starts_with_str(&t, "#") || t.len() == 0 {
                i += 1;
                continue;
            }
            next_fn = false;
        }
        if in_macro && !starts_with_str(&t, "//") {
            match regex_capture("^(\\w+)\\s*\\{", ts.as_str()) {
                Some(name) => {
                    if !is_item_keyword_exec(&chars_of(name.as_str())) {
                        let ghost before = r@;
                        r.push(name);
                        proof {
                            assert(names_view(r@) =~= names_view(before).push(name@));
                            assert(got.push(name@) + bench_names_from(lv, i + 1, in_macro, false)
                                =~= got + (seq![name@] + bench_names_from(lv, i + 1, in_macro, false)));
                            got = got.push(name@);
                        }
                    }
                },
                None => {},
            }
        }
        i += 1;
    }
    r
}

/// The regex of a `#[pallet::call_index(` attribute.
pub open spec fn call_index_regex() -> Seq<char> {
    "#\\[pallet::call_index\\s*\\("@
}

/// The regex of a public function's header, with the name as group 1.
pub open spec fn pub_fn_regex() -> Seq<char> {
    "pub fn\\s+(\\w+)"@
}

/// The first public function header among line indices `j` up to `end`,
/// with its 1-based line.
pub open spec fn pub_fn_between(lines: Seq<Seq<char>>, j: int, end: int) -> Option<(Seq<char>, nat)>
    decreases end - j,
{
    if j < 0 || j >= end || j >= lines.len() {
        None
    } else {
        match regex_first_group(pub_fn_regex(), lines[j]) {
            Some(n) => Some((n, (j + 1) as nat)),
            None => pub_fn_between(lines, j + 1, end),
        }
    }
}

/// The extrinsics the text names from line index `i` on: for each
/// `#[pallet::call_index(` line, the first public function in the four
/// lines after it.
pub open spec fn extrinsics_from(lines: Seq<Seq<char>>, i: int) -> Seq<(Seq<char>, nat)>
    decreases lines.len() - i,
{
    if i < 0 || i >= lines.len() {
        seq![]
    } else {
        let rest = extrinsics_from(lines, i + 1);
        if regex_is_match(call_index_regex(), lines[i]) == Some(true) {
            let end = if i + 5 < lines.len() {
                i + 5
            } else {
                lines.len() as int
            };
            match pub_fn_between(lines, i + 1, end) {
                Some(p) => seq![p] + rest,
                None => rest,
            }
        } else {
            rest
        }
    }
}

/// The extrinsics of a pallet: those the syntax tree gave when it gave
/// any, else those found in the text.
pub open spec fn spec_extrinsic_names(ast_names: Seq<(Seq<char>, nat)>, content: Seq<char>) -> Seq<(Seq<char>, nat)> {
    if ast_names.len() > 0 {
        ast_names
    } else {
        extrinsics_from(lines_of(content), 0)
    }
}

/// The first public function header among line indices `from` up to `end`.
fn pub_fn_between_exec(lines: &Vec<Vec<char>>, from: usize, end: usize) -> (r: Option<(String, usize)>)
    requires
        end <= lines@.len(),
    ensures
        match r {
            Some(p) => pub_fn_between(lines_view(lines@), from as int, end as int) == Some(
                (p.0@, p.1 as nat),
            ),
            None => pub_fn_between(lines_view(lines@), from as int, end as int) is None,
        },
{
    let ghost lv = lines_view(lines@);
    let mut j: usize = from;
    while j < end
        invariant
            from <= j,
            end <= lines@.len(),
            lv == lines_view(lines@),
            pub_fn_between(lv, from as int, end as int) == pub_fn_between(lv, j as int, end as int),
        decreases end - j,
    {
        assert(lv[j as int] == lines@[j as int]@);
        match regex_capture("pub fn\\s+(\\w+)", string_of(&lines[j]).as_str()) {
            Some(n) => {
                return Some((n, j + 1));
            },
            None => {},
        }
        j += 1;
    }
    None
}

/// The dispatchable functions of a pallet: `ast_names` are the functions
/// with `#[pallet::call_index]` in its `#[pallet::call]` impls (empty when
/// the file did not parse); when there are none, the text is scanned.
pub fn collect_extrinsic_names(ast_names: Vec<(String, usize)>, content: &String) -> (r: Vec<(String, usize)>)
    ensures
        named_lines(r@) == spec_extrinsic_names(named_lines(ast_names@), content@),
{
    if ast_names.len() > 0 {
        return ast_names;
    }
    let lines = split_lines(&chars_of(content.as_str()));
    let ghost lv = lines_view(lines@);
    assert(lv == lines_of(content@));
    let mut r: Vec<(String, usize)> = Vec::new();
    let mut i: usize = 0;
    assert(named_lines(r@) + extrinsics_from(lv, 0) =~= extrinsics_from(lv, 0));
    while i < lines.len()
        invariant
            i <= lines@.len(),
            lv == lines_view(lines@),
            named_lines(r@) + extrinsics_from(lv, i as int) == extrinsics_from(lv, 0),
        decreases lines.len() - i,
    {
        assert(lv[i as int] == lines@[i as int]@);
        let line = string_of(&lines[i]);
        if regex_match("#\\[pallet::call_index\\s*\\(", line.as_str()) == Some(true) {
            let end: usize = if lines.len() - i > 5 {
                i + 5
            } else {
                lines.len()
            };
            match pub_fn_between_exec(&lines, i + 1, end) {
                Some(p) => {
                    let ghost before = r@;
                    let ghost pv = (p.0@, p.1 as nat);
                    r.push(p);
                    assert(named_lines(r@) =~= named_lines(before).push(pv));
                    assert(named_lines(r@) + extrinsics_from(lv, i + 1) =~= named_lines(before)
                        + extrinsics_from(lv, i as int));
                },
                None => {},
            }
        }
        i += 1;
    }
    r
}

// ---------------------------------------------------------------------------
// BEN001 and BEN003: benchmarks next to weights and calls
// ---------------------------------------------------------------------------

/// What looking for a file next to the checked one gave.
pub enum FileProbe {
    /// No such file.
    Missing,
    /// The file is there but could not be read.
    Unreadable,
    /// The file's text, and the `#[benchmark]` functions of its syntax tree
    /// (empty when it did not parse).
    Read { text: String, ast_benchmarks: Vec<String> },
}

/// The two benchmark files a pallet may have, in the checked file's
/// directory.
pub struct BenchmarkFiles {
    /// `benchmarking.rs`.
    pub benchmarking: FileProbe,
    /// `benchmarks.rs`.
    pub benchmarks: FileProbe,
}

/// The benchmark names of a probed file, when it was read.
pub open spec fn probe_names(p: FileProbe) -> Option<Seq<Seq<char>>> {
    match p {
        FileProbe::Read { text, ast_benchmarks } => Some(
            names_view(ast_benchmarks@) + bench_names_from(lines_of(text@), 0, false, false),
        ),
        _ => None,
    }
}

/// BEN001 reads `benchmarking.rs` when it is there, else `benchmarks.rs`.
pub open spec fn ben001_source(files: BenchmarkFiles) -> FileProbe {
    match files.benchmarking {
        FileProbe::Missing => files.benchmarks,
        _ => files.benchmarking,
    }
}

/// The BEN001 diagnostic for a weight function when no benchmark file could
/// be read.
pub open spec fn ben001_missing_model(file: Seq<char>, sev: Severity, f: (Seq<char>, nat)) -> DiagnosticModel {
    DiagnosticModel {
        rule_id: "BEN001"@,
        rule_name: "benchmark-for-weight-function"@,
        category: RuleCategory::Benchmark,
        severity: sev,
        file,
        line: f.1,
        column: None,
        end_line: None,
        message: "Weight function `"@ + f.0
            + "` has no benchmark — `benchmarking.rs` not found in the same directory"@,
        explanation: "Every weight function must have a matching benchmark. No `benchmarking.rs` file was found alongside this `weights.rs`."@,
        suggestion: Some("Create a `benchmarking.rs` with benchmarks for all weight functions"@),
    }
}

/// The BEN001 diagnostic for a weight function no benchmark is named after.
pub open spec fn ben001_unmatched_model(file: Seq<char>, sev: Severity, f: (Seq<char>, nat)) -> DiagnosticModel {
    DiagnosticModel {
        rule_id: "BEN001"@,
        rule_name: "benchmark-for-weight-function"@,
        category: RuleCategory::Benchmark,
        severity: sev,
        file,
        line: f.1,
        column: None,
        end_line: None,
        message: "Weight function `"@ + f.0 + "` has no corresponding benchmark in `benchmarking.rs`"@,
        explanation: "Every weight function must have a matching benchmark. Without a benchmark, the weight is likely a guess or copy-paste, which can lead to under- or over-charging."@,
        suggestion: Some("Add a `#[benchmark] fn "@ + f.0 + "` in `benchmarking.rs`"@),
    }
}

/// The BEN001 diagnostics: with no benchmark names every weight function;
/// else each one whose name is not a benchmark name.
pub open spec fn ben001_found(
    fns: Seq<(Seq<char>, nat)>,
    names: Option<Seq<Seq<char>>>,
    file: Seq<char>,
    sev: Severity,
) -> Seq<DiagnosticModel>
    decreases fns.len(),
{
    if fns.len() == 0 {
        seq![]
    } else {
        let rest = ben001_found(fns.drop_last(), names, file, sev);
        match names {
            None => rest.push(ben001_missing_model(file, sev, fns.last())),
            Some(ns) => if ns.contains(fns.last().0) {
                rest
            } else {
                rest.push(ben001_unmatched_model(file, sev, fns.last()))
            },
        }
    }
}

/// Whether `target` is one of `names`.
pub fn name_listed(names: &Vec<String>, target: &String) -> (r: bool)
    ensures
        r == names_view(names@).contains(target@),
{
    let t = chars_of(target.as_str());
    let mut k: usize = 0;
    while k < names.len()
        invariant
            k <= names@.len(),
            t@ == target@,
            forall|j: int| 0 <= j < k ==> names@[j]@ != target@,
        decreases names.len() - k,
    {
        if equals_str(&t, names[k].as_str()) {
            assert(names_view(names@)[k as int] == target@);
            return true;
        }
        k += 1;
    }
    proof {
        if names_view(names@).contains(target@) {
            let j = choose|j: int| 0 <= j < names_view(names@).len() && names_view(names@)[j] == target@;
            assert(names@[j]@ == target@);
        }
    }
    false
}

/// `a`, then `name`, then `b`.
fn wrap_name(a: &str, name: &String, b: &str) -> (r: String)
    ensures
        r@ == a@ + name@ + b@,
{
    a.to_owned().concat(name.as_str()).concat(b)
}

/// The benchmark names of a probed file, when it was read.
fn probe_names_exec(p: FileProbe) -> (r: Option<Vec<String>>)
    ensures
        match r {
            Some(v) => probe_names(p) == Some(names_view(v@)),
            None => probe_names(p) is None,
        },
{
    match p {
        FileProbe::Read { text, ast_benchmarks } => Some(collect_benchmark_names(ast_benchmarks, &text)),
        _ => None,
    }
}

impl BenchmarkForWeightFunction {
    /// Reports the weight functions of a `weights.rs` without a benchmark of
    /// the same name next to it. `weight_ast_names` are the functions of the
    /// file's `WeightInfo` trait and impls by its syntax tree (empty when it
    /// did not parse); `bench` is what the directory holds.
    pub fn check(
        &self,
        ctx: &FileContext,
        config: &Config,
        weight_ast_names: Vec<(String, usize)>,
        bench: BenchmarkFiles,
    ) -> (r: Option<Vec<Diagnostic>>)
        ensures
            ({
                let fns = spec_weight_function_names(named_lines(weight_ast_names@), ctx.content@);
                if !ctx.is_rust || !ends_with(ctx.rel_path@, "weights.rs"@) || fns.len() == 0
                    || std_path_parent(ctx.path@) is None {
                    r is None
                } else {
                    report_of(
                        ben001_found(
                            fns,
                            probe_names(ben001_source(bench)),
                            ctx.path@,
                            config.spec_rule_severity("BEN001"@, Severity::Warning),
                        ),
                        r,
                    )
                }
            }),
    {
        if !ctx.is_rust {
            return None;
        }
        if !ends_with_str(&chars_of(ctx.rel_path.as_str()), "weights.rs") {
            return None;
        }
        let weight_fns = collect_weight_function_names(weight_ast_names, &ctx.content);
        if weight_fns.len() == 0 {
            return None;
        }
        if path_parent(ctx.path.as_str()).is_none() {
            return None;
        }
        let ghost source = ben001_source(bench);
        let chosen = match bench.benchmarking {
            FileProbe::Missing => bench.benchmarks,
            other => other,
        };
        assert(chosen == source);
        let names = probe_names_exec(chosen);
        let severity = config.rule_severity(self.id(), Severity::Warning);
        let ghost fv = named_lines(weight_fns@);
        let ghost nv = probe_names(source);
        let mut diagnostics: Vec<Diagnostic> = Vec::new();
        let mut i: usize = 0;
        assert(fv.take(0) =~= Seq::<(Seq<char>, nat)>::empty());
        while i < weight_fns.len()
            invariant
                i <= weight_fns@.len(),
                fv == named_lines(weight_fns@),
                match names {
                    Some(v) => nv == Some(names_view(v@)),
                    None => nv is None,
                },
                models(diagnostics@) == ben001_found(fv.take(i as int), nv, ctx.path@, severity),
            decreases weight_fns.len() - i,
        {
            let (ref fn_name, line) = weight_fns[i];
            assert(fv.take(i + 1).drop_last() =~= fv.take(i as int));
            assert(fv.take(i + 1).last() == (fn_name@, line as nat));
            let ghost before = models(diagnostics@);
            match &names {
                None => {
                    diagnostics.push(
                        make_diagnostic(
                            self.id(),
                            self.name(),
                            RuleCategory::Benchmark,
                            severity,
                            &ctx.path,
                            line,
                            None,
                            None,
                            wrap_name(
                                "Weight function `",
                                fn_name,
                                "` has no benchmark — `benchmarking.rs` not found in the same directory",
                            ),
                            "Every weight function must have a matching benchmark. No `benchmarking.rs` file was found alongside this `weights.rs`.",
                            Some("Create a `benchmarking.rs` with benchmarks for all weight functions".to_owned()),
                        ),
                    );
                    assert(models(diagnostics@) =~= before.push(
                        ben001_missing_model(ctx.path@, severity, (fn_name@, line as nat)),
                    ));
                },
                Some(v) => {
                    if !name_listed(v, fn_name) {
                        diagnostics.push(
                            make_diagnostic(
                                self.id(),
                                self.name(),
                                RuleCategory::Benchmark,
                                severity,
                                &ctx.path,
                                line,
                                None,
                                None,
                                wrap_name(
                                    "Weight function `",
                                    fn_name,
                                    "` has no corresponding benchmark in `benchmarking.rs`",
                                ),
                                "Every weight function must have a matching benchmark. Without a benchmark, the weight is likely a guess or copy-paste, which can lead to under- or over-charging.",
                                Some(wrap_name("Add a `#[benchmark] fn ", fn_name, "` in `benchmarking.rs`")),
                            ),
                        );
                        assert(models(diagnostics@) =~= before.push(
                            ben001_unmatched_model(ctx.path@, severity, (fn_name@, line as nat)),
                        ));
                    }
                },
            }
            i += 1;
        }
        assert(fv.take(weight_fns@.len() as int) =~= fv);
        into_report(diagnostics)
    }
}

/// What BEN003 reads: `benchmarking.rs` when it is there, else
/// `benchmarks.rs` when that is there, else nothing (`None`).
pub open spec fn ben003_source(files: BenchmarkFiles) -> Option<FileProbe> {
    match files.benchmarking {
        FileProbe::Missing => match files.benchmarks {
            FileProbe::Missing => None,
            _ => Some(files.benchmarks),
        },
        _ => Some(files.benchmarking),
    }
}

/// The BEN003 diagnostic for an extrinsic when there is no benchmark file.
pub open spec fn ben003_missing_model(file: Seq<char>, sev: Severity, f: (Seq<char>, nat)) -> DiagnosticModel {
    DiagnosticModel {
        rule_id: "BEN003"@,
        rule_name: "extrinsic-without-benchmark"@,
        category: RuleCategory::Benchmark,
        severity: sev,
        file,
        line: f.1,
        column: None,
        end_line: None,
        message: "Extrinsic `"@ + f.0 + "` has no benchmark — no benchmarking file found"@,
        explanation: "Every dispatchable extrinsic needs a benchmark for accurate weights."@,
        suggestion: Some("Create `benchmarking.rs` with benchmarks for all extrinsics"@),
    }
}

/// The BEN003 diagnostic for an extrinsic that no benchmark covers.
pub open spec fn ben003_unmatched_model(file: Seq<char>, sev: Severity, f: (Seq<char>, nat)) -> DiagnosticModel {
    DiagnosticModel {
        rule_id: "BEN003"@,
        rule_name: "extrinsic-without-benchmark"@,
        category: RuleCategory::Benchmark,
        severity: sev,
        file,
        line: f.1,
        column: None,
        end_line: None,
        message: "Extrinsic `"@ + f.0 + "` has no matching benchmark in `benchmarking.rs`"@,
        explanation: "Every dispatchable extrinsic needs a benchmark for accurate weights."@,
        suggestion: Some("Add `#[benchmark] fn "@ + f.0 + "` in `benchmarking.rs`"@),
    }
}

/// Some benchmark in `names` covers `target` (see `benchmark_covers`).
pub open spec fn covered_by(names: Seq<Seq<char>>, target: Seq<char>) -> bool {
    exists|k: int| 0 <= k < names.len() && benchmark_covers(#[trigger] names[k], target)
}

/// The BEN003 diagnostics: with no benchmark file every extrinsic; else
/// each one that no benchmark covers.
pub open spec fn ben003_found(
    fns: Seq<(Seq<char>, nat)>,
    names: Option<Seq<Seq<char>>>,
    file: Seq<char>,
    sev: Severity,
) -> Seq<DiagnosticModel>
    decreases fns.len(),
{
    if fns.len() == 0 {
        seq![]
    } else {
        let rest = ben003_found(fns.drop_last(), names, file, sev);
        match names {
            None => rest.push(ben003_missing_model(file, sev, fns.last())),
            Some(ns) => if covered_by(ns, fns.last().0) {
                rest
            } else {
                rest.push(ben003_unmatched_model(file, sev, fns.last()))
            },
        }
    }
}

impl ExtrinsicWithoutBenchmark {
    /// Reports the extrinsics of a pallet's `lib.rs` that no benchmark next
    /// to it covers. `extrinsic_ast_names` are the `#[pallet::call_index]`
    /// functions of its `#[pallet::call]` impls by its syntax tree (empty when
    /// it did not parse); `bench` is what the directory holds.
    pub fn check(
        &self,
        ctx: &FileContext,
        config: &Config,
        extrinsic_ast_names: Vec<(String, usize)>,
        bench: BenchmarkFiles,
    ) -> (r: Option<Vec<Diagnostic>>)
        ensures
            ({
                let fns = spec_extrinsic_names(named_lines(extrinsic_ast_names@), ctx.content@);
                let sev = config.spec_rule_severity("BEN003"@, Severity::Warning);
                if !ctx.is_rust || ctx.is_test_file || ctx.is_benchmark_file || !ends_with(
                    ctx.rel_path@,
                    "lib.rs"@,
                ) || !contains(ctx.content@, "#[pallet::call]"@) || fns.len() == 0 || std_path_parent(
                    ctx.path@,
                ) is None {
                    r is None
                } else {
                    match ben003_source(bench) {
                        None => report_of(ben003_found(fns, None, ctx.path@, sev), r),
                        Some(FileProbe::Unreadable) => r is None,
                        Some(p) => report_of(ben003_found(fns, probe_names(p), ctx.path@, sev), r),
                    }
                }
            }),
    {
        if !ctx.is_rust || ctx.is_test_file || ctx.is_benchmark_file {
            return None;
        }
        if !ends_with_str(&chars_of(ctx.rel_path.as_str()), "lib.rs") {
            return None;
        }
        if !contains_str(&chars_of(ctx.content.as_str()), "#[pallet::call]") {
            return None;
        }
        let extrinsic_fns = collect_extrinsic_names(extrinsic_ast_names, &ctx.content);
        if extrinsic_fns.len() == 0 {
            return None;
        }
        if path_parent(ctx.path.as_str()).is_none() {
            return None;
        }
        let ghost source = ben003_source(bench);
        let chosen: Option<FileProbe> = match bench.benchmarking {
            FileProbe::Missing => match bench.benchmarks {
                FileProbe::Missing => None,
                other => Some(other),
            },
            other => Some(other),
        };
        assert(chosen == source);
        let names: Option<Vec<String>> = match chosen {
            None => None,
            Some(FileProbe::Unreadable) => return None,
            Some(p) => match probe_names_exec(p) {
                Some(v) => Some(v),
                None => None,
            },
        };
        let ghost nv: Option<Seq<Seq<char>>> = match source {
            None => None,
            Some(p) => probe_names(p),
        };
        let severity = config.rule_severity(self.id(), Severity::Warning);
        let ghost fv = named_lines(extrinsic_fns@);
        let mut diagnostics: Vec<Diagnostic> = Vec::new();
        let mut i: usize = 0;
        assert(fv.take(0) =~= Seq::<(Seq<char>, nat)>::empty());
        while i < extrinsic_fns.len()
            invariant
                i <= extrinsic_fns@.len(),
                fv == named_lines(extrinsic_fns@),
                match names {
                    Some(v) => nv == Some(names_view(v@)),
                    None => nv is None,
                },
                models(diagnostics@) == ben003_found(fv.take(i as int), nv, ctx.path@, severity),
            decreases extrinsic_fns.len() - i,
        {
            let (ref fn_name, line) = extrinsic_fns[i];
            assert(fv.take(i + 1).drop_last() =~= fv.take(i as int));
            assert(fv.take(i + 1).last() == (fn_name@, line as nat));
            let ghost before = models(diagnostics@);
            match &names {
                None => {
                    diagnostics.push(
                        make_diagnostic(
                            self.id(),
                            self.name(),
                            RuleCategory::Benchmark,
                            severity,
                            &ctx.path,
                            line,
                            None,
                            None,
                            wrap_name("Extrinsic `", fn_name, "` has no benchmark — no benchmarking file found"),
                            "Every dispatchable extrinsic needs a benchmark for accurate weights.",
                            Some("Create `benchmarking.rs` with benchmarks for all extrinsics".to_owned()),
                        ),
                    );
                    assert(models(diagnostics@) =~= before.push(
                        ben003_missing_model(ctx.path@, severity, (fn_name@, line as nat)),
                    ));
                },
                Some(v) => {
                    let covered = has_matching_benchmark_name(v, fn_name.as_str());
                    proof {
                        if covered_by(names_view(v@), fn_name@) {
                            let k = choose|k: int| 0 <= k < names_view(v@).len() && benchmark_covers(
                                names_view(v@)[k],
                                fn_name@,
                            );
                            assert(benchmark_covers(v@[k]@, fn_name@));
                        }
                        if covered {
                            let k = choose|k: int| 0 <= k < v@.len() && benchmark_covers(
                                v@[k]@,
                                fn_name@,
                            );
                            assert(benchmark_covers(names_view(v@)[k], fn_name@));
                        }
                    }
                    if !covered {
                        diagnostics.push(
                            make_diagnostic(
                                self.id(),
                                self.name(),
                                RuleCategory::Benchmark,
                                severity,
                                &ctx.path,
                                line,
                                None,
                                None,
                                wrap_name("Extrinsic `", fn_name, "` has no matching benchmark in `benchmarking.rs`"),
                                "Every dispatchable extrinsic needs a benchmark for accurate weights.",
                                Some(wrap_name("Add `#[benchmark] fn ", fn_name, "` in `benchmarking.rs`")),
                            ),
                        );
                        assert(models(diagnostics@) =~= before.push(
                            ben003_unmatched_model(ctx.path@, severity, (fn_name@, line as nat)),
                        ));
                    }
                },
            }
            i += 1;
        }
        assert(fv.take(extrinsic_fns@.len() as int) =~= fv);
        into_report(diagnostics)
    }
}

} // verus!
