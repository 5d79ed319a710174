//! Spelling and terminology conventions in comments, docs and strings.
use vstd::prelude::*;
use crate::config::Config;
use crate::context::FileContext;
use crate::diagnostics::{
    into_report, make_diagnostic, models, report_of, Diagnostic, DiagnosticModel, RuleCategory,
    Severity,
};
use crate::patterns::{
    regex_all_first_groups, regex_capture_all, regex_escape, regex_escaped, regex_is_match,
    regex_match, to_lowercase, unicode_lowercase,
};
use crate::rules::semantic::content_lines;
use crate::rules::LintRule;
use crate::text::{
    chars_of, concat, contains, contains_str, copy_range, lines_of, lines_view,
    starts_with, starts_with_exec, starts_with_str, string_of, trim, trim_exec,
};

verus! {

/// Lint rule `TRM001` (`spelling-conventions`).
pub struct SpellingConventions;

impl LintRule for SpellingConventions {
    open spec fn spec_id(&self) -> Seq<char> {
        "TRM001"@
    }

    open spec fn spec_name(&self) -> Seq<char> {
        "spelling-conventions"@
    }

    open spec fn spec_family(&self) -> Seq<char> {
        "terminology"@
    }

    fn id(&self) -> (r: &str) {
        "TRM001"
    }

    fn name(&self) -> (r: &str) {
        "spelling-conventions"
    }

    fn family(&self) -> (r: &str) {
        "terminology"
    }
}


// ---------------------------------------------------------------------------
// Finding a line comment
// ---------------------------------------------------------------------------

/// The number of quotes among the first `n` characters of `s` that are not
/// right after a backslash.
pub open spec fn quote_toggles(s: Seq<char>, n: int) -> nat
    decreases n,
{
    if n <= 0 {
        0
    } else {
        let j = n - 1;
        let prev = if j == 0 {
            ' '
        } else {
            s[j - 1]
        };
        quote_toggles(s, j) + if s[j] == '"' && prev != '\\' {
            1nat
        } else {
            0nat
        }
    }
}

/// A `//` starts at index `i` of `s` outside any string literal.
pub open spec fn comment_at(s: Seq<char>, i: int) -> bool {
    0 <= i && i + 1 < s.len() && quote_toggles(s, i + 1) % 2 == 0 && s[i] == '/' && s[i + 1] == '/'
}

/// The character index of the first `//` of `s` outside a string literal.
pub open spec fn spec_find_line_comment(s: Seq<char>) -> Option<int> {
    if exists|i: int| comment_at(s, i) {
        Some(choose|i: int| comment_at(s, i) && forall|j: int| 0 <= j < i ==> !comment_at(s, j))
    } else {
        None
    }
}

/// The character index of the first `//` of `line` outside a string literal.
pub fn find_line_comment(line: &Vec<char>) -> (r: Option<usize>)
    ensures
        match r {
            Some(i) => comment_at(line@, i as int) && forall|j: int|
                0 <= j < i ==> !comment_at(line@, j),
            None => forall|j: int| !comment_at(line@, j),
        },
        match r {
            Some(i) => spec_find_line_comment(line@) == Some(i as int),
            None => spec_find_line_comment(line@) is None,
        },
{
    let mut in_string = false;
    let mut prev = ' ';
    let mut i: usize = 0;
    while i < line.len()
        invariant
            i <= line.len(),
            in_string == (quote_toggles(line@, i as int) % 2 == 1),
            prev == if i == 0 {
                ' '
            } else {
                line@[i - 1]
            },
            forall|j: int| 0 <= j < i ==> !comment_at(line@, j),
        decreases line.len() - i,
    {
        if line[i] == '"' && prev != '\\' {
            in_string = !in_string;
        }
        assert(in_string == (quote_toggles(line@, i + 1) % 2 == 1));
        if !in_string && line[i] == '/' && i + 1 < line.len() && line[i + 1] == '/' {
            proof {
                let w = choose|k: int|
                    comment_at(line@, k) && forall|j: int| 0 <= j < k ==> !comment_at(line@, j);
                assert(comment_at(line@, i as int));
                if w < i {
                } else if w > i {
                }
            }
            return Some(i);
        }
        prev = line[i];
        i += 1;
    }
    assert forall|j: int| !comment_at(line@, j) by {
        if 0 <= j && j < line@.len() {
            assert(j < i);
        }
    }
    None
}

// ---------------------------------------------------------------------------
// TRM001: spelling conventions
// ---------------------------------------------------------------------------

/// `s` with every leading repetition of `p` removed (`str::trim_start_matches`).
pub open spec fn strip_all_prefix(s: Seq<char>, p: Seq<char>) -> Seq<char>
    decreases s.len(),
{
    if p.len() > 0 && starts_with(s, p) {
        strip_all_prefix(s.skip(p.len() as int), p)
    } else {
        s
    }
}

fn strip_all_prefix_exec(s: &Vec<char>, lit: &str) -> (r: Vec<char>)
    ensures
        r@ == strip_all_prefix(s@, lit@),
{
    let p = chars_of(lit);
    let mut cur = copy_range(s, 0, s.len());
    assert(s@.subrange(0, s@.len() as int) =~= s@);
    while p.len() > 0 && starts_with_exec(&cur, &p)
        invariant
            p@ == lit@,
            strip_all_prefix(cur@, p@) == strip_all_prefix(s@, p@),
        decreases cur.len(),
    {
        let next = copy_range(&cur, p.len(), cur.len());
        assert(next@ =~= cur@.skip(p@.len() as int));
        cur = next;
    }
    cur
}

/// The regex that finds double-quoted string literals, with the literal's
/// contents as capture group 1.
pub open spec fn string_literal_regex() -> Seq<char> {
    "\"([^\"\\\\]*(\\\\.[^\"\\\\]*)*)\""@
}

/// The captured texts of the matches that have one.
pub open spec fn present(groups: Seq<Option<Seq<char>>>) -> Seq<Seq<char>>
    decreases groups.len(),
{
    if groups.len() == 0 {
        seq![]
    } else {
        let rest = present(groups.drop_last());
        match groups.last() {
            Some(g) => rest.push(g),
            None => rest,
        }
    }
}

/// The parts of a trimmed line that the spelling rule reads: the whole
/// line in a text file, a comment's text, a `#[doc` attribute, or in code
/// the trailing comment and (when enabled) the contents of string literals,
/// falling back to the whole line when identifiers are checked.
#[verifier::opaque]
pub open spec fn checkable_texts(
    t: Seq<char>,
    is_text: bool,
    check_strings: bool,
    check_identifiers: bool,
) -> Seq<Seq<char>> {
    if is_text {
        seq![t]
    } else if starts_with(t, "//"@) {
        seq![trim(strip_all_prefix(strip_all_prefix(strip_all_prefix(t, "///"@), "//!"@), "//"@))]
    } else if starts_with(t, "#[doc"@) {
        seq![t]
    } else {
        let comment = match spec_find_line_comment(t) {
            Some(c) => seq![t.skip(c + 2)],
            None => seq![],
        };
        let strings = if check_strings {
            present(regex_all_first_groups(string_literal_regex(), t))
        } else {
            seq![]
        };
        let parts = comment + strings;
        if parts.len() == 0 && check_identifiers {
            seq![t]
        } else {
            parts
        }
    }
}

/// The word-bounded regex for a term.
pub open spec fn term_regex(term: Seq<char>) -> Seq<char> {
    "\\b"@ + regex_escaped(term) + "\\b"@
}

/// The term's regex matches one of `texts` (lower-cased first when `lower`).
pub open spec fn term_hits(term: Seq<char>, texts: Seq<Seq<char>>, lower: bool) -> bool {
    exists|k: int|
        0 <= k < texts.len() && regex_is_match(
            term_regex(term),
            if lower {
                unicode_lowercase(#[trigger] texts[k])
            } else {
                texts[k]
            },
        ) == Some(true)
}

/// The index of the first spelling pair whose term hits.
pub open spec fn first_hit(pairs: Seq<(Seq<char>, Seq<char>)>, texts: Seq<Seq<char>>) -> Option<int>
    decreases pairs.len(),
{
    if pairs.len() == 0 {
        None
    } else if term_hits(pairs[0].0, texts, true) {
        Some(0)
    } else {
        match first_hit(pairs.drop_first(), texts) {
            Some(q) => Some(q + 1),
            None => None,
        }
    }
}

/// The forbidden terms that hit, in order.
pub open spec fn all_hits(pairs: Seq<(Seq<char>, Seq<char>)>, texts: Seq<Seq<char>>) -> Seq<
    (Seq<char>, Seq<char>),
>
    decreases pairs.len(),
{
    if pairs.len() == 0 {
        seq![]
    } else {
        let rest = all_hits(pairs.drop_last(), texts);
        if term_hits(pairs.last().0, texts, false) {
            rest.push(pairs.last())
        } else {
            rest
        }
    }
}

/// The TRM001 diagnostic for a spelling to avoid.
pub open spec fn spelling_model(file: Seq<char>, sev: Severity, idx: int, pair: (Seq<char>, Seq<char>)) -> DiagnosticModel {
    DiagnosticModel {
        rule_id: "TRM001"@,
        rule_name: "spelling-conventions"@,
        category: RuleCategory::Terminology,
        severity: sev,
        file,
        line: (idx + 1) as nat,
        column: None,
        end_line: None,
        message: "Non-standard spelling `"@ + pair.0 + "` — prefer `"@ + pair.1 + "`"@,
        explanation: "Project convention: use Google English spelling in all code, comments, documentation, and string literals."@,
        suggestion: Some("Replace `"@ + pair.0 + "` with `"@ + pair.1 + "`"@),
    }
}

/// The TRM001 diagnostic for a forbidden term.
pub open spec fn forbidden_model(file: Seq<char>, sev: Severity, idx: int, pair: (Seq<char>, Seq<char>)) -> DiagnosticModel {
    DiagnosticModel {
        rule_id: "TRM001"@,
        rule_name: "spelling-conventions"@,
        category: RuleCategory::Terminology,
        severity: sev,
        file,
        line: (idx + 1) as nat,
        column: None,
        end_line: None,
        message: "Forbidden term `"@ + pair.0 + "` — use `"@ + pair.1 + "` instead"@,
        explanation: "Project-specific terminology convention."@,
        suggestion: Some("Replace `"@ + pair.0 + "` with `"@ + pair.1 + "`"@),
    }
}

/// The pairs of a configured list as character sequences.
pub open spec fn pairs_view(v: Seq<(String, String)>) -> Seq<(Seq<char>, Seq<char>)> {
    v.map_values(|p: (String, String)| (p.0@, p.1@))
}

/// The TRM001 diagnostics of line index `idx`: licence headers are skipped;
/// of the spellings to avoid, the first that hits (case-blind); then every
/// forbidden term that hits.
#[verifier::opaque]
pub open spec fn spelling_line_found(
    config: &Config,
    is_text: bool,
    file: Seq<char>,
    sev: Severity,
    idx: int,
    line: Seq<char>,
) -> Seq<DiagnosticModel> {
    let t = trim(line);
    let texts = checkable_texts(
        t,
        is_text,
        config.terminology.check_strings,
        config.terminology.check_identifiers,
    );
    let british = pairs_view(config.terminology.british_english@);
    let forbidden = pairs_view(config.terminology.forbidden_terms@);
    if contains(t, "SPDX"@) || contains(t, "Copyright"@) || contains(t, "Licensed under"@) {
        seq![]
    } else if texts.len() == 0 {
        seq![]
    } else {
        (match first_hit(british, texts) {
            Some(b) => seq![spelling_model(file, sev, idx, british[b])],
            None => seq![],
        }) + all_hits(forbidden, texts).map_values(
            |p: (Seq<char>, Seq<char>)| forbidden_model(file, sev, idx, p),
        )
    }
}

/// The TRM001 diagnostics of the first `count` lines.
pub open spec fn spelling_found(
    config: &Config,
    is_text: bool,
    lines: Seq<Seq<char>>,
    file: Seq<char>,
    sev: Severity,
    count: int,
) -> Seq<DiagnosticModel>
    decreases count,
{
    if count <= 0 {
        seq![]
    } else {
        spelling_found(config, is_text, lines, file, sev, count - 1) + spelling_line_found(
            config,
            is_text,
            file,
            sev,
            count - 1,
            lines[count - 1],
        )
    }
}

/// The first `//` outside string literals of `t` stands at `c`.
pub open spec fn first_comment_at(t: Seq<char>, c: int) -> bool {
    comment_at(t, c) && forall|j: int| 0 <= j < c ==> !comment_at(t, j)
}

/// A trimmed code line with a licence marker.
pub open spec fn is_licence_line(t: Seq<char>) -> bool {
    contains(t, "SPDX"@) || contains(t, "Copyright"@) || contains(t, "Licensed under"@)
}

/// In a code line (not a comment or `#[doc` line of its own) the trailing
/// comment is read: when the first spelling to avoid matches, as a word and
/// ignoring case, the comment's text after its `//`, the line's first
/// finding is that spelling's.
pub proof fn law_trm001_reads_trailing_comments(
    config: &Config,
    file: Seq<char>,
    sev: Severity,
    idx: int,
    line: Seq<char>,
    c: int,
)
    requires
        !starts_with(trim(line), "//"@),
        !starts_with(trim(line), "#[doc"@),
        first_comment_at(trim(line), c),
        !is_licence_line(trim(line)),
        pairs_view(config.terminology.british_english@).len() > 0,
        regex_is_match(
            term_regex(pairs_view(config.terminology.british_english@)[0].0),
            unicode_lowercase(trim(line).skip(c + 2)),
        ) == Some(true),
    ensures
        spelling_line_found(config, false, file, sev, idx, line).len() > 0,
        spelling_line_found(config, false, file, sev, idx, line)[0] == spelling_model(
            file,
            sev,
            idx,
            pairs_view(config.terminology.british_english@)[0],
        ),
{
    reveal(checkable_texts);
    reveal(spelling_line_found);
    let t = trim(line);
    let british = pairs_view(config.terminology.british_english@);
    assert(exists|i: int| comment_at(t, i));
    let c0 = choose|i: int| comment_at(t, i) && forall|j: int| 0 <= j < i ==> !comment_at(t, j);
    assert(c0 == c) by {
        if c0 < c {
            assert(!comment_at(t, c0));
        } else if c0 > c {
            assert(!comment_at(t, c));
        }
    }
    assert(spec_find_line_comment(t) == Some(c));
    let texts = checkable_texts(t, false, config.terminology.check_strings, config.terminology.check_identifiers);
    assert(texts[0] == t.skip(c + 2));
    assert(term_hits(british[0].0, texts, true));
    assert(first_hit(british, texts) == Some(0int));
}

/// Spelling findings of one line are findings of the file.
proof fn lemma_spelling_found_keeps(
    config: &Config,
    is_text: bool,
    lines: Seq<Seq<char>>,
    file: Seq<char>,
    sev: Severity,
    count: int,
    idx: int,
    x: DiagnosticModel,
)
    requires
        0 <= idx < count <= lines.len(),
        spelling_line_found(config, is_text, file, sev, idx, lines[idx]).contains(x),
    ensures
        spelling_found(config, is_text, lines, file, sev, count).contains(x),
    decreases count,
{
    let prev = spelling_found(config, is_text, lines, file, sev, count - 1);
    let here = spelling_line_found(config, is_text, file, sev, count - 1, lines[count - 1]);
    let all = spelling_found(config, is_text, lines, file, sev, count);
    assert(all == prev + here);
    if idx < count - 1 {
        lemma_spelling_found_keeps(config, is_text, lines, file, sev, count - 1, idx, x);
        let k = choose|k: int| 0 <= k < prev.len() && prev[k] == x;
        assert(all[k] == x);
    } else {
        let k = choose|k: int| 0 <= k < here.len() && here[k] == x;
        assert(all[prev.len() + k] == x);
    }
}

/// A spelling to avoid in the trailing comment of a code line of a Rust
/// file is reported on that line.
pub proof fn law_trm001_trailing_comment_is_reported(
    config: &Config,
    lines: Seq<Seq<char>>,
    file: Seq<char>,
    sev: Severity,
    idx: int,
    c: int,
)
    requires
        0 <= idx < lines.len(),
        !starts_with(trim(lines[idx]), "//"@),
        !starts_with(trim(lines[idx]), "#[doc"@),
        first_comment_at(trim(lines[idx]), c),
        !is_licence_line(trim(lines[idx])),
        pairs_view(config.terminology.british_english@).len() > 0,
        regex_is_match(
            term_regex(pairs_view(config.terminology.british_english@)[0].0),
            unicode_lowercase(trim(lines[idx]).skip(c + 2)),
        ) == Some(true),
    ensures
        spelling_found(config, false, lines, file, sev, lines.len() as int).contains(
            spelling_model(file, sev, idx, pairs_view(config.terminology.british_english@)[0]),
        ),
{
    law_trm001_reads_trailing_comments(config, file, sev, idx, lines[idx], c);
    let here = spelling_line_found(config, false, file, sev, idx, lines[idx]);
    assert(here[0] == spelling_model(file, sev, idx, pairs_view(config.terminology.british_english@)[0]));
    lemma_spelling_found_keeps(
        config,
        false,
        lines,
        file,
        sev,
        lines.len() as int,
        idx,
        spelling_model(file, sev, idx, pairs_view(config.terminology.british_english@)[0]),
    );
}

fn checkable_texts_exec(t: &Vec<char>, is_text: bool, config: &Config) -> (r: Vec<Vec<char>>)
    ensures
        lines_view(r@) == checkable_texts(
            t@,
            is_text,
            config.terminology.check_strings,
            config.terminology.check_identifiers,
        ),
{
    reveal(checkable_texts);
    let mut r: Vec<Vec<char>> = Vec::new();
    if is_text {
        r.push(copy_range(t, 0, t.len()));
        assert(t@.subrange(0, t@.len() as int) =~= t@);
        assert(lines_view(r@) =~= seq![t@]);
        return r;
    }
    if starts_with_str(t, "//") {
        let a = strip_all_prefix_exec(t, "///");
        let b = strip_all_prefix_exec(&a, "//!");
        let c = strip_all_prefix_exec(&b, "//");
        r.push(trim_exec(&c));
        assert(lines_view(r@) =~= checkable_texts(
            t@,
            is_text,
            config.terminology.check_strings,
            config.terminology.check_identifiers,
        ));
        return r;
    }
    if starts_with_str(t, "#[doc") {
        r.push(copy_range(t, 0, t.len()));
        assert(t@.subrange(0, t@.len() as int) =~= t@);
        assert(lines_view(r@) =~= seq![t@]);
        return r;
    }
    let ghost comment: Seq<Seq<char>> = seq![];
    match find_line_comment(t) {
        Some(c) => {
            if c + 2 <= t.len() {
                r.push(copy_range(t, c + 2, t.len()));
            }
            proof {
                comment = seq![t@.skip(c + 2)];
                assert(t@.subrange(c + 2, t@.len() as int) =~= t@.skip(c + 2));
                assert(lines_view(r@) =~= comment);
            }
        },
        None => {
            assert(lines_view(r@) =~= comment);
        },
    }
    let ghost strings: Seq<Seq<char>> = seq![];
    if config.terminology.check_strings {
        let groups = regex_capture_all(
            "\"([^\"\\\\]*(\\\\.[^\"\\\\]*)*)\"",
            string_of(t).as_str(),
        );
        let ghost gv = groups@.map_values(|o: Option<String>| crate::diagnostics::opt_text(o));
        let mut k: usize = 0;
        let ghost base = lines_view(r@);
        assert(gv.take(0) =~= Seq::<Option<Seq<char>>>::empty());
        while k < groups.len()
            invariant
                k <= groups.len(),
                gv == groups@.map_values(|o: Option<String>| crate::diagnostics::opt_text(o)),
                lines_view(r@) == base + present(gv.take(k as int)),
            decreases groups.len() - k,
        {
            assert(gv.take(k + 1).drop_last() =~= gv.take(k as int));
            assert(gv[k as int] == crate::diagnostics::opt_text(groups@[k as int]));
            match &groups[k] {
                Some(g) => {
                    let ghost before = r@;
                    r.push(chars_of(g.as_str()));
                    assert(lines_view(r@) =~= lines_view(before).push(g@));
                },
                None => {},
            }
            k += 1;
        }
        assert(gv.take(groups.len() as int) =~= gv);
        proof {
            strings = present(gv);
        }
    }
    assert(lines_view(r@) == comment + strings);
    if r.len() == 0 && config.terminology.check_identifiers {
        r.push(copy_range(t, 0, t.len()));
        assert(t@.subrange(0, t@.len() as int) =~= t@);
        assert(lines_view(r@) =~= seq![t@]);
    }
    r
}

fn term_hits_exec(term: &String, texts: &Vec<Vec<char>>, lower: bool) -> (r: bool)
    ensures
        r == term_hits(term@, lines_view(texts@), lower),
{
    let ghost tv = lines_view(texts@);
    let esc = regex_escape(term.as_str());
    let pattern = "\\b".to_owned().concat(esc.as_str()).concat("\\b");
    let mut k: usize = 0;
    while k < texts.len()
        invariant
            k <= texts.len(),
            tv == lines_view(texts@),
            pattern@ == term_regex(term@),
            forall|j: int|
                0 <= j < k ==> regex_is_match(
                    term_regex(term@),
                    if lower {
                        unicode_lowercase(#[trigger] tv[j])
                    } else {
                        tv[j]
                    },
                ) != Some(true),
        decreases texts.len() - k,
    {
        assert(tv[k as int] == texts@[k as int]@);
        let text = string_of(&texts[k]);
        let hay = if lower {
            to_lowercase(text.as_str())
        } else {
            text
        };
        if regex_match(pattern.as_str(), hay.as_str()) == Some(true) {
            return true;
        }
        k += 1;
    }
    false
}

fn pair_message(a: &str, first: &String, b: &str, second: &String, c: &str) -> (r: String)
    ensures
        r@ == a@ + first@ + b@ + second@ + c@,
{
    a.to_owned().concat(first.as_str()).concat(b).concat(second.as_str()).concat(c)
}

/// The index of the first pair whose term hits the texts, case-blind.
fn first_hit_exec(pairs: &Vec<(String, String)>, texts: &Vec<Vec<char>>) -> (r: Option<usize>)
    ensures
        match r {
            Some(b) => b < pairs@.len() && first_hit(pairs_view(pairs@), lines_view(texts@)) == Some(
                b as int,
            ),
            None => first_hit(pairs_view(pairs@), lines_view(texts@)) is None,
        },
{
    let ghost pv = pairs_view(pairs@);
    let ghost tv = lines_view(texts@);
    let mut b: usize = 0;
    assert(pv.skip(0) =~= pv);
    while b < pairs.len()
        invariant
            b <= pairs@.len(),
            pv == pairs_view(pairs@),
            tv == lines_view(texts@),
            first_hit(pv, tv) == (match first_hit(pv.skip(b as int), tv) {
                Some(q) => Some(q + b),
                None => None,
            }),
        decreases pairs.len() - b,
    {
        let pair = &pairs[b];
        assert(pv[b as int] == (pair.0@, pair.1@));
        assert(pv.skip(b as int)[0] == pv[b as int]);
        assert(pv.skip(b as int).drop_first() =~= pv.skip(b + 1));
        if term_hits_exec(&pair.0, texts, true) {
            return Some(b);
        }
        b += 1;
    }
    assert(pv.skip(b as int) =~= Seq::<(Seq<char>, Seq<char>)>::empty());
    None
}

impl SpellingConventions {
    /// The TRM001 diagnostics of one line, whose index is `i`.
    fn check_line(
        &self,
        ctx: &FileContext,
        config: &Config,
        severity: Severity,
        i: usize,
        line: &Vec<char>,
    ) -> (r: Vec<Diagnostic>)
        requires
            i < usize::MAX,
        ensures
            models(r@) == spelling_line_found(config, ctx.is_text, ctx.path@, severity, i as int, line@),
    {
        reveal(spelling_line_found);
        let ghost british = pairs_view(config.terminology.british_english@);
        let ghost forbidden = pairs_view(config.terminology.forbidden_terms@);
        let mut diagnostics: Vec<Diagnostic> = Vec::new();
        let t = trim_exec(line);
        if contains_str(&t, "SPDX") || contains_str(&t, "Copyright") || contains_str(
            &t,
            "Licensed under",
        ) {
            assert(models(diagnostics@) =~= Seq::<DiagnosticModel>::empty());
            return diagnostics;
        }
        let texts = checkable_texts_exec(&t, ctx.is_text, config);
        if texts.len() == 0 {
            assert(models(diagnostics@) =~= Seq::<DiagnosticModel>::empty());
            return diagnostics;
        }
        let ghost tv = lines_view(texts@);
        match first_hit_exec(&config.terminology.british_english, &texts) {
            Some(b) => {
                let pair = &config.terminology.british_english[b];
                assert(british[b as int] == (pair.0@, pair.1@));
                let d = make_diagnostic(
                    self.id(),
                    self.name(),
                    RuleCategory::Terminology,
                    severity,
                    &ctx.path,
                    i + 1,
                    None,
                    None,
                    pair_message("Non-standard spelling `", &pair.0, "` — prefer `", &pair.1, "`"),
                    "Project convention: use Google English spelling in all code, comments, documentation, and string literals.",
                    Some(pair_message("Replace `", &pair.0, "` with `", &pair.1, "`")),
                );
                diagnostics.push(d);
                assert(models(diagnostics@) =~= seq![spelling_model(ctx.path@, severity, i as int, british[b as int])]);
            },
            None => {
                assert(models(diagnostics@) =~= Seq::<DiagnosticModel>::empty());
            },
        }
        let ghost mid = models(diagnostics@);
        let mut f: usize = 0;
        assert(forbidden.take(0) =~= Seq::<(Seq<char>, Seq<char>)>::empty());
        assert(mid =~= mid + all_hits(forbidden.take(0), tv).map_values(
            |p: (Seq<char>, Seq<char>)| forbidden_model(ctx.path@, severity, i as int, p),
        ));
        while f < config.terminology.forbidden_terms.len()
            invariant
                i < usize::MAX,
                f <= config.terminology.forbidden_terms@.len(),
                forbidden == pairs_view(config.terminology.forbidden_terms@),
                tv == lines_view(texts@),
                models(diagnostics@) == mid + all_hits(forbidden.take(f as int), tv).map_values(
                    |p: (Seq<char>, Seq<char>)| forbidden_model(ctx.path@, severity, i as int, p),
                ),
            decreases config.terminology.forbidden_terms.len() - f,
        {
            let pair = &config.terminology.forbidden_terms[f];
            assert(forbidden[f as int] == (pair.0@, pair.1@));
            assert(forbidden.take(f + 1).drop_last() =~= forbidden.take(f as int));
            assert(forbidden.take(f + 1).last() == forbidden[f as int]);
            if term_hits_exec(&pair.0, &texts, false) {
                let d = make_diagnostic(
                    self.id(),
                    self.name(),
                    RuleCategory::Terminology,
                    severity,
                    &ctx.path,
                    i + 1,
                    None,
                    None,
                    pair_message("Forbidden term `", &pair.0, "` — use `", &pair.1, "` instead"),
                    "Project-specific terminology convention.",
                    Some(pair_message("Replace `", &pair.0, "` with `", &pair.1, "`")),
                );
                let ghost before = models(diagnostics@);
                diagnostics.push(d);
                assert(models(diagnostics@) =~= before.push(d@));
                assert(models(diagnostics@) =~= mid + all_hits(forbidden.take(f + 1), tv).map_values(
                    |p: (Seq<char>, Seq<char>)| forbidden_model(ctx.path@, severity, i as int, p),
                ));
            } else {
                assert(all_hits(forbidden.take(f + 1), tv) == all_hits(forbidden.take(f as int), tv));
            }
            f += 1;
        }
        assert(forbidden.take(f as int) =~= forbidden);
        diagnostics
    }

    /// Reports spellings to avoid and forbidden terms in comments, docs and
    /// (as configured) string literals and code.
    pub fn check(&self, ctx: &FileContext, config: &Config) -> (r: Option<Vec<Diagnostic>>)
        requires
            ctx.content@.len() <= isize::MAX,
        ensures
            (!ctx.is_rust && !ctx.is_text) ==> r is None,
            (config.terminology.british_english.len() == 0
                && config.terminology.forbidden_terms.len() == 0) ==> r is None,
            ((ctx.is_rust || ctx.is_text) && !(config.terminology.british_english.len() == 0
                && config.terminology.forbidden_terms.len() == 0)) ==> {
                let lines = lines_of(ctx.content@);
                report_of(
                    spelling_found(
                        config,
                        ctx.is_text,
                        lines,
                        ctx.path@,
                        config.spec_rule_severity("TRM001"@, Severity::Advisory),
                        lines.len() as int,
                    ),
                    r,
                )
            },
    {
        if !ctx.is_rust && !ctx.is_text {
            return None;
        }
        if config.terminology.british_english.len() == 0
            && config.terminology.forbidden_terms.len() == 0 {
            return None;
        }
        let lines = content_lines(ctx);
        let ghost lv = lines_view(lines@);
        let severity = config.rule_severity(self.id(), Severity::Advisory);
        let mut diagnostics: Vec<Diagnostic> = Vec::new();
        let mut i: usize = 0;
        while i < lines.len()
            invariant
                i <= lines@.len(),
                lines@.len() <= isize::MAX,
                lv == lines_view(lines@),
                models(diagnostics@) == spelling_found(
                    config,
                    ctx.is_text,
                    lv,
                    ctx.path@,
                    severity,
                    i as int,
                ),
            decreases lines.len() - i,
        {
            assert(lv[i as int] == lines@[i as int]@);
            let ghost start = diagnostics@;
            let mut found = self.check_line(ctx, config, severity, i, &lines[i]);
            let ghost fv = found@;
            diagnostics.append(&mut found);
            assert(models(diagnostics@) =~= models(start) + models(fv));
            i += 1;
        }
        into_report(diagnostics)
    }
}

} // verus!
