//! Line masks: which lines of a file belong to test-only, benchmark-only,
//! genesis or integrity-test code, found by tracking brace depth line by line.
use vstd::prelude::*;
use crate::text::{
    chars_of, contains, copy_range, contains_str, count_char, count_char_exec, ends_with, ends_with_str,
    equals_str, is_ascii_alnum, is_ascii_alnum_exec, is_ws, is_ws_exec, lemma_total_len_prefix,
    lemma_total_len_take, lines_view, occurs_at, occurs_at_exec, starts_with, starts_with_str,
    to_ascii_lowercase, to_ascii_lowercase_exec, total_len, trim, trim_exec,
};

verus! {

// ---------------------------------------------------------------------------
// Line classifiers
// ---------------------------------------------------------------------------

/// `s` with every whitespace character removed (what
/// `s.split_whitespace().collect::<String>()` builds).
pub open spec fn strip_ws(s: Seq<char>) -> Seq<char>
    decreases s.len(),
{
    if s.len() == 0 {
        s
    } else if is_ws(s.last()) {
        strip_ws(s.drop_last())
    } else {
        strip_ws(s.drop_last()).push(s.last())
    }
}

/// `s` with every whitespace character removed.
pub fn strip_ws_exec(s: &Vec<char>) -> (r: Vec<char>)
    ensures
        r@ == strip_ws(s@),
{
    let mut r: Vec<char> = Vec::new();
    let mut i: usize = 0;
    while i < s.len()
        invariant
            i <= s.len(),
            r@ == strip_ws(s@.take(i as int)),
        decreases s.len() - i,
    {
        assert(s@.take(i + 1).drop_last() =~= s@.take(i as int));
        if !is_ws_exec(s[i]) {
            r.push(s[i]);
        }
        i += 1;
    }
    assert(s@.take(s.len() as int) =~= s@);
    r
}

/// A trimmed line is an attribute that hides the next item from production:
/// `#[test]`, a test attribute of a crate (`...::test]`), or a `cfg` on
/// `test` or on a benchmark, try-runtime or test-helper feature.
pub open spec fn spec_is_masked_cfg_attribute(t: Seq<char>) -> bool {
    if t == "#[test]"@ || ends_with(t, "::test]"@) {
        true
    } else if !(starts_with(t, "#[cfg("@) || starts_with(t, "#![cfg("@)) {
        false
    } else {
        let compact = strip_ws(t);
        ||| contains(compact, "cfg(test)"@)
        ||| contains(compact, "(test,"@)
        ||| contains(compact, ",test)"@)
        ||| contains(compact, ",test,"@)
        ||| contains(t, "feature = \"runtime-benchmarks\""@)
        ||| contains(t, "feature = \"try-runtime\""@)
        ||| contains(t, "feature = \"test-helpers\""@)
        ||| contains(t, "feature = \"remote-test\""@)
        ||| contains(t, "feature = \"integrity-test\""@)
    }
}

/// Whether the trimmed line `t` is an attribute that masks the next item.
pub fn is_masked_cfg_attribute(t: &Vec<char>) -> (r: bool)
    ensures
        r == spec_is_masked_cfg_attribute(t@),
{
    if equals_str(t, "#[test]") || ends_with_str(t, "::test]") {
        return true;
    }
    if !(starts_with_str(t, "#[cfg(") || starts_with_str(t, "#![cfg(")) {
        return false;
    }
    let compact = strip_ws_exec(t);
    contains_str(&compact, "cfg(test)") || contains_str(&compact, "(test,") || contains_str(
        &compact,
        ",test)",
    ) || contains_str(&compact, ",test,") || contains_str(t, "feature = \"runtime-benchmarks\"")
        || contains_str(t, "feature = \"try-runtime\"") || contains_str(
        t,
        "feature = \"test-helpers\"",
    ) || contains_str(t, "feature = \"remote-test\"") || contains_str(
        t,
        "feature = \"integrity-test\"",
    )
}

/// A trimmed line opens a module declaration.
pub open spec fn spec_is_module_declaration(t: Seq<char>) -> bool {
    ||| starts_with(t, "mod "@)
    ||| starts_with(t, "pub mod "@)
    ||| starts_with(t, "pub(crate) mod "@)
    ||| starts_with(t, "pub(super) mod "@)
    ||| starts_with(t, "pub(in "@)
}

/// Whether the trimmed line `t` opens a module declaration.
pub fn is_module_declaration(t: &Vec<char>) -> (r: bool)
    ensures
        r == spec_is_module_declaration(t@),
{
    starts_with_str(t, "mod ") || starts_with_str(t, "pub mod ") || starts_with_str(
        t,
        "pub(crate) mod ",
    ) || starts_with_str(t, "pub(super) mod ") || starts_with_str(t, "pub(in ")
}

/// A trimmed line opens an item or statement that carries a block.
pub open spec fn spec_is_block_start(t: Seq<char>) -> bool {
    ||| spec_is_module_declaration(t)
    ||| starts_with(t, "{"@)
    ||| starts_with(t, "impl "@)
    ||| starts_with(t, "impl<"@)
    ||| starts_with(t, "pub impl "@)
    ||| starts_with(t, "pub impl<"@)
    ||| starts_with(t, "pub fn "@)
    ||| starts_with(t, "fn "@)
    ||| starts_with(t, "pub async fn "@)
    ||| starts_with(t, "async fn "@)
    ||| starts_with(t, "pub(crate) fn "@)
    ||| starts_with(t, "pub(crate) async fn "@)
    ||| starts_with(t, "pub struct "@)
    ||| starts_with(t, "pub(crate) struct "@)
    ||| starts_with(t, "pub enum "@)
    ||| starts_with(t, "enum "@)
    ||| starts_with(t, "pub trait "@)
    ||| starts_with(t, "trait "@)
    ||| starts_with(t, "if "@)
    ||| starts_with(t, "if let "@)
    ||| starts_with(t, "match "@)
    ||| starts_with(t, "for "@)
    ||| starts_with(t, "while "@)
    ||| starts_with(t, "while let "@)
    ||| starts_with(t, "loop "@)
    ||| t == "loop"@
}

/// Whether the trimmed line `t` opens an item or statement with a block.
pub fn is_block_start(t: &Vec<char>) -> (r: bool)
    ensures
        r == spec_is_block_start(t@),
{
    is_module_declaration(t) || starts_with_str(t, "{") || starts_with_str(t, "impl ")
        || starts_with_str(t, "impl<") || starts_with_str(t, "pub impl ") || starts_with_str(
        t,
        "pub impl<",
    ) || starts_with_str(t, "pub fn ") || starts_with_str(t, "fn ") || starts_with_str(
        t,
        "pub async fn ",
    ) || starts_with_str(t, "async fn ") || starts_with_str(t, "pub(crate) fn ")
        || starts_with_str(t, "pub(crate) async fn ") || starts_with_str(t, "pub struct ")
        || starts_with_str(t, "pub(crate) struct ") || starts_with_str(t, "pub enum ")
        || starts_with_str(t, "enum ") || starts_with_str(t, "pub trait ") || starts_with_str(
        t,
        "trait ",
    ) || starts_with_str(t, "if ") || starts_with_str(t, "if let ") || starts_with_str(
        t,
        "match ",
    ) || starts_with_str(t, "for ") || starts_with_str(t, "while ") || starts_with_str(
        t,
        "while let ",
    ) || starts_with_str(t, "loop ") || equals_str(t, "loop")
}

/// A word of the lower-cased text, bounded by non-alphanumeric characters
/// or the ends of the text, is `w`.
pub open spec fn has_word_at(s: Seq<char>, w: Seq<char>, i: int) -> bool {
    &&& occurs_at(s, w, i)
    &&& (i == 0 || !is_ascii_alnum(s[i - 1]))
    &&& (i + w.len() == s.len() || !is_ascii_alnum(s[i + w.len()]))
}

/// A doc comment marks its item as test-only: it names tests as a word and
/// says the item is only for them or not for production.
pub open spec fn spec_text_marks_test_only_item(text: Seq<char>) -> bool {
    let lower = to_ascii_lowercase(text);
    let mentions_test = exists|i: int|
        has_word_at(lower, "test"@, i) || has_word_at(lower, "tests"@, i) || has_word_at(
            lower,
            "testing"@,
            i,
        );
    let excludes_production = contains(lower, "do not use in production"@) || contains(
        lower,
        "not be used in production"@,
    ) || contains(lower, "never be used in production"@) || contains(
        lower,
        "must never be used in production"@,
    );
    mentions_test && (excludes_production || contains(lower, "only be used"@) || contains(
        lower,
        "only used"@,
    ) || contains(lower, "used only"@) || contains(lower, "test only"@) || contains(
        lower,
        "testing only"@,
    ))
}

fn has_word_at_exec(s: &Vec<char>, w: &Vec<char>, i: usize) -> (r: bool)
    requires
        i <= s.len(),
    ensures
        r == has_word_at(s@, w@, i as int),
{
    if !occurs_at_exec(s, w, i) {
        return false;
    }
    let before_ok = i == 0 || !is_ascii_alnum_exec(s[i - 1]);
    let after_ok = i + w.len() == s.len() || !is_ascii_alnum_exec(s[i + w.len()]);
    before_ok && after_ok
}

/// Whether `lower` has the word `test`, `tests` or `testing`.
fn mentions_test_word(lower: &Vec<char>) -> (r: bool)
    ensures
        r == exists|i: int|
            has_word_at(lower@, "test"@, i) || has_word_at(lower@, "tests"@, i) || has_word_at(
                lower@,
                "testing"@,
                i,
            ),
{
    let w1 = chars_of("test");
    let w2 = chars_of("tests");
    let w3 = chars_of("testing");
    let mut i: usize = 0;
    while i < lower.len()
        invariant
            i <= lower.len(),
            w1@ == "test"@,
            w2@ == "tests"@,
            w3@ == "testing"@,
            forall|j: int|
                0 <= j < i ==> !(has_word_at(lower@, "test"@, j) || has_word_at(
                    lower@,
                    "tests"@,
                    j,
                ) || has_word_at(lower@, "testing"@, j)),
        decreases lower.len() - i,
    {
        if has_word_at_exec(lower, &w1, i) || has_word_at_exec(lower, &w2, i) || has_word_at_exec(
            lower,
            &w3,
            i,
        ) {
            return true;
        }
        i += 1;
    }
    proof {
        reveal_strlit("test");
        reveal_strlit("tests");
        reveal_strlit("testing");
    }
    assert forall|j: int|
        !(has_word_at(lower@, "test"@, j) || has_word_at(lower@, "tests"@, j) || has_word_at(
            lower@,
            "testing"@,
            j,
        )) by {
        if 0 <= j && j < lower@.len() {
            assert(j < i);
        }
    }
    false
}

/// Whether a doc-comment text marks its item as test-only.
pub fn text_marks_test_only_item(text: &Vec<char>) -> (r: bool)
    ensures
        r == spec_text_marks_test_only_item(text@),
{
    let lower = to_ascii_lowercase_exec(text);
    if !mentions_test_word(&lower) {
        return false;
    }

    let excludes_production = contains_str(&lower, "do not use in production") || contains_str(
        &lower,
        "not be used in production",
    ) || contains_str(&lower, "never be used in production") || contains_str(
        &lower,
        "must never be used in production",
    );
    excludes_production || contains_str(&lower, "only be used") || contains_str(
        &lower,
        "only used",
    ) || contains_str(&lower, "used only") || contains_str(&lower, "test only") || contains_str(
        &lower,
        "testing only",
    )
}

// ---------------------------------------------------------------------------
// Masks that follow an attribute onto the next item
// ---------------------------------------------------------------------------

/// Which attribute lines start a masked item.
#[derive(Clone, Copy)]
pub enum MaskAttr {
    /// `#[test]` and the `cfg` attributes of `is_masked_cfg_attribute`.
    MaskedCfg,
    /// `#[pallet::genesis_build]`.
    GenesisBuild,
    /// The header of an `integrity_test` function.
    IntegrityTest,
}

/// The trimmed line `t` is a masking line of kind `kind`.
pub open spec fn attr_matches(kind: MaskAttr, t: Seq<char>) -> bool {
    match kind {
        MaskAttr::MaskedCfg => spec_is_masked_cfg_attribute(t),
        MaskAttr::GenesisBuild => t == "#[pallet::genesis_build]"@,
        MaskAttr::IntegrityTest => {
            ||| starts_with(t, "fn integrity_test"@)
            ||| starts_with(t, "pub fn integrity_test"@)
            ||| starts_with(t, "pub(crate) fn integrity_test"@)
            ||| starts_with(t, "pub(super) fn integrity_test"@)
            ||| starts_with(t, "unsafe fn integrity_test"@)
            ||| starts_with(t, "pub unsafe fn integrity_test"@)
        },
    }
}

fn attr_matches_exec(kind: MaskAttr, t: &Vec<char>) -> (r: bool)
    ensures
        r == attr_matches(kind, t@),
{
    match kind {
        MaskAttr::MaskedCfg => is_masked_cfg_attribute(t),
        MaskAttr::GenesisBuild => equals_str(t, "#[pallet::genesis_build]"),
        MaskAttr::IntegrityTest => starts_with_str(t, "fn integrity_test") || starts_with_str(
            t,
            "pub fn integrity_test",
        ) || starts_with_str(t, "pub(crate) fn integrity_test") || starts_with_str(
            t,
            "pub(super) fn integrity_test",
        ) || starts_with_str(t, "unsafe fn integrity_test") || starts_with_str(
            t,
            "pub unsafe fn integrity_test",
        ),
    }
}

/// The scanner state of `item_mask_by_attr` between two lines.
pub struct ItemMaskState {
    /// Depth at which the masked block item opened, while one is open.
    pub masked_depth: Option<int>,
    /// Braces opened minus braces closed so far.
    pub brace_depth: int,
    /// A masking attribute was seen and its item has not started yet.
    pub next_item_is_masked: bool,
    /// The masked item's block has opened.
    pub mask_block_entered: bool,
    /// Depth at which a masked statement item started, while it lasts.
    pub masked_statement_depth: Option<int>,
}

pub open spec fn item_mask_start() -> ItemMaskState {
    ItemMaskState {
        masked_depth: None,
        brace_depth: 0,
        next_item_is_masked: false,
        mask_block_entered: false,
        masked_statement_depth: None,
    }
}

/// One line of `item_mask_by_attr`: the state after the line and whether the
/// line is masked.
///
/// A masking attribute marks the next item. If that item opens a block, the
/// mask lasts until the depth falls back to where it began; otherwise it
/// lasts until a line ending in `;` at or above its depth.
pub open spec fn item_mask_step(kind: MaskAttr, st: ItemMaskState, line: Seq<char>) -> (
    ItemMaskState,
    bool,
) {
    let t = trim(line);
    let open = count_char(line, '{') as int;
    let close = count_char(line, '}') as int;
    let hit = attr_matches(kind, t) && st.masked_depth is None;
    let m1 = st.masked_statement_depth is Some || hit;
    let next1 = st.next_item_is_masked || hit;
    let starts = next1 && st.masked_depth is None && spec_is_block_start(t);
    let plain = !starts && next1 && t.len() > 0 && !starts_with(t, "#["@) && !starts_with(
        t,
        "//"@,
    );
    let md2 = if starts {
        Some(st.brace_depth)
    } else {
        st.masked_depth
    };
    let entered2 = if starts {
        false
    } else {
        st.mask_block_entered
    };
    let next2 = if starts || plain {
        false
    } else {
        next1
    };
    let m2 = m1 || plain;
    let msd2 = if plain && !ends_with(t, ";"@) {
        Some(st.brace_depth)
    } else {
        st.masked_statement_depth
    };
    let bd3 = st.brace_depth + open - close;
    let m3 = m2 || msd2 is Some;
    let msd3 = match msd2 {
        Some(sd) => if ends_with(t, ";"@) && bd3 <= sd {
            None
        } else {
            msd2
        },
        None => None,
    };
    let entered3 = entered2 || (md2 is Some && (bd3 > md2->0 || (starts && open > 0)));
    let closes = md2 is Some && entered3 && bd3 <= md2->0;
    let m4 = m3 || md2 is Some;
    let md4 = if closes {
        None
    } else {
        md2
    };
    let entered4 = if closes {
        false
    } else {
        entered3
    };
    (
        ItemMaskState {
            masked_depth: md4,
            brace_depth: bd3,
            next_item_is_masked: next2,
            mask_block_entered: entered4,
            masked_statement_depth: msd3,
        },
        m4,
    )
}

/// `item_mask_by_attr` over `lines`: the final state and the mask.
pub open spec fn item_mask_run(kind: MaskAttr, lines: Seq<Seq<char>>) -> (ItemMaskState, Seq<bool>)
    decreases lines.len(),
{
    if lines.len() == 0 {
        (item_mask_start(), seq![])
    } else {
        let prev = item_mask_run(kind, lines.drop_last());
        let step = item_mask_step(kind, prev.0, lines.last());
        (step.0, prev.1.push(step.1))
    }
}

/// The mask that `item_mask_by_attr` computes.
pub open spec fn spec_item_mask(kind: MaskAttr, lines: Seq<Seq<char>>) -> Seq<bool> {
    item_mask_run(kind, lines).1
}

proof fn lemma_item_mask_run_len(kind: MaskAttr, lines: Seq<Seq<char>>)
    ensures
        item_mask_run(kind, lines).1.len() == lines.len(),
        -total_len(lines) <= item_mask_run(kind, lines).0.brace_depth <= total_len(lines),
        item_mask_run(kind, lines).0.masked_depth matches Some(d) ==> -total_len(lines) <= d
            <= total_len(lines),
        item_mask_run(kind, lines).0.masked_statement_depth matches Some(d) ==> -total_len(lines)
            <= d <= total_len(lines),
    decreases lines.len(),
{
    if lines.len() > 0 {
        lemma_item_mask_run_len(kind, lines.drop_last());
        lemma_count_le(lines.last(), '{');
        lemma_count_le(lines.last(), '}');
    }
}

/// A character occurs at most as often as the text is long.
pub proof fn lemma_count_le(s: Seq<char>, c: char)
    ensures
        count_char(s, c) <= s.len(),
    decreases s.len(),
{
    if s.len() > 0 {
        lemma_count_le(s.drop_last(), c);
    }
}

/// Both brace counts of a line.
fn brace_counts(line: &Vec<char>) -> (r: (i64, i64))
    requires
        line@.len() <= isize::MAX,
    ensures
        r.0 == count_char(line@, '{'),
        r.1 == count_char(line@, '}'),
{
    proof {
        lemma_count_le(line@, '{');
        lemma_count_le(line@, '}');
    }
    let open = count_char_exec(line, '{');
    let close = count_char_exec(line, '}');
    (open as i64, close as i64)
}

/// The mask of lines that belong to an item marked by an attribute of kind
/// `kind`: the attribute line itself and every line of the item after it.
pub fn item_mask_by_attr(lines: &Vec<Vec<char>>, kind: MaskAttr) -> (r: Vec<bool>)
    requires
        total_len(lines_view(lines@)) <= isize::MAX,
    ensures
        r@ == spec_item_mask(kind, lines_view(lines@)),
{
    let ghost lv = lines_view(lines@);
    let mut mask: Vec<bool> = Vec::new();
    let mut masked_depth: Option<i64> = None;
    let mut brace_depth: i64 = 0;
    let mut next_item_is_masked = false;
    let mut mask_block_entered = false;
    let mut masked_statement_depth: Option<i64> = None;
    let mut i: usize = 0;
    assert(lv.take(0) =~= Seq::<Seq<char>>::empty());
    while i < lines.len()
        invariant
            i <= lines@.len(),
            lv == lines_view(lines@),
            total_len(lv) <= isize::MAX,
            ({
                let st = item_mask_run(kind, lv.take(i as int));
                &&& mask@ == st.1
                &&& st.0.brace_depth == brace_depth as int
                &&& st.0.masked_depth == (match masked_depth {
                    Some(d) => Some(d as int),
                    None => None,
                })
                &&& st.0.masked_statement_depth == (match masked_statement_depth {
                    Some(d) => Some(d as int),
                    None => None,
                })
                &&& st.0.next_item_is_masked == next_item_is_masked
                &&& st.0.mask_block_entered == mask_block_entered
            }),
        decreases lines.len() - i,
    {
        let line = &lines[i];
        proof {
            assert(lv[i as int] == line@);
            assert(lv.take(i + 1).drop_last() =~= lv.take(i as int));
            lemma_item_mask_run_len(kind, lv.take(i as int));
            lemma_total_len_take(lv, i as int);
            lemma_total_len_prefix(lv, i + 1);
            lemma_count_le(line@, '{');
            lemma_count_le(line@, '}');
        }
        let t = trim_exec(line);
        let (open, close) = brace_counts(line);
        let hit = attr_matches_exec(kind, &t) && masked_depth.is_none();
        let mut m = masked_statement_depth.is_some() || hit;
        if hit {
            next_item_is_masked = true;
        }
        let starts = next_item_is_masked && masked_depth.is_none() && is_block_start(&t);
        let plain = !starts && next_item_is_masked && t.len() > 0 && !starts_with_str(&t, "#[")
            && !starts_with_str(&t, "//");
        let ends_semi = ends_with_str(&t, ";");
        if starts {
            masked_depth = Some(brace_depth);
            mask_block_entered = false;
            next_item_is_masked = false;
        } else if plain {
            m = true;
            if !ends_semi {
                masked_statement_depth = Some(brace_depth);
            }
            next_item_is_masked = false;
        }
        brace_depth = brace_depth + open - close;
        match masked_statement_depth {
            Some(sd) => {
                m = true;
                if ends_semi && brace_depth <= sd {
                    masked_statement_depth = None;
                }
            },
            None => {},
        }
        match masked_depth {
            Some(td) => {
                m = true;
                if brace_depth > td || (starts && open > 0) {
                    mask_block_entered = true;
                }
                if mask_block_entered && brace_depth <= td {
                    masked_depth = None;
                    mask_block_entered = false;
                }
            },
            None => {},
        }
        mask.push(m);
        i += 1;
    }
    assert(lv.take(lines.len() as int) =~= lv);
    mask
}

// ---------------------------------------------------------------------------
// Masks of blocks that a line opens itself
// ---------------------------------------------------------------------------

/// Which lines open a masked block.
#[derive(Clone, Copy)]
pub enum BlockStart {
    /// `if cfg!(debug_assertions)` and `if cfg!(feature = ...)` for a
    /// non-production feature.
    NonProductionCfgExpr,
    /// An inherent `impl` on a `GenesisConfig` type.
    GenesisConfigImpl,
    /// A `const _: () = { ... };` initializer.
    ConstUnitInitializer,
}

/// The trimmed line `t` opens a block of kind `kind`.
pub open spec fn block_starts(kind: BlockStart, t: Seq<char>) -> bool {
    match kind {
        BlockStart::NonProductionCfgExpr => {
            ||| starts_with(t, "if cfg!(debug_assertions)"@)
            ||| starts_with(t, "if cfg!(feature = \"runtime-benchmarks\")"@)
            ||| starts_with(t, "if cfg!(feature = \"try-runtime\")"@)
            ||| starts_with(t, "if cfg!(feature = \"test-helpers\")"@)
            ||| starts_with(t, "if cfg!(feature = \"remote-test\")"@)
            ||| starts_with(t, "if cfg!(feature = \"integrity-test\")"@)
        },
        BlockStart::GenesisConfigImpl => (starts_with(t, "impl "@) || starts_with(t, "impl<"@))
            && contains(t, "GenesisConfig"@) && !contains(t, " for "@),
        BlockStart::ConstUnitInitializer => starts_with(t, "const "@) && contains(t, ": () = {"@),
    }
}

fn block_starts_exec(kind: BlockStart, t: &Vec<char>) -> (r: bool)
    ensures
        r == block_starts(kind, t@),
{
    match kind {
        BlockStart::NonProductionCfgExpr => starts_with_str(t, "if cfg!(debug_assertions)")
            || starts_with_str(t, "if cfg!(feature = \"runtime-benchmarks\")") || starts_with_str(
            t,
            "if cfg!(feature = \"try-runtime\")",
        ) || starts_with_str(t, "if cfg!(feature = \"test-helpers\")") || starts_with_str(
            t,
            "if cfg!(feature = \"remote-test\")",
        ) || starts_with_str(t, "if cfg!(feature = \"integrity-test\")"),
        BlockStart::GenesisConfigImpl => (starts_with_str(t, "impl ") || starts_with_str(
            t,
            "impl<",
        )) && contains_str(t, "GenesisConfig") && !contains_str(t, " for "),
        BlockStart::ConstUnitInitializer => starts_with_str(t, "const ") && contains_str(
            t,
            ": () = {",
        ),
    }
}

/// The scanner state of a block mask between two lines.
pub struct BlockMaskState {
    pub masked_depth: Option<int>,
    pub brace_depth: int,
    pub mask_block_entered: bool,
}

/// One line of a block mask: the state after the line and whether the line
/// is masked. The block ends when the depth falls back to where it opened
/// (for a `const` initializer, on a line that also ends in `;`).
pub open spec fn block_mask_step(kind: BlockStart, st: BlockMaskState, line: Seq<char>) -> (
    BlockMaskState,
    bool,
) {
    let t = trim(line);
    let open = count_char(line, '{') as int;
    let close = count_char(line, '}') as int;
    let starts = st.masked_depth is None && block_starts(kind, t);
    let md = if starts {
        Some(st.brace_depth)
    } else {
        st.masked_depth
    };
    let entered = if starts {
        false
    } else {
        st.mask_block_entered
    };
    let bd = st.brace_depth + open - close;
    let entered2 = entered || (md is Some && (bd > md->0 || (starts && open > 0)));
    let end_ok = match kind {
        BlockStart::ConstUnitInitializer => ends_with(t, ";"@),
        _ => true,
    };
    let closes = md is Some && entered2 && bd <= md->0 && end_ok;
    (
        BlockMaskState {
            masked_depth: if closes {
                None
            } else {
                md
            },
            brace_depth: bd,
            mask_block_entered: if closes {
                false
            } else {
                entered2
            },
        },
        md is Some,
    )
}

pub open spec fn block_mask_run(kind: BlockStart, lines: Seq<Seq<char>>) -> (
    BlockMaskState,
    Seq<bool>,
)
    decreases lines.len(),
{
    if lines.len() == 0 {
        (BlockMaskState { masked_depth: None, brace_depth: 0, mask_block_entered: false }, seq![])
    } else {
        let prev = block_mask_run(kind, lines.drop_last());
        let step = block_mask_step(kind, prev.0, lines.last());
        (step.0, prev.1.push(step.1))
    }
}

/// The mask of the blocks of kind `kind`.
pub open spec fn spec_block_mask(kind: BlockStart, lines: Seq<Seq<char>>) -> Seq<bool> {
    block_mask_run(kind, lines).1
}

proof fn lemma_block_mask_run_len(kind: BlockStart, lines: Seq<Seq<char>>)
    ensures
        block_mask_run(kind, lines).1.len() == lines.len(),
        -total_len(lines) <= block_mask_run(kind, lines).0.brace_depth <= total_len(lines),
        block_mask_run(kind, lines).0.masked_depth matches Some(d) ==> -total_len(lines) <= d
            <= total_len(lines),
    decreases lines.len(),
{
    if lines.len() > 0 {
        lemma_block_mask_run_len(kind, lines.drop_last());
        lemma_count_le(lines.last(), '{');
        lemma_count_le(lines.last(), '}');
    }
}

fn block_mask(lines: &Vec<Vec<char>>, kind: BlockStart) -> (r: Vec<bool>)
    requires
        total_len(lines_view(lines@)) <= isize::MAX,
    ensures
        r@ == spec_block_mask(kind, lines_view(lines@)),
{
    let ghost lv = lines_view(lines@);
    let mut mask: Vec<bool> = Vec::new();
    let mut masked_depth: Option<i64> = None;
    let mut brace_depth: i64 = 0;
    let mut mask_block_entered = false;
    let mut i: usize = 0;
    assert(lv.take(0) =~= Seq::<Seq<char>>::empty());
    while i < lines.len()
        invariant
            i <= lines@.len(),
            lv == lines_view(lines@),
            total_len(lv) <= isize::MAX,
            ({
                let st = block_mask_run(kind, lv.take(i as int));
                &&& mask@ == st.1
                &&& st.0.brace_depth == brace_depth as int
                &&& st.0.masked_depth == (match masked_depth {
                    Some(d) => Some(d as int),
                    None => None,
                })
                &&& st.0.mask_block_entered == mask_block_entered
            }),
        decreases lines.len() - i,
    {
        let line = &lines[i];
        proof {
            assert(lv[i as int] == line@);
            assert(lv.take(i + 1).drop_last() =~= lv.take(i as int));
            lemma_block_mask_run_len(kind, lv.take(i as int));
            lemma_total_len_take(lv, i as int);
            lemma_total_len_prefix(lv, i + 1);
            lemma_count_le(line@, '{');
            lemma_count_le(line@, '}');
        }
        let t = trim_exec(line);
        let (open, close) = brace_counts(line);
        let starts = masked_depth.is_none() && block_starts_exec(kind, &t);
        if starts {
            masked_depth = Some(brace_depth);
            mask_block_entered = false;
        }
        brace_depth = brace_depth + open - close;
        let mut m = false;
        match masked_depth {
            Some(td) => {
                m = true;
                if brace_depth > td || (starts && open > 0) {
                    mask_block_entered = true;
                }
                let end_ok = match kind {
                    BlockStart::ConstUnitInitializer => ends_with_str(&t, ";"),
                    _ => true,
                };
                if mask_block_entered && brace_depth <= td && end_ok {
                    masked_depth = None;
                    mask_block_entered = false;
                }
            },
            None => {},
        }
        mask.push(m);
        i += 1;
    }
    assert(lv.take(lines.len() as int) =~= lv);
    mask
}

/// Lines inside `if cfg!(debug_assertions)` or a non-production
/// `if cfg!(feature = ...)` block.
pub fn non_production_cfg_expr_block_mask(lines: &Vec<Vec<char>>) -> (r: Vec<bool>)
    requires
        total_len(lines_view(lines@)) <= isize::MAX,
    ensures
        r@ == spec_block_mask(BlockStart::NonProductionCfgExpr, lines_view(lines@)),
{
    block_mask(lines, BlockStart::NonProductionCfgExpr)
}

/// Lines of inherent `impl` blocks on a `GenesisConfig` type.
pub fn genesis_config_impl_mask(lines: &Vec<Vec<char>>) -> (r: Vec<bool>)
    requires
        total_len(lines_view(lines@)) <= isize::MAX,
    ensures
        r@ == spec_block_mask(BlockStart::GenesisConfigImpl, lines_view(lines@)),
{
    block_mask(lines, BlockStart::GenesisConfigImpl)
}

/// Lines of `const _: () = { ... };` initializers.
pub fn const_unit_initializer_mask(lines: &Vec<Vec<char>>) -> (r: Vec<bool>)
    requires
        total_len(lines_view(lines@)) <= isize::MAX,
    ensures
        r@ == spec_block_mask(BlockStart::ConstUnitInitializer, lines_view(lines@)),
{
    block_mask(lines, BlockStart::ConstUnitInitializer)
}

/// Lines of the item after `#[pallet::genesis_build]`.
pub fn genesis_build_mask(lines: &Vec<Vec<char>>) -> (r: Vec<bool>)
    requires
        total_len(lines_view(lines@)) <= isize::MAX,
    ensures
        r@ == spec_item_mask(MaskAttr::GenesisBuild, lines_view(lines@)),
{
    item_mask_by_attr(lines, MaskAttr::GenesisBuild)
}

/// Lines of `integrity_test` functions.
pub fn integrity_test_mask(lines: &Vec<Vec<char>>) -> (r: Vec<bool>)
    requires
        total_len(lines_view(lines@)) <= isize::MAX,
    ensures
        r@ == spec_item_mask(MaskAttr::IntegrityTest, lines_view(lines@)),
{
    item_mask_by_attr(lines, MaskAttr::IntegrityTest)
}


// ---------------------------------------------------------------------------
// Items documented as test-only
// ---------------------------------------------------------------------------

/// The scanner state of `documented_test_only_item_mask` between two lines.
pub struct DocMaskState {
    pub masked_depth: Option<int>,
    pub brace_depth: int,
    /// A test-only doc comment was seen and its item has not started yet.
    pub pending_test_only_doc: bool,
    /// The lines since the last doc comment line are only attributes or
    /// blank lines.
    pub doc_block_active: bool,
    pub mask_block_entered: bool,
}

/// One line of `documented_test_only_item_mask`: the state after the line and
/// whether the line is masked.
pub open spec fn doc_mask_step(st: DocMaskState, line: Seq<char>) -> (DocMaskState, bool) {
    let t = trim(line);
    let open = count_char(line, '{') as int;
    let close = count_char(line, '}') as int;
    let is_doc = st.masked_depth is None && starts_with(t, "///"@);
    let doc_active = if st.masked_depth is None {
        if is_doc {
            true
        } else if st.doc_block_active && (t.len() == 0 || starts_with(t, "#["@)) {
            true
        } else if st.doc_block_active && t.len() > 0 {
            false
        } else {
            st.doc_block_active
        }
    } else {
        st.doc_block_active
    };
    let pending1 = st.pending_test_only_doc || (is_doc && spec_text_marks_test_only_item(
        t.skip(3),
    ));
    let starts = pending1 && st.masked_depth is None && spec_is_block_start(t);
    let pending2 = if starts {
        false
    } else if pending1 && t.len() > 0 && !starts_with(t, "#["@) && !starts_with(t, "///"@) {
        false
    } else {
        pending1
    };
    let md = if starts {
        Some(st.brace_depth)
    } else {
        st.masked_depth
    };
    let entered = if starts {
        false
    } else {
        st.mask_block_entered
    };
    let bd = st.brace_depth + open - close;
    let entered2 = entered || (md is Some && (bd > md->0 || (starts && open > 0)));
    let closes = md is Some && entered2 && bd <= md->0;
    (
        DocMaskState {
            masked_depth: if closes {
                None
            } else {
                md
            },
            brace_depth: bd,
            pending_test_only_doc: pending2,
            doc_block_active: doc_active,
            mask_block_entered: if closes {
                false
            } else {
                entered2
            },
        },
        md is Some,
    )
}

pub open spec fn doc_mask_run(lines: Seq<Seq<char>>) -> (DocMaskState, Seq<bool>)
    decreases lines.len(),
{
    if lines.len() == 0 {
        (
            DocMaskState {
                masked_depth: None,
                brace_depth: 0,
                pending_test_only_doc: false,
                doc_block_active: false,
                mask_block_entered: false,
            },
            seq![],
        )
    } else {
        let prev = doc_mask_run(lines.drop_last());
        let step = doc_mask_step(prev.0, lines.last());
        (step.0, prev.1.push(step.1))
    }
}

/// The mask of items whose doc comment marks them as test-only.
pub open spec fn spec_documented_test_only_item_mask(lines: Seq<Seq<char>>) -> Seq<bool> {
    doc_mask_run(lines).1
}

proof fn lemma_doc_mask_run_len(lines: Seq<Seq<char>>)
    ensures
        doc_mask_run(lines).1.len() == lines.len(),
        -total_len(lines) <= doc_mask_run(lines).0.brace_depth <= total_len(lines),
        doc_mask_run(lines).0.masked_depth matches Some(d) ==> -total_len(lines) <= d <= total_len(
            lines,
        ),
    decreases lines.len(),
{
    if lines.len() > 0 {
        lemma_doc_mask_run_len(lines.drop_last());
        lemma_count_le(lines.last(), '{');
        lemma_count_le(lines.last(), '}');
    }
}

/// Lines of items whose doc comment says they are for tests only.
pub fn documented_test_only_item_mask(lines: &Vec<Vec<char>>) -> (r: Vec<bool>)
    requires
        total_len(lines_view(lines@)) <= isize::MAX,
    ensures
        r@ == spec_documented_test_only_item_mask(lines_view(lines@)),
{
    let ghost lv = lines_view(lines@);
    let mut mask: Vec<bool> = Vec::new();
    let mut masked_depth: Option<i64> = None;
    let mut brace_depth: i64 = 0;
    let mut pending_test_only_doc = false;
    let mut doc_block_active = false;
    let mut mask_block_entered = false;
    let mut i: usize = 0;
    assert(lv.take(0) =~= Seq::<Seq<char>>::empty());
    while i < lines.len()
        invariant
            i <= lines@.len(),
            lv == lines_view(lines@),
            total_len(lv) <= isize::MAX,
            ({
                let st = doc_mask_run(lv.take(i as int));
                &&& mask@ == st.1
                &&& st.0.brace_depth == brace_depth as int
                &&& st.0.masked_depth == (match masked_depth {
                    Some(d) => Some(d as int),
                    None => None,
                })
                &&& st.0.pending_test_only_doc == pending_test_only_doc
                &&& st.0.doc_block_active == doc_block_active
                &&& st.0.mask_block_entered == mask_block_entered
            }),
        decreases lines.len() - i,
    {
        let line = &lines[i];
        proof {
            assert(lv[i as int] == line@);
            assert(lv.take(i + 1).drop_last() =~= lv.take(i as int));
            lemma_doc_mask_run_len(lv.take(i as int));
            lemma_total_len_take(lv, i as int);
            lemma_total_len_prefix(lv, i + 1);
            lemma_count_le(line@, '{');
            lemma_count_le(line@, '}');
        }
        let t = trim_exec(line);
        if masked_depth.is_none() {
            if starts_with_str(&t, "///") {
                proof {
                    reveal_strlit("///");
                }
                doc_block_active = true;
                let comment = copy_range(&t, 3, t.len());
                assert(comment@ =~= t@.skip(3));
                if text_marks_test_only_item(&comment) {
                    pending_test_only_doc = true;
                }
            } else if doc_block_active && (t.len() == 0 || starts_with_str(&t, "#[")) {
            } else if doc_block_active && t.len() > 0 {
                doc_block_active = false;
            }
        }
        let (open, close) = brace_counts(line);
        let starts = pending_test_only_doc && masked_depth.is_none() && is_block_start(&t);
        if starts {
            masked_depth = Some(brace_depth);
            mask_block_entered = false;
            pending_test_only_doc = false;
        } else if pending_test_only_doc && t.len() > 0 && !starts_with_str(&t, "#[")
            && !starts_with_str(&t, "///") {
            pending_test_only_doc = false;
        }
        brace_depth = brace_depth + open - close;
        let mut m = false;
        match masked_depth {
            Some(td) => {
                m = true;
                if brace_depth > td || (starts && open > 0) {
                    mask_block_entered = true;
                }
                if mask_block_entered && brace_depth <= td {
                    masked_depth = None;
                    mask_block_entered = false;
                }
            },
            None => {},
        }
        mask.push(m);
        i += 1;
    }
    assert(lv.take(lines.len() as int) =~= lv);
    mask
}

// ---------------------------------------------------------------------------
// Combined masks
// ---------------------------------------------------------------------------

/// The pointwise `or` of two masks; a line past the end of a mask is not
/// masked by it.
pub open spec fn spec_merge_masks(left: Seq<bool>, right: Seq<bool>) -> Seq<bool> {
    let len = if left.len() >= right.len() {
        left.len()
    } else {
        right.len()
    };
    Seq::new(
        len,
        |i: int| (i < left.len() && left[i]) || (i < right.len() && right[i]),
    )
}

/// The pointwise `or` of two masks.
pub fn merge_masks(left: &Vec<bool>, right: &Vec<bool>) -> (r: Vec<bool>)
    ensures
        r@ == spec_merge_masks(left@, right@),
{
    let len = if left.len() >= right.len() {
        left.len()
    } else {
        right.len()
    };
    let mut r: Vec<bool> = Vec::new();
    let mut i: usize = 0;
    while i < len
        invariant
            i <= len,
            len == spec_merge_masks(left@, right@).len(),
            r@ == spec_merge_masks(left@, right@).take(i as int),
        decreases len - i,
    {
        let a = i < left.len() && left[i];
        let b = i < right.len() && right[i];
        r.push(a || b);
        i += 1;
        assert(r@ =~= spec_merge_masks(left@, right@).take(i as int));
    }
    assert(r@ =~= spec_merge_masks(left@, right@));
    r
}

/// Lines that do not belong to production code: items under a test or
/// non-production `cfg`, non-production `if cfg!(...)` blocks, and items
/// documented as test-only.
pub open spec fn spec_cfg_test_module_mask(lines: Seq<Seq<char>>) -> Seq<bool> {
    spec_merge_masks(
        spec_merge_masks(
            spec_item_mask(MaskAttr::MaskedCfg, lines),
            spec_block_mask(BlockStart::NonProductionCfgExpr, lines),
        ),
        spec_documented_test_only_item_mask(lines),
    )
}

/// The mask of all non-production lines of a file.
pub fn cfg_test_module_mask(lines: &Vec<Vec<char>>) -> (r: Vec<bool>)
    requires
        total_len(lines_view(lines@)) <= isize::MAX,
    ensures
        r@ == spec_cfg_test_module_mask(lines_view(lines@)),
{
    let a = item_mask_by_attr(lines, MaskAttr::MaskedCfg);
    let b = non_production_cfg_expr_block_mask(lines);
    let c = documented_test_only_item_mask(lines);
    merge_masks(&merge_masks(&a, &b), &c)
}


// ---------------------------------------------------------------------------
// Laws
// ---------------------------------------------------------------------------

proof fn lemma_item_mask_prefix(kind: MaskAttr, lines: Seq<Seq<char>>, k: int)
    requires
        0 <= k <= lines.len(),
    ensures
        item_mask_run(kind, lines).1.take(k) == item_mask_run(kind, lines.take(k)).1,
        item_mask_run(kind, lines).1.len() == lines.len(),
    decreases lines.len(),
{
    lemma_item_mask_run_len(kind, lines);
    if k < lines.len() {
        lemma_item_mask_prefix(kind, lines.drop_last(), k);
        assert(lines.drop_last().take(k) =~= lines.take(k));
        assert(item_mask_run(kind, lines).1.take(k) =~= item_mask_run(
            kind,
            lines.drop_last(),
        ).1.take(k));
    } else {
        assert(lines.take(k) =~= lines);
        assert(item_mask_run(kind, lines).1.take(k) =~= item_mask_run(kind, lines).1);
    }
}

proof fn lemma_block_mask_prefix(kind: BlockStart, lines: Seq<Seq<char>>, k: int)
    requires
        0 <= k <= lines.len(),
    ensures
        block_mask_run(kind, lines).1.take(k) == block_mask_run(kind, lines.take(k)).1,
        block_mask_run(kind, lines).1.len() == lines.len(),
    decreases lines.len(),
{
    lemma_block_mask_run_len(kind, lines);
    if k < lines.len() {
        lemma_block_mask_prefix(kind, lines.drop_last(), k);
        assert(lines.drop_last().take(k) =~= lines.take(k));
        assert(block_mask_run(kind, lines).1.take(k) =~= block_mask_run(
            kind,
            lines.drop_last(),
        ).1.take(k));
    } else {
        assert(lines.take(k) =~= lines);
        assert(block_mask_run(kind, lines).1.take(k) =~= block_mask_run(kind, lines).1);
    }
}

/// Every mask has one entry per line, and so has their combination.
pub proof fn law_masks_cover_every_line(lines: Seq<Seq<char>>)
    ensures
        spec_item_mask(MaskAttr::MaskedCfg, lines).len() == lines.len(),
        spec_item_mask(MaskAttr::GenesisBuild, lines).len() == lines.len(),
        spec_item_mask(MaskAttr::IntegrityTest, lines).len() == lines.len(),
        spec_block_mask(BlockStart::NonProductionCfgExpr, lines).len() == lines.len(),
        spec_block_mask(BlockStart::GenesisConfigImpl, lines).len() == lines.len(),
        spec_block_mask(BlockStart::ConstUnitInitializer, lines).len() == lines.len(),
        spec_documented_test_only_item_mask(lines).len() == lines.len(),
        spec_cfg_test_module_mask(lines).len() == lines.len(),
{
    lemma_item_mask_run_len(MaskAttr::MaskedCfg, lines);
    lemma_item_mask_run_len(MaskAttr::GenesisBuild, lines);
    lemma_item_mask_run_len(MaskAttr::IntegrityTest, lines);
    lemma_block_mask_run_len(BlockStart::NonProductionCfgExpr, lines);
    lemma_block_mask_run_len(BlockStart::GenesisConfigImpl, lines);
    lemma_block_mask_run_len(BlockStart::ConstUnitInitializer, lines);
    lemma_doc_mask_run_len(lines);
}

/// A line that carries a masking attribute (such as `#[cfg(test)]`) is
/// itself masked, wherever it stands.
pub proof fn law_masking_attribute_line_is_masked(
    kind: MaskAttr,
    lines: Seq<Seq<char>>,
    i: int,
)
    requires
        0 <= i < lines.len(),
        attr_matches(kind, trim(lines[i])),
    ensures
        spec_item_mask(kind, lines)[i],
{
    lemma_item_mask_prefix(kind, lines, i + 1);
    let pre = lines.take(i + 1);
    assert(pre.drop_last() =~= lines.take(i));
    assert(pre.last() == lines[i]);
    lemma_item_mask_run_len(kind, lines.take(i));
    assert(item_mask_run(kind, pre).1[i]);
    assert(item_mask_run(kind, lines).1.take(i + 1)[i] == item_mask_run(kind, lines).1[i]);
}

/// A line that opens a masked block (such as `if cfg!(debug_assertions) {`)
/// is itself masked, wherever it stands.
pub proof fn law_block_opening_line_is_masked(kind: BlockStart, lines: Seq<Seq<char>>, i: int)
    requires
        0 <= i < lines.len(),
        block_starts(kind, trim(lines[i])),
    ensures
        spec_block_mask(kind, lines)[i],
{
    lemma_block_mask_prefix(kind, lines, i + 1);
    let pre = lines.take(i + 1);
    assert(pre.drop_last() =~= lines.take(i));
    assert(pre.last() == lines[i]);
    lemma_block_mask_run_len(kind, lines.take(i));
    assert(block_mask_run(kind, pre).1[i]);
    assert(block_mask_run(kind, lines).1.take(i + 1)[i] == block_mask_run(kind, lines).1[i]);
}

/// The non-production mask holds every line that one of its three parts
/// holds, and no other.
pub proof fn law_cfg_test_mask_is_union_of_parts(lines: Seq<Seq<char>>, i: int)
    requires
        0 <= i < lines.len(),
    ensures
        spec_cfg_test_module_mask(lines)[i] == (spec_item_mask(MaskAttr::MaskedCfg, lines)[i]
            || spec_block_mask(BlockStart::NonProductionCfgExpr, lines)[i]
            || spec_documented_test_only_item_mask(lines)[i]),
{
    law_masks_cover_every_line(lines);
}

/// Combining masks is commutative.
pub proof fn law_merge_masks_commutes(left: Seq<bool>, right: Seq<bool>)
    ensures
        spec_merge_masks(left, right) == spec_merge_masks(right, left),
{
    assert(spec_merge_masks(left, right) =~= spec_merge_masks(right, left));
}

/// Combining a mask with itself gives the mask.
pub proof fn law_merge_masks_idempotent(mask: Seq<bool>)
    ensures
        spec_merge_masks(mask, mask) == mask,
{
    assert(spec_merge_masks(mask, mask) =~= mask);
}

} // verus!
