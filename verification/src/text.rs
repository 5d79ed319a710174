//! Text as sequences of characters: the operations the rules read source
//! lines with, each stated over `Seq<char>` and proved.
use vstd::prelude::*;

verus! {

// ---------------------------------------------------------------------------
// Specifications
// ---------------------------------------------------------------------------

/// `p` is a prefix of `s`.
pub open spec fn starts_with(s: Seq<char>, p: Seq<char>) -> bool {
    p.len() <= s.len() && s.take(p.len() as int) == p
}

/// `p` is a suffix of `s`.
pub open spec fn ends_with(s: Seq<char>, p: Seq<char>) -> bool {
    p.len() <= s.len() && s.skip(s.len() - p.len()) == p
}

/// `p` occurs in `s` starting at index `i`.
pub open spec fn occurs_at(s: Seq<char>, p: Seq<char>, i: int) -> bool {
    0 <= i && i + p.len() <= s.len() && s.subrange(i, i + p.len()) == p
}

/// `p` occurs somewhere in `s` (the empty pattern occurs in every text).
pub open spec fn contains(s: Seq<char>, p: Seq<char>) -> bool {
    exists|i: int| occurs_at(s, p, i)
}

/// `i` is the first index at which `p` occurs in `s`.
pub open spec fn is_first_occurrence(s: Seq<char>, p: Seq<char>, i: int) -> bool {
    occurs_at(s, p, i) && forall|j: int| 0 <= j < i ==> !occurs_at(s, p, j)
}

/// The character index of the first occurrence of `p` in `s`, as `str::find`
/// reports it (counted in characters).
pub open spec fn find(s: Seq<char>, p: Seq<char>) -> Option<int> {
    if contains(s, p) {
        Some(choose|i: int| is_first_occurrence(s, p, i))
    } else {
        None
    }
}

/// Unicode `White_Space`, the set that `char::is_whitespace` tests.
pub open spec fn is_ws(c: char) -> bool {
    ||| ('\u{9}' <= c && c <= '\u{d}')
    ||| c == ' '
    ||| c == '\u{85}'
    ||| c == '\u{a0}'
    ||| c == '\u{1680}'
    ||| ('\u{2000}' <= c && c <= '\u{200a}')
    ||| c == '\u{2028}'
    ||| c == '\u{2029}'
    ||| c == '\u{202f}'
    ||| c == '\u{205f}'
    ||| c == '\u{3000}'
}

/// `s` without its leading whitespace.
pub open spec fn trim_start(s: Seq<char>) -> Seq<char>
    decreases s.len(),
{
    if s.len() > 0 && is_ws(s[0]) {
        trim_start(s.drop_first())
    } else {
        s
    }
}

/// `s` without its trailing whitespace.
pub open spec fn trim_end(s: Seq<char>) -> Seq<char>
    decreases s.len(),
{
    if s.len() > 0 && is_ws(s.last()) {
        trim_end(s.drop_last())
    } else {
        s
    }
}

/// `s` without leading and trailing whitespace (`str::trim`).
pub open spec fn trim(s: Seq<char>) -> Seq<char> {
    trim_end(trim_start(s))
}

/// The index of the first `'\n'` in `s`, or `s.len()` when there is none.
pub open spec fn newline_pos(s: Seq<char>) -> int
    decreases s.len(),
{
    if s.len() == 0 {
        0
    } else if s[0] == '\n' {
        0
    } else {
        1 + newline_pos(s.drop_first())
    }
}

/// A line as `str::lines` yields it: the text before the line feed, with a
/// carriage return dropped where it stood just before that line feed.
pub open spec fn line_body(seg: Seq<char>, terminated: bool) -> Seq<char> {
    if terminated && seg.len() > 0 && seg.last() == '\r' {
        seg.drop_last()
    } else {
        seg
    }
}

/// The lines of `s`, as `str::lines` yields them: split at each `'\n'`, a
/// `"\r\n"` ending counts as one line ending, and a final line ending adds
/// no empty line.
pub open spec fn lines_of(s: Seq<char>) -> Seq<Seq<char>>
    decreases s.len(),
{
    if s.len() == 0 {
        seq![]
    } else {
        let k = newline_pos(s);
        proof {
            lemma_newline_pos_bounds(s);
        }
        if k >= s.len() {
            seq![s]
        } else {
            seq![line_body(s.take(k), true)] + lines_of(s.skip(k + 1))
        }
    }
}

/// How many times `c` occurs in `s`.
pub open spec fn count_char(s: Seq<char>, c: char) -> nat
    decreases s.len(),
{
    if s.len() == 0 {
        0
    } else {
        count_char(s.drop_last(), c) + if s.last() == c {
            1nat
        } else {
            0nat
        }
    }
}

/// ASCII letters and digits (`char::is_ascii_alphanumeric`).
pub open spec fn is_ascii_alnum(c: char) -> bool {
    ('a' <= c && c <= 'z') || ('A' <= c && c <= 'Z') || ('0' <= c && c <= '9')
}

/// `c` with an ASCII capital letter turned into its small letter
/// (`char::to_ascii_lowercase`).
pub open spec fn ascii_lower(c: char) -> char {
    if 'A' <= c && c <= 'Z' {
        ((c as u32) + 32) as char
    } else {
        c
    }
}

/// `s` with every ASCII capital letter turned into its small letter
/// (`str::to_ascii_lowercase`).
pub open spec fn to_ascii_lowercase(s: Seq<char>) -> Seq<char> {
    s.map_values(|c: char| ascii_lower(c))
}

/// The character sequences of a vector of lines.
pub open spec fn lines_view(v: Seq<Vec<char>>) -> Seq<Seq<char>> {
    v.map_values(|l: Vec<char>| l@)
}

/// The number of characters in all of `ls` together.
pub open spec fn total_len(ls: Seq<Seq<char>>) -> nat
    decreases ls.len(),
{
    if ls.len() == 0 {
        0
    } else {
        total_len(ls.drop_last()) + ls.last().len()
    }
}

/// The number of bytes of `c` in UTF-8.
pub open spec fn utf8_len(c: char) -> nat {
    if (c as u32) < 0x80 {
        1
    } else if (c as u32) < 0x800 {
        2
    } else if (c as u32) < 0x10000 {
        3
    } else {
        4
    }
}

/// The byte offset in UTF-8 of the character at index `i` of `s` (what
/// `str::find` reports for a match at that character).
pub open spec fn byte_offset(s: Seq<char>, i: int) -> nat
    decreases i,
{
    if i <= 0 {
        0
    } else {
        byte_offset(s, i - 1) + utf8_len(s[i - 1])
    }
}

/// The byte offset of the first occurrence of `p` in `s`.
pub open spec fn find_byte(s: Seq<char>, p: Seq<char>) -> Option<nat> {
    match find(s, p) {
        Some(i) => Some(byte_offset(s, i)),
        None => None,
    }
}

/// The decimal digits of `n`, as `usize`'s `Display` writes them.
pub open spec fn decimal(n: nat) -> Seq<char>
    decreases n,
{
    if n < 10 {
        seq![digit_char(n)]
    } else {
        decimal(n / 10).push(digit_char(n % 10))
    }
}

/// The character of the digit `d`.
pub open spec fn digit_char(d: nat) -> char {
    if d == 0 {
        '0'
    } else if d == 1 {
        '1'
    } else if d == 2 {
        '2'
    } else if d == 3 {
        '3'
    } else if d == 4 {
        '4'
    } else if d == 5 {
        '5'
    } else if d == 6 {
        '6'
    } else if d == 7 {
        '7'
    } else if d == 8 {
        '8'
    } else {
        '9'
    }
}

// ---------------------------------------------------------------------------
// Lemmas
// ---------------------------------------------------------------------------

/// `total_len` of a prefix extended by one line.
pub proof fn lemma_total_len_take(ls: Seq<Seq<char>>, i: int)
    requires
        0 <= i < ls.len(),
    ensures
        total_len(ls.take(i + 1)) == total_len(ls.take(i)) + ls[i].len(),
{
    assert(ls.take(i + 1).drop_last() =~= ls.take(i));
}

/// `total_len` of a prefix is at most that of the whole.
pub proof fn lemma_total_len_prefix(ls: Seq<Seq<char>>, i: int)
    requires
        0 <= i <= ls.len(),
    ensures
        total_len(ls.take(i)) <= total_len(ls),
    decreases ls.len() - i,
{
    if i < ls.len() {
        lemma_total_len_prefix(ls, i + 1);
        lemma_total_len_take(ls, i);
    } else {
        assert(ls.take(i) =~= ls);
    }
}

/// `total_len` distributes over concatenation.
pub proof fn lemma_total_len_concat(a: Seq<Seq<char>>, b: Seq<Seq<char>>)
    ensures
        total_len(a + b) == total_len(a) + total_len(b),
    decreases b.len(),
{
    if b.len() > 0 {
        assert((a + b).drop_last() =~= a + b.drop_last());
        lemma_total_len_concat(a, b.drop_last());
    } else {
        assert(a + b =~= a);
    }
}

/// A text has no more lines than characters.
pub proof fn lemma_lines_count(s: Seq<char>)
    ensures
        lines_of(s).len() <= s.len(),
    decreases s.len(),
{
    if s.len() > 0 {
        let k = newline_pos(s);
        lemma_newline_pos_bounds(s);
        if k < s.len() {
            lemma_lines_count(s.skip(k + 1));
        }
    }
}

/// A line is no longer than all lines together.
pub proof fn lemma_line_len_le_total(ls: Seq<Seq<char>>, i: int)
    requires
        0 <= i < ls.len(),
    ensures
        ls[i].len() <= total_len(ls),
{
    lemma_total_len_take(ls, i);
    lemma_total_len_prefix(ls, i + 1);
}

/// The lines of a text hold no more characters than the text.
pub proof fn lemma_lines_total_len(s: Seq<char>)
    ensures
        total_len(lines_of(s)) <= s.len(),
    decreases s.len(),
{
    if s.len() > 0 {
        let k = newline_pos(s);
        lemma_newline_pos_bounds(s);
        if k >= s.len() {
            let only: Seq<Seq<char>> = seq![s];
            assert(only.drop_last() =~= Seq::<Seq<char>>::empty());
            assert(total_len(only.drop_last()) == 0);
            assert(total_len(only) == s.len());
        } else {
            lemma_lines_total_len(s.skip(k + 1));
            let first: Seq<Seq<char>> = seq![line_body(s.take(k), true)];
            assert(first.drop_last() =~= Seq::<Seq<char>>::empty());
            assert(total_len(first.drop_last()) == 0);
            assert(total_len(first) == first[0].len());
            assert(first[0].len() <= k);
            lemma_total_len_concat(first, lines_of(s.skip(k + 1)));
        }
    }
}

proof fn lemma_trim_start_skip(s: Seq<char>, a: int)
    requires
        0 <= a <= s.len(),
        forall|i: int| 0 <= i < a ==> is_ws(s[i]),
        a == s.len() || !is_ws(s[a]),
    ensures
        trim_start(s) == s.skip(a),
    decreases a,
{
    if a > 0 {
        assert forall|i: int| 0 <= i < a - 1 implies is_ws(s.drop_first()[i]) by {
            assert(s.drop_first()[i] == s[i + 1]);
        }
        if a - 1 < s.drop_first().len() {
            assert(s.drop_first()[a - 1] == s[a]);
        }
        lemma_trim_start_skip(s.drop_first(), a - 1);
        assert(s.drop_first().skip(a - 1) =~= s.skip(a));
    } else {
        assert(s.skip(0) =~= s);
    }
}

pub proof fn lemma_trim_end_take(s: Seq<char>, b: int)
    requires
        0 <= b <= s.len(),
        forall|i: int| b <= i < s.len() ==> is_ws(s[i]),
        b == 0 || !is_ws(s[b - 1]),
    ensures
        trim_end(s) == s.take(b),
    decreases s.len() - b,
{
    if b < s.len() {
        assert forall|i: int| b <= i < s.drop_last().len() implies is_ws(s.drop_last()[i]) by {
            assert(s.drop_last()[i] == s[i]);
        }
        if b > 0 {
            assert(s.drop_last()[b - 1] == s[b - 1]);
        }
        lemma_trim_end_take(s.drop_last(), b);
        assert(s.drop_last().take(b) =~= s.take(b));
    } else {
        assert(s.take(b) =~= s);
    }
}

pub proof fn lemma_newline_pos_bounds(s: Seq<char>)
    ensures
        0 <= newline_pos(s) <= s.len(),
    decreases s.len(),
{
    if s.len() > 0 {
        lemma_newline_pos_bounds(s.drop_first());
    }
}

proof fn lemma_newline_pos(s: Seq<char>, k: int)
    requires
        0 <= k <= s.len(),
        forall|i: int| 0 <= i < k ==> s[i] != '\n',
        k == s.len() || s[k] == '\n',
    ensures
        newline_pos(s) == k,
    decreases k,
{
    if k > 0 {
        assert forall|i: int| 0 <= i < k - 1 implies s.drop_first()[i] != '\n' by {
            assert(s.drop_first()[i] == s[i + 1]);
        }
        if k - 1 < s.drop_first().len() {
            assert(s.drop_first()[k - 1] == s[k]);
        }
        lemma_newline_pos(s.drop_first(), k - 1);
    }
}

/// `count_char` over a prefix extended by one character.
proof fn lemma_count_char_take(s: Seq<char>, c: char, i: int)
    requires
        0 <= i < s.len(),
    ensures
        count_char(s.take(i + 1), c) == count_char(s.take(i), c) + if s[i] == c {
            1nat
        } else {
            0nat
        },
{
    assert(s.take(i + 1).drop_last() =~= s.take(i));
}

// ---------------------------------------------------------------------------
// Executable operations
// ---------------------------------------------------------------------------

/// The characters of `s`, in order.
pub fn chars_of(s: &str) -> (r: Vec<char>)
    ensures
        r@ == s@,
{
    let mut v: Vec<char> = Vec::new();
    for c in it: s.chars()
        invariant
            v@ == it.seq().take(it.index() as int),
    {
        v.push(c);
    }
    v
}

/// Appends `c` to `s` (`String::push`).
#[verifier::external_body]
fn push_char(s: &mut String, c: char)
    ensures
        final(s)@ == old(s)@.push(c),
{
    s.push(c)
}

/// The UTF-8 encoding of `s`, at most four bytes a character, and one past
/// its end are addressable: a byte offset into it, plus one, fits in `usize`.
pub open spec fn utf8_fits(s: Seq<char>) -> bool {
    4 * s.len() < usize::MAX
}

/// The byte offset of character index `i` of `s`.
pub fn byte_offset_exec(s: &Vec<char>, i: usize) -> (r: usize)
    requires
        i <= s.len(),
        utf8_fits(s@),
    ensures
        r == byte_offset(s@, i as int),
        r <= 4 * i,
{
    let mut b: usize = 0;
    let mut k: usize = 0;
    while k < i
        invariant
            k <= i <= s.len(),
            utf8_fits(s@),
            b == byte_offset(s@, k as int),
            b <= 4 * k,
        decreases i - k,
    {
        let c = s[k];
        let n: usize = if (c as u32) < 0x80 {
            1
        } else if (c as u32) < 0x800 {
            2
        } else if (c as u32) < 0x10000 {
            3
        } else {
            4
        };
        b = b + n;
        k += 1;
    }
    b
}

/// The byte offset of the first occurrence of `p` in `s`, if any.
pub fn find_byte_exec(s: &Vec<char>, p: &Vec<char>) -> (r: Option<usize>)
    requires
        utf8_fits(s@),
    ensures
        match r {
            Some(b) => find_byte(s@, p@) == Some(b as nat) && b <= 4 * s.len(),
            None => find_byte(s@, p@) is None,
        },
{
    match find_exec(s, p) {
        Some(i) => Some(byte_offset_exec(s, i)),
        None => None,
    }
}

fn digit_char_exec(d: usize) -> (r: char)
    requires
        d < 10,
    ensures
        r == digit_char(d as nat),
{
    if d == 0 {
        '0'
    } else if d == 1 {
        '1'
    } else if d == 2 {
        '2'
    } else if d == 3 {
        '3'
    } else if d == 4 {
        '4'
    } else if d == 5 {
        '5'
    } else if d == 6 {
        '6'
    } else if d == 7 {
        '7'
    } else if d == 8 {
        '8'
    } else {
        '9'
    }
}

/// The decimal digits of `n`.
pub fn decimal_exec(n: usize) -> (r: Vec<char>)
    ensures
        r@ == decimal(n as nat),
    decreases n,
{
    if n < 10 {
        let mut v: Vec<char> = Vec::new();
        v.push(digit_char_exec(n));
        assert(v@ =~= seq![digit_char(n as nat)]);
        v
    } else {
        let mut v = decimal_exec(n / 10);
        v.push(digit_char_exec(n % 10));
        v
    }
}

/// Whether `a` and `b` hold the same characters.
pub fn chars_equal(a: &Vec<char>, b: &Vec<char>) -> (r: bool)
    ensures
        r == (a@ == b@),
{
    if a.len() != b.len() {
        return false;
    }
    let mut i: usize = 0;
    while i < a.len()
        invariant
            i <= a@.len(),
            a@.len() == b@.len(),
            forall|j: int| 0 <= j < i ==> a@[j] == b@[j],
        decreases a.len() - i,
    {
        if a[i] != b[i] {
            return false;
        }
        i += 1;
    }
    assert(a@ =~= b@);
    true
}

/// The decimal digits of a `u64`.
pub fn decimal_u64_exec(n: u64) -> (r: Vec<char>)
    ensures
        r@ == decimal(n as nat),
    decreases n,
{
    if n < 10 {
        let mut v: Vec<char> = Vec::new();
        v.push(digit_char_exec(n as usize));
        assert(v@ =~= seq![digit_char(n as nat)]);
        v
    } else {
        let mut v = decimal_u64_exec(n / 10);
        v.push(digit_char_exec((n % 10) as usize));
        v
    }
}

/// The string made of the characters of `v`.
pub fn string_of(v: &Vec<char>) -> (r: String)
    ensures
        r@ == v@,
{
    let mut s = String::new();
    let mut i: usize = 0;
    while i < v.len()
        invariant
            i <= v.len(),
            s@ == v@.take(i as int),
        decreases v.len() - i,
    {
        push_char(&mut s, v[i]);
        i += 1;
        assert(s@ =~= v@.take(i as int));
    }
    assert(v@.take(v.len() as int) =~= v@);
    s
}

/// The characters of `s` from index `a` up to (not including) `b`.
pub fn copy_range(s: &Vec<char>, a: usize, b: usize) -> (r: Vec<char>)
    requires
        a <= b <= s.len(),
    ensures
        r@ == s@.subrange(a as int, b as int),
{
    let mut r: Vec<char> = Vec::new();
    let mut i = a;
    while i < b
        invariant
            a <= i <= b <= s.len(),
            r@ == s@.subrange(a as int, i as int),
        decreases b - i,
    {
        r.push(s[i]);
        i += 1;
        assert(r@ =~= s@.subrange(a as int, i as int));
    }
    r
}

/// `s` followed by the text `lit`.
pub fn push_str(s: Vec<char>, lit: &str) -> (r: Vec<char>)
    ensures
        r@ == s@ + lit@,
{
    concat(&s, &chars_of(lit))
}

/// The concatenation of `a` and `b`.
pub fn concat(a: &Vec<char>, b: &Vec<char>) -> (r: Vec<char>)
    ensures
        r@ == a@ + b@,
{
    let mut r = copy_range(a, 0, a.len());
    let mut i: usize = 0;
    assert(a@.subrange(0, a.len() as int) =~= a@);
    while i < b.len()
        invariant
            i <= b.len(),
            r@ == a@ + b@.take(i as int),
        decreases b.len() - i,
    {
        r.push(b[i]);
        i += 1;
        assert(r@ =~= a@ + b@.take(i as int));
    }
    assert(b@.take(b.len() as int) =~= b@);
    r
}

/// Whether `p` occurs in `s` at index `i`.
pub fn occurs_at_exec(s: &Vec<char>, p: &Vec<char>, i: usize) -> (r: bool)
    ensures
        r == occurs_at(s@, p@, i as int),
{
    if i > s.len() || p.len() > s.len() - i {
        return false;
    }
    let mut k: usize = 0;
    while k < p.len()
        invariant
            k <= p.len(),
            i + p.len() <= s.len(),
            forall|j: int| 0 <= j < k ==> s@[i + j] == p@[j],
        decreases p.len() - k,
    {
        if s[i + k] != p[k] {
            assert(s@.subrange(i as int, i + p.len())[k as int] != p@[k as int]);
            return false;
        }
        k += 1;
    }
    assert(s@.subrange(i as int, i + p.len()) =~= p@);
    true
}

/// Whether `s` starts with `p`.
pub fn starts_with_exec(s: &Vec<char>, p: &Vec<char>) -> (r: bool)
    ensures
        r == starts_with(s@, p@),
{
    let r = occurs_at_exec(s, p, 0);
    assert(s@.subrange(0, p@.len() as int) =~= s@.take(p@.len() as int));
    r
}

/// Whether `s` ends with `p`.
pub fn ends_with_exec(s: &Vec<char>, p: &Vec<char>) -> (r: bool)
    ensures
        r == ends_with(s@, p@),
{
    if p.len() > s.len() {
        return false;
    }
    let r = occurs_at_exec(s, p, s.len() - p.len());
    assert(s@.subrange(s.len() - p.len(), s.len() as int) =~= s@.skip(s.len() - p.len()));
    r
}

/// The first index at which `p` occurs in `s`, if any (`str::find`, counted
/// in characters).
pub fn find_exec(s: &Vec<char>, p: &Vec<char>) -> (r: Option<usize>)
    ensures
        r matches Some(i) ==> is_first_occurrence(s@, p@, i as int),
        r is None <==> !contains(s@, p@),
        r matches Some(i) ==> find(s@, p@) == Some(i as int),
        r is None ==> find(s@, p@) is None,
{
    if p.len() > s.len() {
        return None;
    }
    let mut i: usize = 0;
    while i <= s.len() - p.len()
        invariant
            p.len() <= s.len(),
            i <= s.len() - p.len() + 1,
            forall|j: int| 0 <= j < i ==> !occurs_at(s@, p@, j),
        decreases s.len() - p.len() + 1 - i,
    {
        if occurs_at_exec(s, p, i) {
            proof {
                assert(is_first_occurrence(s@, p@, i as int));
                let c = choose|k: int| is_first_occurrence(s@, p@, k);
                if c < i {
                } else if c > i {
                }
            }
            return Some(i);
        }
        if i == s.len() - p.len() {
            return None;
        }
        i += 1;
    }
    None
}

/// Whether `p` occurs in `s`.
pub fn contains_exec(s: &Vec<char>, p: &Vec<char>) -> (r: bool)
    ensures
        r == contains(s@, p@),
{
    find_exec(s, p).is_some()
}

/// Whether `s` starts with the text `lit`.
pub fn starts_with_str(s: &Vec<char>, lit: &str) -> (r: bool)
    ensures
        r == starts_with(s@, lit@),
{
    starts_with_exec(s, &chars_of(lit))
}

/// Whether `s` ends with the text `lit`.
pub fn ends_with_str(s: &Vec<char>, lit: &str) -> (r: bool)
    ensures
        r == ends_with(s@, lit@),
{
    ends_with_exec(s, &chars_of(lit))
}

/// Whether the text `lit` occurs in `s`.
pub fn contains_str(s: &Vec<char>, lit: &str) -> (r: bool)
    ensures
        r == contains(s@, lit@),
{
    contains_exec(s, &chars_of(lit))
}

/// Whether `s` is exactly the text `lit`.
pub fn equals_str(s: &Vec<char>, lit: &str) -> (r: bool)
    ensures
        r == (s@ == lit@),
{
    let l = chars_of(lit);
    if s.len() != l.len() {
        return false;
    }
    let r = starts_with_exec(s, &l);
    assert(s@.take(l@.len() as int) =~= s@);
    r
}

/// Whether `c` is whitespace (`char::is_whitespace`).
pub fn is_ws_exec(c: char) -> (r: bool)
    ensures
        r == is_ws(c),
{
    ('\u{9}' <= c && c <= '\u{d}') || c == ' ' || c == '\u{85}' || c == '\u{a0}' || c
        == '\u{1680}' || ('\u{2000}' <= c && c <= '\u{200a}') || c == '\u{2028}' || c
        == '\u{2029}' || c == '\u{202f}' || c == '\u{205f}' || c == '\u{3000}'
}

/// Whether `c` is an ASCII letter or digit.
pub fn is_ascii_alnum_exec(c: char) -> (r: bool)
    ensures
        r == is_ascii_alnum(c),
{
    ('a' <= c && c <= 'z') || ('A' <= c && c <= 'Z') || ('0' <= c && c <= '9')
}

/// `s` without leading and trailing whitespace (`str::trim`).
pub fn trim_exec(s: &Vec<char>) -> (r: Vec<char>)
    ensures
        r@ == trim(s@),
{
    let mut a: usize = 0;
    while a < s.len() && is_ws_exec(s[a])
        invariant
            a <= s.len(),
            forall|i: int| 0 <= i < a ==> is_ws(s@[i]),
        decreases s.len() - a,
    {
        a += 1;
    }
    proof {
        lemma_trim_start_skip(s@, a as int);
    }
    let mut b: usize = s.len();
    while b > a && is_ws_exec(s[b - 1])
        invariant
            a <= b <= s.len(),
            forall|i: int| b <= i < s.len() ==> is_ws(s@[i]),
        decreases b - a,
    {
        b -= 1;
    }
    let ghost t = s@.skip(a as int);
    proof {
        assert forall|i: int| b - a <= i < t.len() implies is_ws(t[i]) by {
            assert(t[i] == s@[i + a]);
        }
        if b > a {
            assert(t[b - a - 1] == s@[b - 1]);
        }
        lemma_trim_end_take(t, b - a);
        assert(t.take(b - a) =~= s@.subrange(a as int, b as int));
    }
    copy_range(s, a, b)
}

/// `s` without its leading whitespace (`str::trim_start`).
pub fn trim_start_exec(s: &Vec<char>) -> (r: Vec<char>)
    ensures
        r@ == trim_start(s@),
{
    let mut a: usize = 0;
    while a < s.len() && is_ws_exec(s[a])
        invariant
            a <= s.len(),
            forall|i: int| 0 <= i < a ==> is_ws(s@[i]),
        decreases s.len() - a,
    {
        a += 1;
    }
    proof {
        lemma_trim_start_skip(s@, a as int);
        assert(s@.skip(a as int) =~= s@.subrange(a as int, s.len() as int));
    }
    copy_range(s, a, s.len())
}

/// The lines of `s` (`str::lines`).
pub fn split_lines(s: &Vec<char>) -> (r: Vec<Vec<char>>)
    ensures
        r@.map_values(|l: Vec<char>| l@) == lines_of(s@),
{
    let mut r: Vec<Vec<char>> = Vec::new();
    let mut pos: usize = 0;
    assert(s@.skip(0) =~= s@);
    while pos < s.len()
        invariant
            pos <= s.len(),
            r@.map_values(|l: Vec<char>| l@) + lines_of(s@.skip(pos as int)) == lines_of(s@),
        decreases s.len() - pos,
    {
        let ghost rest = s@.skip(pos as int);
        let mut k = pos;
        while k < s.len() && s[k] != '\n'
            invariant
                pos <= k <= s.len(),
                forall|j: int| pos <= j < k ==> s@[j] != '\n',
            decreases s.len() - k,
        {
            k += 1;
        }
        proof {
            assert forall|j: int| 0 <= j < k - pos implies rest[j] != '\n' by {
                assert(rest[j] == s@[j + pos]);
            }
            if k < s.len() {
                assert(rest[k - pos] == s@[k as int]);
            }
            lemma_newline_pos(rest, k - pos);
        }
        let terminated = k < s.len();
        let end = if terminated && k > pos && s[k - 1] == '\r' {
            k - 1
        } else {
            k
        };
        let line = copy_range(s, pos, end);
        proof {
            let seg = rest.take(k - pos);
            assert(seg =~= s@.subrange(pos as int, k as int));
            if terminated {
                assert(line@ == line_body(seg, true));
                assert(rest.skip(k - pos + 1) =~= s@.skip(k + 1));
            } else {
                assert(seg =~= rest);
            }
        }
        let ghost old_r = r@;
        r.push(line);
        assert(r@.map_values(|l: Vec<char>| l@) =~= old_r.map_values(|l: Vec<char>| l@).push(
            line@,
        ));
        if terminated {
            pos = k + 1;
        } else {
            pos = k;
        }
        assert(r@.map_values(|l: Vec<char>| l@) + lines_of(s@.skip(pos as int)) =~= lines_of(
            s@,
        ));
    }
    assert(s@.skip(pos as int) =~= Seq::<char>::empty());
    assert(r@.map_values(|l: Vec<char>| l@) + lines_of(s@.skip(pos as int)) =~= r@.map_values(
        |l: Vec<char>| l@,
    ));
    r
}

/// How many times `c` occurs in `s`.
pub fn count_char_exec(s: &Vec<char>, c: char) -> (r: usize)
    ensures
        r == count_char(s@, c),
{
    let mut n: usize = 0;
    let mut i: usize = 0;
    assert(s@.take(0) =~= Seq::<char>::empty());
    while i < s.len()
        invariant
            i <= s.len(),
            n == count_char(s@.take(i as int), c),
            n <= i,
        decreases s.len() - i,
    {
        proof {
            lemma_count_char_take(s@, c, i as int);
        }
        if s[i] == c {
            n += 1;
        }
        i += 1;
    }
    assert(s@.take(s.len() as int) =~= s@);
    n
}

/// `c` with an ASCII capital letter turned into its small letter.
pub fn ascii_lower_exec(c: char) -> (r: char)
    ensures
        r == ascii_lower(c),
{
    if 'A' <= c && c <= 'Z' {
        let b: u8 = (c as u8) + 32;
        b as char
    } else {
        c
    }
}

/// `s` with every ASCII capital letter turned into its small letter.
pub fn to_ascii_lowercase_exec(s: &Vec<char>) -> (r: Vec<char>)
    ensures
        r@ == to_ascii_lowercase(s@),
{
    let mut r: Vec<char> = Vec::new();
    let mut i: usize = 0;
    while i < s.len()
        invariant
            i <= s.len(),
            r@ == to_ascii_lowercase(s@.take(i as int)),
        decreases s.len() - i,
    {
        r.push(ascii_lower_exec(s[i]));
        i += 1;
        assert(r@ =~= to_ascii_lowercase(s@.take(i as int)));
    }
    assert(s@.take(s.len() as int) =~= s@);
    r
}


// ---------------------------------------------------------------------------
// The order of texts
// ---------------------------------------------------------------------------

/// `a` comes before `b` in the order of `str`'s `Ord`: lexicographic by
/// character, a proper prefix first (UTF-8 byte order is code point order).
pub open spec fn text_less(a: Seq<char>, b: Seq<char>) -> bool
    decreases a.len(),
{
    if a.len() == 0 {
        b.len() > 0
    } else if b.len() == 0 {
        false
    } else if a[0] != b[0] {
        a[0] < b[0]
    } else {
        text_less(a.drop_first(), b.drop_first())
    }
}

/// No text comes before itself.
pub proof fn lemma_text_less_irreflexive(a: Seq<char>)
    ensures
        !text_less(a, a),
    decreases a.len(),
{
    if a.len() > 0 {
        lemma_text_less_irreflexive(a.drop_first());
    }
}

/// Of two texts, they are equal or one comes first.
pub proof fn lemma_text_less_total(a: Seq<char>, b: Seq<char>)
    ensures
        a == b || text_less(a, b) || text_less(b, a),
    decreases a.len(),
{
    if a.len() > 0 && b.len() > 0 && a[0] == b[0] {
        lemma_text_less_total(a.drop_first(), b.drop_first());
        if a.drop_first() == b.drop_first() {
            assert(a =~= seq![a[0]] + a.drop_first());
            assert(b =~= seq![b[0]] + b.drop_first());
        }
    } else if a.len() > 0 && b.len() > 0 {
    } else if a.len() == 0 && b.len() == 0 {
        assert(a =~= b);
    }
}

/// The order of texts is transitive.
pub proof fn lemma_text_less_transitive(a: Seq<char>, b: Seq<char>, c: Seq<char>)
    requires
        text_less(a, b),
        text_less(b, c),
    ensures
        text_less(a, c),
    decreases a.len(),
{
    if a.len() > 0 && b.len() > 0 && c.len() > 0 && a[0] == b[0] && b[0] == c[0] {
        lemma_text_less_transitive(a.drop_first(), b.drop_first(), c.drop_first());
    }
}

/// Whether `a` comes before `b` in the order of texts.
pub fn text_less_exec(a: &Vec<char>, b: &Vec<char>) -> (r: bool)
    ensures
        r == text_less(a@, b@),
{
    let mut i: usize = 0;
    assert(a@.skip(0) =~= a@);
    assert(b@.skip(0) =~= b@);
    while i < a.len() && i < b.len() && a[i] == b[i]
        invariant
            i <= a.len(),
            i <= b.len(),
            text_less(a@, b@) == text_less(a@.skip(i as int), b@.skip(i as int)),
        decreases a.len() - i,
    {
        assert(a@.skip(i as int).drop_first() =~= a@.skip(i + 1));
        assert(b@.skip(i as int).drop_first() =~= b@.skip(i + 1));
        i += 1;
    }
    if i == a.len() {
        i < b.len()
    } else if i == b.len() {
        false
    } else {
        assert(a@.skip(i as int)[0] == a@[i as int]);
        assert(b@.skip(i as int)[0] == b@[i as int]);
        a[i] < b[i]
    }
}

} // verus!
