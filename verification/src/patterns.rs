//! Regular-expression matching, done by the `regex` crate.
use vstd::prelude::*;
use crate::diagnostics::opt_text;

verus! {

/// Whether `regex::Regex::new(pattern)` compiles and its `is_match` finds a
/// match in `text` (`None` when the pattern does not compile).
pub uninterp spec fn regex_is_match(pattern: Seq<char>, text: Seq<char>) -> Option<bool>;

/// The text of capture group 1 of the first match of the regex `pattern` in
/// `text` (`None` when it does not compile, finds no match, or group 1 did
/// not take part).
pub uninterp spec fn regex_first_group(pattern: Seq<char>, text: Seq<char>) -> Option<Seq<char>>;

/// For each successive non-overlapping match of the regex `pattern` in
/// `text`, the text of capture group 1 if it took part (empty when the
/// pattern does not compile).
pub uninterp spec fn regex_all_first_groups(pattern: Seq<char>, text: Seq<char>) -> Seq<
    Option<Seq<char>>,
>;

/// A character with a meaning in a regular expression
/// (`regex_syntax::is_meta_character`).
pub open spec fn is_regex_meta(c: char) -> bool {
    c == '\\' || c == '.' || c == '+' || c == '*' || c == '?' || c == '(' || c == ')' || c == '|'
        || c == '[' || c == ']' || c == '{' || c == '}' || c == '^' || c == '$' || c == '#' || c
        == '&' || c == '-' || c == '~'
}

/// `s` with a backslash put before each regex meta character: what
/// `regex::escape` returns.
pub open spec fn regex_escaped(s: Seq<char>) -> Seq<char>
    decreases s.len(),
{
    if s.len() == 0 {
        seq![]
    } else {
        let c = s.last();
        regex_escaped(s.drop_last()) + if is_regex_meta(c) {
            seq!['\\', c]
        } else {
            seq![c]
        }
    }
}

/// What `str::to_lowercase` (full Unicode lowercase mapping) returns for `s`.
pub uninterp spec fn unicode_lowercase(s: Seq<char>) -> Seq<char>;

/// Compiles `pattern` with `regex::Regex::new` and runs `Regex::is_match` on
/// `text`; the result is named `regex_is_match(pattern, text)`, `None` when
/// compilation fails.
#[verifier::external_body]
pub(crate) fn regex_match(pattern: &str, text: &str) -> (r: Option<bool>)
    ensures
        r == regex_is_match(pattern@, text@),
{
    regex::Regex::new(pattern).ok().map(|re| re.is_match(text))
}

/// Compiles `pattern` with `regex::Regex::new` and runs `Regex::captures` on
/// `text`, taking capture group 1; the result is named
/// `regex_first_group(pattern, text)`.
#[verifier::external_body]
pub(crate) fn regex_capture(pattern: &str, text: &str) -> (r: Option<String>)
    ensures
        opt_text(r) == regex_first_group(pattern@, text@),
{
    let re = regex::Regex::new(pattern).ok()?;
    let caps = re.captures(text)?;
    caps.get(1).map(|m| m.as_str().to_string())
}

/// Compiles `pattern` with `regex::Regex::new` and runs
/// `Regex::captures_iter` on `text`, taking capture group 1 of each match;
/// the result is named `regex_all_first_groups(pattern, text)`.
#[verifier::external_body]
pub(crate) fn regex_capture_all(pattern: &str, text: &str) -> (r: Vec<Option<String>>)
    ensures
        r@.map_values(|o: Option<String>| opt_text(o)) == regex_all_first_groups(pattern@, text@),
{
    match regex::Regex::new(pattern) {
        Ok(re) => re.captures_iter(text).map(|c| c.get(1).map(|m| m.as_str().to_string())).collect(),
        Err(_) => Vec::new(),
    }
}

/// Calls `regex::escape`, which puts a backslash before each character for
/// which `regex_syntax::is_meta_character` holds and copies the others.
#[verifier::external_body]
pub(crate) fn regex_escape(s: &str) -> (r: String)
    ensures
        r@ == regex_escaped(s@),
{
    regex::escape(s)
}

/// Calls `str::to_lowercase`; the result is named `unicode_lowercase(s)`.
#[verifier::external_body]
pub(crate) fn to_lowercase(s: &str) -> (r: String)
    ensures
        r@ == unicode_lowercase(s@),
{
    s.to_lowercase()
}

} // verus!
