//! The file a rule looks at.
use vstd::prelude::*;

verus! {

/// A source file and what is known about it.
pub struct FileContext {
    /// The path of the file as given.
    pub path: String,
    /// The path relative to the scanned root.
    pub rel_path: String,
    /// The text of the file.
    pub content: String,
    pub is_rust: bool,
    pub is_text: bool,
    pub is_test_file: bool,
    pub is_benchmark_file: bool,
    /// The file belongs to a proc-macro crate target.
    pub is_proc_macro_target: bool,
    /// The file is a module whose declaration in its parent module stands
    /// under a test or non-production `cfg` (see
    /// `paths::module_decl_has_masked_cfg`).
    pub in_cfg_gated_module: bool,
}

/// `walk` gave `sites` for a syntax tree that `syn::parse_file` returned for
/// `text`.
pub open spec fn walked_on<S, W: Fn(&syn::File) -> S>(walk: W, text: Seq<char>, sites: S) -> bool {
    exists|t: syn::File| parsed_from(t, text) && walk.ensures((&t,), sites)
}

/// `syn`'s syntax tree of a Rust source file.
#[verifier::external_type_specification]
#[verifier::external_body]
pub struct ExSynFile(syn::File);

/// Whether `syn::parse_file` accepts `text` as a Rust source file.
pub uninterp spec fn rust_file_parses(text: Seq<char>) -> bool;

/// `t` is a syntax tree that `syn::parse_file` returned for `text`. Each call
/// returns a tree of its own: with `proc-macro2`'s span locations, every
/// parse places its spans after those of the parses before it, so two trees
/// of one text differ in their spans. This is therefore a relation between
/// a tree and its text, not a function of the text.
pub uninterp spec fn parsed_from(t: syn::File, text: Seq<char>) -> bool;

/// Parses `content` as a Rust source file with `syn::parse_file`, keeping the
/// tree and dropping the error; whether a tree comes back is named
/// `rust_file_parses(content)`, and the tree is one parsed from `content`.
#[verifier::external_body]
pub fn parse_ast(content: &str) -> (r: Option<syn::File>)
    ensures
        r is Some <==> rust_file_parses(content@),
        r matches Some(t) ==> parsed_from(t, content@),
{
    syn::parse_file(content).ok()
}

impl FileContext {
    /// The syntax tree the rules read: the parsed file when it is Rust and
    /// parses, else none.
    pub fn syntax_tree(&self) -> (r: Option<syn::File>)
        ensures
            r is Some <==> (self.is_rust && rust_file_parses(self.content@)),
            r matches Some(t) ==> parsed_from(t, self.content@),
    {
        if self.is_rust {
            parse_ast(self.content.as_str())
        } else {
            None
        }
    }

    /// What `walk` reads off the syntax tree parsed from the file's text when
    /// the file is Rust and parses; none otherwise.
    pub fn file_sites<S, W: Fn(&syn::File) -> S>(&self, walk: W) -> (r: Option<S>)
        requires
            forall|t: syn::File| walk.requires((&t,)),
        ensures
            r is None <==> !(self.is_rust && rust_file_parses(self.content@)),
            r matches Some(s) ==> walked_on(walk, self.content@, s),
    {
        match self.syntax_tree() {
            Some(t) => {
                let s = walk(&t);
                let ghost gt = t;
                let r = Some(s);
                assert(parsed_from(gt, self.content@) && walk.ensures((&gt,), r->0));
                r
            },
            None => None,
        }
    }
}

} // verus!
