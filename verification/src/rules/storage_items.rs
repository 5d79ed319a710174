//! Rules on `#[pallet::storage]` items: SEC013, a collection that can grow
//! without bound and is not marked `#[pallet::unbounded]`; SEC014, a map
//! hashed with `Identity` on a key type whose values are easy to predict.
use vstd::prelude::*;
use crate::config::Config;
use crate::context::{rust_file_parses, walked_on, FileContext};
use crate::diagnostics::{
    into_report, make_diagnostic, models, report_of, Diagnostic, DiagnosticModel, RuleCategory,
    Severity,
};
use crate::rules::masks::{cfg_test_module_mask, spec_cfg_test_module_mask};
use crate::rules::masks::{strip_ws, strip_ws_exec};
use crate::rules::semantic::{
    content_lines, should_skip_production_rule, spec_should_skip_production_rule,
    IdentityHasherOnCommonKeys, UnboundedStorageCollections,
};
use crate::rules::syntax_rules::{last_is, last_is_exec, AttrSite};
use crate::rules::syntax_rules::{masked_line, masked_line_exec};
use crate::rules::LintRule;
use crate::text::{
    chars_of, concat, contains, contains_str, equals_str, lines_of, push_str,
    to_ascii_lowercase, to_ascii_lowercase_exec,
};

verus! {

/// A generic argument of a storage type: the last segment of its path
/// (through groups, parentheses and references), and the last segment of
/// every path inside it.
pub struct TypeArg {
    pub name: Option<String>,
    pub names_inside: Vec<String>,
}

/// A `type` item of the file, as SEC014 reads it.
pub struct StorageTypeSite {
    pub line: usize,
    pub column: usize,
    /// The paths of its attributes, segment by segment.
    pub attr_paths: Vec<Vec<String>>,
    /// The last segment of its type's path and that segment's generic type
    /// arguments, when they are written in angle brackets.
    pub storage: Option<(String, Vec<TypeArg>)>,
    /// Its doc comments' texts, in order.
    pub docs: Vec<String>,
    /// Its type names `Vec`, `BTreeMap` or `BTreeSet` outside a bounded
    /// collection.
    pub unbounded_collection: bool,
}

/// The item carries an attribute `#[pallet::<name>]`.
pub open spec fn has_pallet_attr(s: StorageTypeSite, name: Seq<char>) -> bool {
    exists|k: int|
        0 <= k < s.attr_paths@.len() && (#[trigger] s.attr_paths@[k])@.len() == 2
            && s.attr_paths@[k]@[0]@ == "pallet"@ && s.attr_paths@[k]@[1]@ == name
}

/// The item carries `#[pallet::storage]`.
pub open spec fn is_pallet_storage(s: StorageTypeSite) -> bool {
    has_pallet_attr(s, "storage"@)
}

/// The argument is the type `n`.
pub open spec fn arg_named(a: TypeArg, n: Seq<char>) -> bool {
    match a.name {
        Some(x) => x@ == n,
        None => false,
    }
}

/// The argument names `n` somewhere.
pub open spec fn arg_mentions(a: TypeArg, n: Seq<char>) -> bool {
    exists|k: int| 0 <= k < a.names_inside@.len() && (#[trigger] a.names_inside@[k])@ == n
}

/// The argument is `u32` or `u64`.
pub open spec fn is_numeric_key(a: TypeArg) -> bool {
    arg_named(a, "u32"@) || arg_named(a, "u64"@)
}

/// A key type whose values are easy to predict.
pub open spec fn is_common_key(a: TypeArg) -> bool {
    arg_mentions(a, "AccountId"@) || arg_mentions(a, "Balance"@) || arg_mentions(a, "BlockNumber"@)
        || is_numeric_key(a)
}

/// The doc texts joined by spaces.
pub open spec fn joined_docs(docs: Seq<String>) -> Seq<char>
    decreases docs.len(),
{
    if docs.len() == 0 {
        seq![]
    } else if docs.len() == 1 {
        docs[0]@
    } else {
        joined_docs(docs.drop_last()) + " "@ + docs.last()@
    }
}

/// The docs describe a numeric layout of the map's own: a ring buffer, an
/// index, a segment or a position.
pub open spec fn docs_mark_numeric_layout(docs: Seq<String>) -> bool {
    let d = to_ascii_lowercase(joined_docs(docs));
    contains(d, "ring buffer"@) || contains(d, "index"@) || contains(d, "indices"@) || contains(
        d,
        "segment"@,
    ) || contains(d, "position"@)
}

/// Argument `h` is the `Identity` hasher of a common key at argument `k`,
/// but for a numeric key whose docs describe a layout of the map's own.
pub open spec fn identity_on_common_key(args: Seq<TypeArg>, docs: Seq<String>, h: int, k: int) -> bool {
    &&& h < args.len() && arg_named(args[h], "Identity"@)
    &&& k < args.len() && is_common_key(args[k])
    &&& !(is_numeric_key(args[k]) && docs_mark_numeric_layout(docs))
}

/// A storage map or double map that hashes a common key with `Identity`.
pub open spec fn storage_uses_identity(kind: Seq<char>, args: Seq<TypeArg>, docs: Seq<String>) -> bool {
    if kind == "StorageMap"@ || kind == "CountedStorageMap"@ {
        identity_on_common_key(args, docs, 1, 2)
    } else if kind == "StorageDoubleMap"@ {
        identity_on_common_key(args, docs, 1, 2) || identity_on_common_key(args, docs, 3, 4)
    } else {
        false
    }
}

/// A pallet storage item of production code that SEC014 reports.
pub open spec fn identity_hasher_flagged(s: StorageTypeSite, mask: Seq<bool>) -> bool {
    &&& is_pallet_storage(s)
    &&& !masked_line(mask, s.line as nat)
    &&& match s.storage {
        Some((kind, args)) => storage_uses_identity(kind@, args@, s.docs@),
        None => false,
    }
}

/// The SEC014 diagnostic of an item.
pub open spec fn sec014_model(file: Seq<char>, sev: Severity, s: StorageTypeSite) -> DiagnosticModel {
    DiagnosticModel {
        rule_id: "SEC014"@,
        rule_name: "identity-hasher-on-common-keys"@,
        category: RuleCategory::Semantic,
        severity: sev,
        file,
        line: s.line as nat,
        column: Some(s.column as nat),
        end_line: None,
        message: "Storage map uses `Identity` hasher on a common key type"@,
        explanation: "`Identity` hashing on predictable keys like `AccountId`, `u32`, `u64`, or balances can expose the trie to poor key dispersion and unsafe assumptions. Prefer a standard hasher such as `Blake2_128Concat`."@,
        suggestion: Some(
            "Replace `Identity` with `Blake2_128Concat` unless the identity layout is strictly required"@,
        ),
    }
}

/// The SEC014 diagnostics of a file's `type` items, in order.
pub open spec fn sec014_found(
    sites: Seq<StorageTypeSite>,
    mask: Seq<bool>,
    file: Seq<char>,
    sev: Severity,
) -> Seq<DiagnosticModel>
    decreases sites.len(),
{
    if sites.len() == 0 {
        seq![]
    } else {
        let rest = sec014_found(sites.drop_last(), mask, file, sev);
        if identity_hasher_flagged(sites.last(), mask) {
            rest.push(sec014_model(file, sev, sites.last()))
        } else {
            rest
        }
    }
}

/// Whether the item carries `#[pallet::<name>]`.
fn has_pallet_attr_exec(s: &StorageTypeSite, name: &str) -> (r: bool)
    ensures
        r == has_pallet_attr(*s, name@),
{
    let mut k: usize = 0;
    while k < s.attr_paths.len()
        invariant
            k <= s.attr_paths@.len(),
            forall|j: int|
                0 <= j < k ==> !((#[trigger] s.attr_paths@[j])@.len() == 2 && s.attr_paths@[j]@[0]@
                    == "pallet"@ && s.attr_paths@[j]@[1]@ == name@),
        decreases s.attr_paths.len() - k,
    {
        let p = &s.attr_paths[k];
        if p.len() == 2 && equals_str(&chars_of(p[0].as_str()), "pallet") && equals_str(
            &chars_of(p[1].as_str()),
            name,
        ) {
            assert(s.attr_paths@[k as int] == *p);
            return true;
        }
        k += 1;
    }
    false
}

/// Whether the argument is the type `n`.
fn arg_named_exec(a: &TypeArg, n: &str) -> (r: bool)
    ensures
        r == arg_named(*a, n@),
{
    match &a.name {
        Some(x) => equals_str(&chars_of(x.as_str()), n),
        None => false,
    }
}

/// Whether the argument names `n` somewhere.
fn arg_mentions_exec(a: &TypeArg, n: &str) -> (r: bool)
    ensures
        r == arg_mentions(*a, n@),
{
    let mut k: usize = 0;
    while k < a.names_inside.len()
        invariant
            k <= a.names_inside@.len(),
            forall|j: int| 0 <= j < k ==> (#[trigger] a.names_inside@[j])@ != n@,
        decreases a.names_inside.len() - k,
    {
        if equals_str(&chars_of(a.names_inside[k].as_str()), n) {
            assert(a.names_inside@[k as int]@ == n@);
            return true;
        }
        k += 1;
    }
    false
}

/// Whether the argument is a key type whose values are easy to predict.
fn is_common_key_exec(a: &TypeArg) -> (r: bool)
    ensures
        r == is_common_key(*a),
{
    arg_mentions_exec(a, "AccountId") || arg_mentions_exec(a, "Balance") || arg_mentions_exec(
        a,
        "BlockNumber",
    ) || arg_named_exec(a, "u32") || arg_named_exec(a, "u64")
}

/// The doc texts joined by spaces.
fn joined_docs_exec(docs: &Vec<String>) -> (r: Vec<char>)
    ensures
        r@ == joined_docs(docs@),
{
    let mut out: Vec<char> = Vec::new();
    let mut k: usize = 0;
    assert(docs@.take(0) =~= Seq::<String>::empty());
    while k < docs.len()
        invariant
            k <= docs@.len(),
            out@ == joined_docs(docs@.take(k as int)),
        decreases docs.len() - k,
    {
        assert(docs@.take(k + 1).drop_last() =~= docs@.take(k as int));
        assert(docs@.take(k + 1).last() == docs@[k as int]);
        let d = chars_of(docs[k].as_str());
        if k == 0 {
            assert(docs@.take(1)[0] == docs@[0]);
            out = d;
        } else {
            out = concat(&push_str(out, " "), &d);
        }
        k += 1;
    }
    assert(docs@.take(docs@.len() as int) =~= docs@);
    out
}

/// Whether the docs describe a numeric layout of the map's own.
fn docs_mark_numeric_layout_exec(docs: &Vec<String>) -> (r: bool)
    ensures
        r == docs_mark_numeric_layout(docs@),
{
    let d = to_ascii_lowercase_exec(&joined_docs_exec(docs));
    contains_str(&d, "ring buffer") || contains_str(&d, "index") || contains_str(&d, "indices")
        || contains_str(&d, "segment") || contains_str(&d, "position")
}

/// Whether argument `h` hashes the common key at argument `k` with
/// `Identity`.
fn identity_on_common_key_exec(args: &Vec<TypeArg>, docs: &Vec<String>, h: usize, k: usize) -> (r: bool)
    ensures
        r == identity_on_common_key(args@, docs@, h as int, k as int),
{
    if !(h < args.len() && arg_named_exec(&args[h], "Identity")) {
        return false;
    }
    if !(k < args.len() && is_common_key_exec(&args[k])) {
        return false;
    }
    !((arg_named_exec(&args[k], "u32") || arg_named_exec(&args[k], "u64"))
        && docs_mark_numeric_layout_exec(docs))
}

/// Whether SEC014 reports an item.
fn identity_hasher_flagged_exec(s: &StorageTypeSite, mask: &Vec<bool>) -> (r: bool)
    ensures
        r == identity_hasher_flagged(*s, mask@),
{
    if !has_pallet_attr_exec(s, "storage") || masked_line_exec(mask, s.line) {
        return false;
    }
    match &s.storage {
        Some((kind, args)) => {
            let k = chars_of(kind.as_str());
            if equals_str(&k, "StorageMap") || equals_str(&k, "CountedStorageMap") {
                identity_on_common_key_exec(args, &s.docs, 1, 2)
            } else if equals_str(&k, "StorageDoubleMap") {
                identity_on_common_key_exec(args, &s.docs, 1, 2) || identity_on_common_key_exec(
                    args,
                    &s.docs,
                    3,
                    4,
                )
            } else {
                false
            }
        },
        None => false,
    }
}

impl IdentityHasherOnCommonKeys {
    /// Runs the rule on the file, with `walk` reading its `type` items off its
    /// syntax tree: nothing when the file is not Rust or does not parse.
    pub fn check_file<W: Fn(&syn::File) -> Vec<StorageTypeSite>>(&self, ctx: &FileContext, config: &Config, walk: W) -> (r: Option<Vec<Diagnostic>>)
        requires
            ctx.content@.len() <= isize::MAX,
            forall|t: syn::File| walk.requires((&t,)),
        ensures
            !(ctx.is_rust && rust_file_parses(ctx.content@)) ==> r is None,
            (ctx.is_rust && rust_file_parses(ctx.content@)) ==> exists|sites: Vec<StorageTypeSite>|
                #[trigger] walked_on(walk, ctx.content@, sites) && (!(!spec_should_skip_production_rule(ctx)) ==> r is None) && ((!spec_should_skip_production_rule(ctx)) ==> report_of(
                    sec014_found(sites@, spec_cfg_test_module_mask(lines_of(ctx.content@)), ctx.path@, config.spec_rule_severity("SEC014"@, Severity::Warning)),
                    r,
                )),
    {
        let sites = ctx.file_sites(walk);
        let r = self.check(ctx, config, sites);
        proof {
            if ctx.is_rust && rust_file_parses(ctx.content@) {
                assert(walked_on(walk, ctx.content@, sites->0));
            }
        }
        r
    }

    /// Reports each `#[pallet::storage]` map or double map of production
    /// code that hashes an `AccountId`, balance, block number, `u32` or
    /// `u64` key with `Identity`, unless the key is numeric and the docs
    /// describe a layout of the map's own. `sites` are the file's `type`
    /// items in the syntax tree's order (`None` when it did not parse).
    pub fn check(&self, ctx: &FileContext, config: &Config, sites: Option<Vec<StorageTypeSite>>) -> (r: Option<Vec<Diagnostic>>)
        requires
            ctx.content@.len() <= isize::MAX,
        ensures
            (spec_should_skip_production_rule(ctx) || sites is None) ==> r is None,
            (!spec_should_skip_production_rule(ctx) && sites is Some) ==> report_of(
                sec014_found(
                    sites->0@,
                    spec_cfg_test_module_mask(lines_of(ctx.content@)),
                    ctx.path@,
                    config.spec_rule_severity("SEC014"@, Severity::Warning),
                ),
                r,
            ),
    {
        if should_skip_production_rule(ctx) {
            return None;
        }
        let sites = match sites {
            Some(s) => s,
            None => return None,
        };
        let lines = content_lines(ctx);
        let mask = cfg_test_module_mask(&lines);
        let severity = config.rule_severity(self.id(), Severity::Warning);
        let mut diagnostics: Vec<Diagnostic> = Vec::new();
        let mut i: usize = 0;
        assert(sites@.take(0) =~= Seq::<StorageTypeSite>::empty());
        while i < sites.len()
            invariant
                i <= sites@.len(),
                models(diagnostics@) == sec014_found(sites@.take(i as int), mask@, ctx.path@, severity),
            decreases sites.len() - i,
        {
            let s = &sites[i];
            assert(sites@.take(i + 1).drop_last() =~= sites@.take(i as int));
            assert(sites@.take(i + 1).last() == *s);
            if identity_hasher_flagged_exec(s, &mask) {
                let ghost before = models(diagnostics@);
                diagnostics.push(
                    make_diagnostic(
                        self.id(),
                        self.name(),
                        RuleCategory::Semantic,
                        severity,
                        &ctx.path,
                        s.line,
                        Some(s.column),
                        None,
                        "Storage map uses `Identity` hasher on a common key type".to_owned(),
                        "`Identity` hashing on predictable keys like `AccountId`, `u32`, `u64`, or balances can expose the trie to poor key dispersion and unsafe assumptions. Prefer a standard hasher such as `Blake2_128Concat`.",
                        Some(
                            "Replace `Identity` with `Blake2_128Concat` unless the identity layout is strictly required".to_owned(),
                        ),
                    ),
                );
                assert(models(diagnostics@) =~= before.push(sec014_model(ctx.path@, severity, *s)));
            }
            i += 1;
        }
        assert(sites@.take(sites@.len() as int) =~= sites@);
        into_report(diagnostics)
    }
}


// ---------------------------------------------------------------------------
// SEC013: unbounded storage collections
// ---------------------------------------------------------------------------

/// The docs bound the collection: they name a limit and do not call it
/// unbounded.
pub open spec fn docs_mark_bounded_collection(docs: Seq<String>) -> bool {
    let d = to_ascii_lowercase(joined_docs(docs));
    if contains(d, "could become bounded"@) || contains(d, "no global maximum"@) || contains(
        d,
        "no global bound"@,
    ) || contains(d, "unbounded"@) {
        false
    } else {
        contains(d, "length is limited by"@) || contains(d, "size is limited by"@) || contains(
            d,
            "bounded by"@,
        ) || contains(d, "limited by the capacity"@)
    }
}

/// A top-level module of the file carries `#[pallet(dev_mode)]` (an
/// attribute whose path ends in `pallet` and whose tokens name
/// `dev_mode`).
pub open spec fn has_pallet_dev_mode(module_attrs: Seq<AttrSite>) -> bool {
    exists|k: int|
        0 <= k < module_attrs.len() && last_is((#[trigger] module_attrs[k]).path@, "pallet"@)
            && contains(strip_ws(module_attrs[k].tokens@), "dev_mode"@)
}

/// A pallet storage item of production code that SEC013 reports.
pub open spec fn unbounded_collection_flagged(s: StorageTypeSite, mask: Seq<bool>) -> bool {
    &&& has_pallet_attr(s, "storage"@)
    &&& !has_pallet_attr(s, "unbounded"@)
    &&& !masked_line(mask, s.line as nat)
    &&& s.unbounded_collection
    &&& !docs_mark_bounded_collection(s.docs@)
}

/// The SEC013 diagnostic of an item.
pub open spec fn sec013_model(file: Seq<char>, sev: Severity, s: StorageTypeSite) -> DiagnosticModel {
    DiagnosticModel {
        rule_id: "SEC013"@,
        rule_name: "unbounded-storage-collections"@,
        category: RuleCategory::Semantic,
        severity: sev,
        file,
        line: s.line as nat,
        column: Some(s.column as nat),
        end_line: None,
        message: "Storage item uses `Vec`/`BTreeMap` without `#[pallet::unbounded]`"@,
        explanation: "FRAME requires `#[pallet::unbounded]` on storage items whose encoded size can grow without a static bound. Without it, the metadata and weight story are misleading."@,
        suggestion: Some("Add `#[pallet::unbounded]` or switch to a bounded storage type"@),
    }
}

/// The SEC013 diagnostics of a file's `type` items, in order.
pub open spec fn sec013_found(
    sites: Seq<StorageTypeSite>,
    mask: Seq<bool>,
    file: Seq<char>,
    sev: Severity,
) -> Seq<DiagnosticModel>
    decreases sites.len(),
{
    if sites.len() == 0 {
        seq![]
    } else {
        let rest = sec013_found(sites.drop_last(), mask, file, sev);
        if unbounded_collection_flagged(sites.last(), mask) {
            rest.push(sec013_model(file, sev, sites.last()))
        } else {
            rest
        }
    }
}

/// Whether the docs bound the collection.
fn docs_mark_bounded_collection_exec(docs: &Vec<String>) -> (r: bool)
    ensures
        r == docs_mark_bounded_collection(docs@),
{
    let d = to_ascii_lowercase_exec(&joined_docs_exec(docs));
    if contains_str(&d, "could become bounded") || contains_str(&d, "no global maximum")
        || contains_str(&d, "no global bound") || contains_str(&d, "unbounded") {
        return false;
    }
    contains_str(&d, "length is limited by") || contains_str(&d, "size is limited by")
        || contains_str(&d, "bounded by") || contains_str(&d, "limited by the capacity")
}

/// Whether a top-level module carries `#[pallet(dev_mode)]`.
fn has_pallet_dev_mode_exec(module_attrs: &Vec<AttrSite>) -> (r: bool)
    ensures
        r == has_pallet_dev_mode(module_attrs@),
{
    let mut k: usize = 0;
    while k < module_attrs.len()
        invariant
            k <= module_attrs@.len(),
            forall|j: int|
                0 <= j < k ==> !(last_is((#[trigger] module_attrs@[j]).path@, "pallet"@) && contains(
                    strip_ws(module_attrs@[j].tokens@),
                    "dev_mode"@,
                )),
        decreases module_attrs.len() - k,
    {
        let a = &module_attrs[k];
        if last_is_exec(&a.path, "pallet") && contains_str(
            &strip_ws_exec(&chars_of(a.tokens.as_str())),
            "dev_mode",
        ) {
            assert(module_attrs@[k as int] == *a);
            return true;
        }
        k += 1;
    }
    false
}

/// Whether SEC013 reports an item.
fn unbounded_collection_flagged_exec(s: &StorageTypeSite, mask: &Vec<bool>) -> (r: bool)
    ensures
        r == unbounded_collection_flagged(*s, mask@),
{
    has_pallet_attr_exec(s, "storage") && !has_pallet_attr_exec(s, "unbounded") && !masked_line_exec(
        mask,
        s.line,
    ) && s.unbounded_collection && !docs_mark_bounded_collection_exec(&s.docs)
}

impl UnboundedStorageCollections {
    /// Reports each `#[pallet::storage]` item of production code whose type
    /// holds a `Vec`, `BTreeMap` or `BTreeSet` outside a bounded collection,
    /// with no `#[pallet::unbounded]` and no docs that bound it; a pallet in
    /// dev mode is not read. `sites` are the file's `type` items in the
    /// syntax tree's order and `module_attrs` the attributes of its
    /// top-level modules (`None` when it did not parse).
    pub fn check(
        &self,
        ctx: &FileContext,
        config: &Config,
        parsed: Option<(Vec<StorageTypeSite>, Vec<AttrSite>)>,
    ) -> (r: Option<Vec<Diagnostic>>)
        requires
            ctx.content@.len() <= isize::MAX,
        ensures
            (spec_should_skip_production_rule(ctx) || parsed is None) ==> r is None,
            (!spec_should_skip_production_rule(ctx) && parsed is Some && has_pallet_dev_mode(
                (parsed->0).1@,
            )) ==> r is None,
            (!spec_should_skip_production_rule(ctx) && parsed is Some && !has_pallet_dev_mode(
                (parsed->0).1@,
            )) ==> report_of(
                sec013_found(
                    (parsed->0).0@,
                    spec_cfg_test_module_mask(lines_of(ctx.content@)),
                    ctx.path@,
                    config.spec_rule_severity("SEC013"@, Severity::Warning),
                ),
                r,
            ),
    {
        if should_skip_production_rule(ctx) {
            return None;
        }
        let (sites, module_attrs) = match parsed {
            Some(p) => p,
            None => return None,
        };
        if has_pallet_dev_mode_exec(&module_attrs) {
            return None;
        }
        let lines = content_lines(ctx);
        let mask = cfg_test_module_mask(&lines);
        let severity = config.rule_severity(self.id(), Severity::Warning);
        let mut diagnostics: Vec<Diagnostic> = Vec::new();
        let mut i: usize = 0;
        assert(sites@.take(0) =~= Seq::<StorageTypeSite>::empty());
        while i < sites.len()
            invariant
                i <= sites@.len(),
                models(diagnostics@) == sec013_found(sites@.take(i as int), mask@, ctx.path@, severity),
            decreases sites.len() - i,
        {
            let s = &sites[i];
            assert(sites@.take(i + 1).drop_last() =~= sites@.take(i as int));
            assert(sites@.take(i + 1).last() == *s);
            if unbounded_collection_flagged_exec(s, &mask) {
                let ghost before = models(diagnostics@);
                diagnostics.push(
                    make_diagnostic(
                        self.id(),
                        self.name(),
                        RuleCategory::Semantic,
                        severity,
                        &ctx.path,
                        s.line,
                        Some(s.column),
                        None,
                        "Storage item uses `Vec`/`BTreeMap` without `#[pallet::unbounded]`".to_owned(),
                        "FRAME requires `#[pallet::unbounded]` on storage items whose encoded size can grow without a static bound. Without it, the metadata and weight story are misleading.",
                        Some("Add `#[pallet::unbounded]` or switch to a bounded storage type".to_owned()),
                    ),
                );
                assert(models(diagnostics@) =~= before.push(sec013_model(ctx.path@, severity, *s)));
            }
            i += 1;
        }
        assert(sites@.take(sites@.len() as int) =~= sites@);
        into_report(diagnostics)
    }
}

} // verus!
