//! The rules that read a file's syntax tree. The tree is walked by the
//! caller, which hands over what each rule looks at as plain values: the
//! attributes, `use` items, bindings, loops and calls it met, in the
//! tree's order. The rules' decisions and their diagnostics are here.
use vstd::prelude::*;
use crate::config::Config;
use crate::context::FileContext;
use crate::diagnostics::{
    into_report, make_diagnostic, models, report_of, Diagnostic, DiagnosticModel, RuleCategory,
    Severity,
};
use crate::rules::masks::{cfg_test_module_mask, spec_cfg_test_module_mask, strip_ws, strip_ws_exec};
use crate::rules::paths::{
    is_pure_test_path, path_file_name, spec_is_pure_test_path, std_path_file_name,
};
use crate::rules::semantic::{
    content_lines, should_skip_production_rule, spec_should_skip_production_rule,
    NoWildcardImports, ParameteriseWeightFunctions, PreferCollectTurbofish, PreferRefIteration,
    RuntimeDebugDeprecated, WeightZeroPlaceholder, AllowDeadCodeInPallet, CustomInvalidityReprU8,
    MissingWeightOfAuthorize,
};
use crate::rules::LintRule;
use crate::text::{
    chars_of, contains, contains_str, ends_with, ends_with_str, equals_str, lines_of,
};

verus! {

// ---------------------------------------------------------------------------
// What the syntax tree shows
// ---------------------------------------------------------------------------

/// A path written in the source: its segments, and the 1-based line and
/// column where it starts.
pub struct PathSite {
    pub segments: Vec<String>,
    pub line: usize,
    pub column: usize,
}

/// A method call: the method's name, and when its receiver is a call of a
/// path, that path's segments and the number of arguments; with its 1-based
/// line and column.
pub struct MethodCallSite {
    pub method: String,
    pub receiver_call: Option<(Vec<String>, usize)>,
    pub line: usize,
    pub column: usize,
}

/// An attribute: its path's segments, its tokens as written back, its
/// 1-based line and column, and what its arguments parse as: the called
/// path when they are a call of a path, the method calls inside them when
/// they are an expression, and the paths when they are a list of paths.
pub struct AttrSite {
    pub path: Vec<String>,
    pub tokens: String,
    pub line: usize,
    pub column: usize,
    pub arg_call: Option<Vec<String>>,
    pub arg_method_calls: Option<Vec<MethodCallSite>>,
    pub arg_paths: Option<Vec<PathSite>>,
}

/// The texts of a path's segments.
pub open spec fn segs(p: Seq<String>) -> Seq<Seq<char>> {
    p.map_values(|s: String| s@)
}

/// The path's last segment is `s`.
pub open spec fn last_is(p: Seq<String>, s: Seq<char>) -> bool {
    p.len() > 0 && p.last()@ == s
}

/// One of the path's segments is `s`.
pub open spec fn has_segment(p: Seq<String>, s: Seq<char>) -> bool {
    exists|i: int| 0 <= i < p.len() && #[trigger] p[i]@ == s
}

/// Whether the path's last segment is `s`.
pub fn last_is_exec(p: &Vec<String>, s: &str) -> (r: bool)
    ensures
        r == last_is(p@, s@),
{
    if p.len() == 0 {
        false
    } else {
        equals_str(&chars_of(p[p.len() - 1].as_str()), s)
    }
}

/// Whether one of the path's segments is `s`.
pub fn has_segment_exec(p: &Vec<String>, s: &str) -> (r: bool)
    ensures
        r == has_segment(p@, s@),
{
    let mut i: usize = 0;
    while i < p.len()
        invariant
            i <= p@.len(),
            forall|j: int| 0 <= j < i ==> #[trigger] p@[j]@ != s@,
        decreases p.len() - i,
    {
        if equals_str(&chars_of(p[i].as_str()), s) {
            return true;
        }
        i += 1;
    }
    false
}

/// Whether the path is exactly the segments `a`, or `a::b` when `b` is
/// given.
pub fn path_is_exec(p: &Vec<String>, a: &str, b: Option<&str>) -> (r: bool)
    ensures
        r == match b {
            None => segs(p@) == seq![a@],
            Some(b) => segs(p@) == seq![a@, b@],
        },
{
    proof {
        assert(segs(p@).len() == p@.len());
        assert(seq![a@].len() == 1);
        if p@.len() >= 1 {
            assert(segs(p@)[0] == p@[0]@);
        }
        if p@.len() >= 2 {
            assert(segs(p@)[1] == p@[1]@);
        }
    }
    match b {
        None => {
            if p.len() != 1 {
                return false;
            }
            let r = equals_str(&chars_of(p[0].as_str()), a);
            assert(r ==> segs(p@) =~= seq![a@]);
            assert(segs(p@) == seq![a@] ==> segs(p@)[0] == seq![a@][0]);
            r
        },
        Some(b) => {
            assert(seq![a@, b@].len() == 2);
            if p.len() != 2 {
                return false;
            }
            let r = equals_str(&chars_of(p[0].as_str()), a) && equals_str(
                &chars_of(p[1].as_str()),
                b,
            );
            assert(r ==> segs(p@) =~= seq![a@, b@]);
            assert(segs(p@) == seq![a@, b@] ==> segs(p@)[0] == seq![a@, b@][0] && segs(p@)[1]
                == seq![a@, b@][1]);
            r
        },
    }
}

/// Line `line` (1-based) is in the mask.
pub open spec fn masked_line(mask: Seq<bool>, line: nat) -> bool {
    let i: int = if line >= 1 {
        line - 1
    } else {
        0
    };
    i < mask.len() && mask[i]
}

/// Whether line `line` (1-based) is in the mask.
pub fn masked_line_exec(mask: &Vec<bool>, line: usize) -> (r: bool)
    ensures
        r == masked_line(mask@, line as nat),
{
    let i: usize = if line >= 1 {
        line - 1
    } else {
        0
    };
    i < mask.len() && mask[i]
}

/// The non-production mask of a file.
fn file_mask(ctx: &FileContext) -> (r: Vec<bool>)
    requires
        ctx.content@.len() <= isize::MAX,
    ensures
        r@ == spec_cfg_test_module_mask(lines_of(ctx.content@)),
{
    let lines = content_lines(ctx);
    cfg_test_module_mask(&lines)
}

// ---------------------------------------------------------------------------
// SEM002: `.collect::<Vec<_>>()` over a typed binding
// ---------------------------------------------------------------------------

/// A `let` binding: its 1-based line and column; whether its pattern has a
/// type that names `Vec`; the method its initializer calls, if it is a
/// method call, and whether that call has a turbofish.
pub struct LocalSite {
    pub line: usize,
    pub column: usize,
    pub typed_vec: bool,
    pub init_method: Option<String>,
    pub turbofish: bool,
}

/// A typed `Vec` binding initialized by a `.collect()` without turbofish.
pub open spec fn collects_into_typed_vec(l: LocalSite) -> bool {
    l.typed_vec && match l.init_method {
        Some(m) => m@ == "collect"@ && !l.turbofish,
        None => false,
    }
}

/// The SEM002 diagnostic for a binding.
pub open spec fn sem002_model(file: Seq<char>, sev: Severity, l: LocalSite) -> DiagnosticModel {
    DiagnosticModel {
        rule_id: "SEM002"@,
        rule_name: "prefer-collect-turbofish"@,
        category: RuleCategory::Semantic,
        severity: sev,
        file,
        line: l.line as nat,
        column: Some(l.column as nat),
        end_line: None,
        message: "Prefer `.collect::<Vec<_>>()` turbofish over typed let-binding"@,
        explanation: "Project convention: use turbofish syntax for collect() to keep the type near the call site."@,
        suggestion: Some("Rewrite as `.collect::<Vec<_>>()`"@),
    }
}

/// The SEM002 diagnostics of a file's bindings, in order.
pub open spec fn sem002_found(ls: Seq<LocalSite>, file: Seq<char>, sev: Severity) -> Seq<DiagnosticModel>
    decreases ls.len(),
{
    if ls.len() == 0 {
        seq![]
    } else {
        let rest = sem002_found(ls.drop_last(), file, sev);
        if collects_into_typed_vec(ls.last()) {
            rest.push(sem002_model(file, sev, ls.last()))
        } else {
            rest
        }
    }
}

impl PreferCollectTurbofish {
    /// Reports typed `Vec` bindings filled by `.collect()`; `locals` are the
    /// file's `let` bindings in the syntax tree's order (`None` when it did
    /// not parse).
    pub fn check(&self, ctx: &FileContext, config: &Config, locals: Option<Vec<LocalSite>>) -> (r: Option<Vec<Diagnostic>>)
        ensures
            (!ctx.is_rust || locals is None) ==> r is None,
            (ctx.is_rust && locals is Some) ==> report_of(
                sem002_found(
                    locals->0@,
                    ctx.path@,
                    config.spec_rule_severity("SEM002"@, Severity::Advisory),
                ),
                r,
            ),
    {
        if !ctx.is_rust {
            return None;
        }
        let ls = match locals {
            Some(l) => l,
            None => return None,
        };
        let severity = config.rule_severity(self.id(), Severity::Advisory);
        let mut diagnostics: Vec<Diagnostic> = Vec::new();
        let mut i: usize = 0;
        assert(ls@.take(0) =~= Seq::<LocalSite>::empty());
        while i < ls.len()
            invariant
                i <= ls@.len(),
                models(diagnostics@) == sem002_found(ls@.take(i as int), ctx.path@, severity),
            decreases ls.len() - i,
        {
            let l = &ls[i];
            assert(ls@.take(i + 1).drop_last() =~= ls@.take(i as int));
            assert(ls@.take(i + 1).last() == *l);
            let hit = l.typed_vec && match &l.init_method {
                Some(m) => equals_str(&chars_of(m.as_str()), "collect") && !l.turbofish,
                None => false,
            };
            if hit {
                let ghost before = models(diagnostics@);
                diagnostics.push(
                    make_diagnostic(
                        self.id(),
                        self.name(),
                        RuleCategory::Semantic,
                        severity,
                        &ctx.path,
                        l.line,
                        Some(l.column),
                        None,
                        "Prefer `.collect::<Vec<_>>()` turbofish over typed let-binding".to_owned(),
                        "Project convention: use turbofish syntax for collect() to keep the type near the call site.",
                        Some("Rewrite as `.collect::<Vec<_>>()`".to_owned()),
                    ),
                );
                assert(models(diagnostics@) =~= before.push(sem002_model(ctx.path@, severity, *l)));
            }
            i += 1;
        }
        assert(ls@.take(ls@.len() as int) =~= ls@);
        into_report(diagnostics)
    }
}

// ---------------------------------------------------------------------------
// SEM003: `for x in &collection` over `.iter()`
// ---------------------------------------------------------------------------

/// A `for` loop: its 1-based line and column; the method its iterated
/// expression calls, if it is a method call, and whether that call's
/// receiver is a plain path.
pub struct ForSite {
    pub line: usize,
    pub column: usize,
    pub iter_method: Option<String>,
    pub receiver_is_path: bool,
}

/// A loop over `path.iter()`.
pub open spec fn iterates_path_iter(f: ForSite) -> bool {
    match f.iter_method {
        Some(m) => m@ == "iter"@ && f.receiver_is_path,
        None => false,
    }
}

/// The SEM003 diagnostic for a loop.
pub open spec fn sem003_model(file: Seq<char>, sev: Severity, f: ForSite) -> DiagnosticModel {
    DiagnosticModel {
        rule_id: "SEM003"@,
        rule_name: "prefer-ref-iteration"@,
        category: RuleCategory::Semantic,
        severity: sev,
        file,
        line: f.line as nat,
        column: Some(f.column as nat),
        end_line: None,
        message: "Prefer `for x in &collection` over `for x in collection.iter()`"@,
        explanation: "Project convention: use reference iteration syntax for clarity."@,
        suggestion: Some("Replace `.iter()` with `&` prefix on the collection"@),
    }
}

/// The SEM003 diagnostics of a file's loops, in order.
pub open spec fn sem003_found(fs: Seq<ForSite>, file: Seq<char>, sev: Severity) -> Seq<DiagnosticModel>
    decreases fs.len(),
{
    if fs.len() == 0 {
        seq![]
    } else {
        let rest = sem003_found(fs.drop_last(), file, sev);
        if iterates_path_iter(fs.last()) {
            rest.push(sem003_model(file, sev, fs.last()))
        } else {
            rest
        }
    }
}

impl PreferRefIteration {
    /// Reports `for` loops over `collection.iter()` outside test paths;
    /// `loops` are the file's `for` loops in the syntax tree's order (`None`
    /// when it did not parse).
    pub fn check(&self, ctx: &FileContext, config: &Config, loops: Option<Vec<ForSite>>) -> (r: Option<Vec<Diagnostic>>)
        ensures
            (!ctx.is_rust || spec_is_pure_test_path(ctx.path@) || loops is None) ==> r is None,
            (ctx.is_rust && !spec_is_pure_test_path(ctx.path@) && loops is Some) ==> report_of(
                sem003_found(
                    loops->0@,
                    ctx.path@,
                    config.spec_rule_severity("SEM003"@, Severity::Advisory),
                ),
                r,
            ),
    {
        if !ctx.is_rust {
            return None;
        }
        if is_pure_test_path(ctx.path.as_str()) {
            return None;
        }
        let fs = match loops {
            Some(f) => f,
            None => return None,
        };
        let severity = config.rule_severity(self.id(), Severity::Advisory);
        let mut diagnostics: Vec<Diagnostic> = Vec::new();
        let mut i: usize = 0;
        assert(fs@.take(0) =~= Seq::<ForSite>::empty());
        while i < fs.len()
            invariant
                i <= fs@.len(),
                models(diagnostics@) == sem003_found(fs@.take(i as int), ctx.path@, severity),
            decreases fs.len() - i,
        {
            let f = &fs[i];
            assert(fs@.take(i + 1).drop_last() =~= fs@.take(i as int));
            assert(fs@.take(i + 1).last() == *f);
            let hit = match &f.iter_method {
                Some(m) => equals_str(&chars_of(m.as_str()), "iter") && f.receiver_is_path,
                None => false,
            };
            if hit {
                let ghost before = models(diagnostics@);
                diagnostics.push(
                    make_diagnostic(
                        self.id(),
                        self.name(),
                        RuleCategory::Semantic,
                        severity,
                        &ctx.path,
                        f.line,
                        Some(f.column),
                        None,
                        "Prefer `for x in &collection` over `for x in collection.iter()`".to_owned(),
                        "Project convention: use reference iteration syntax for clarity.",
                        Some("Replace `.iter()` with `&` prefix on the collection".to_owned()),
                    ),
                );
                assert(models(diagnostics@) =~= before.push(sem003_model(ctx.path@, severity, *f)));
            }
            i += 1;
        }
        assert(fs@.take(fs@.len() as int) =~= fs@);
        into_report(diagnostics)
    }
}

// ---------------------------------------------------------------------------
// SEM004: no wildcard imports in production code
// ---------------------------------------------------------------------------

/// The tree of a `use` item.
pub enum UseTreeModel {
    /// `*`
    Glob,
    /// `{a, b, ..}`
    Group(Vec<UseTreeModel>),
    /// `name`
    Name,
    /// `name as other`
    Rename,
    /// `segment::rest`
    Path(String, Box<UseTreeModel>),
}

/// The tree has a `*` that no `super` or `..prelude..` segment above it
/// allows (`allow` says one already does).
pub open spec fn has_disallowed_glob(t: UseTreeModel, allow: bool) -> bool
    decreases t,
{
    match t {
        UseTreeModel::Glob => !allow,
        UseTreeModel::Group(items) => exists|i: int|
            0 <= i < items@.len() && has_disallowed_glob(#[trigger] items@[i], allow),
        UseTreeModel::Name => false,
        UseTreeModel::Rename => false,
        UseTreeModel::Path(ident, sub) => has_disallowed_glob(
            *sub,
            allow || ident@ == "super"@ || contains(ident@, "prelude"@),
        ),
    }
}

/// The items of a group lie strictly inside it.
pub proof fn lemma_group_smaller(t: UseTreeModel, i: int)
    requires
        t is Group,
        0 <= i < t->Group_0@.len(),
    ensures
        decreases_to!(t => t->Group_0@[i]),
{
    match t {
        UseTreeModel::Group(items) => {
            assert(decreases_to!(t => items));
            assert(decreases_to!(items => items@));
            assert(decreases_to!(items@ => items@[i]));
        },
        _ => {},
    }
}

/// Whether the tree has a `*` that nothing above it allows.
pub fn has_disallowed_glob_exec(t: &UseTreeModel, allow: bool) -> (r: bool)
    ensures
        r == has_disallowed_glob(*t, allow),
    decreases *t,
{
    match t {
        UseTreeModel::Glob => !allow,
        UseTreeModel::Group(items) => {
            let mut i: usize = 0;
            while i < items.len()
                invariant
                    i <= items@.len(),
                    *t == UseTreeModel::Group(*items),
                    forall|j: int| 0 <= j < i ==> !has_disallowed_glob(#[trigger] items@[j], allow),
                decreases items.len() - i,
            {
                proof {
                    lemma_group_smaller(*t, i as int);
                }
                if has_disallowed_glob_exec(&items[i], allow) {
                    return true;
                }
                i += 1;
            }
            false
        },
        UseTreeModel::Name => false,
        UseTreeModel::Rename => false,
        UseTreeModel::Path(ident, sub) => {
            let id = chars_of(ident.as_str());
            let nested = allow || equals_str(&id, "super") || contains_str(&id, "prelude");
            has_disallowed_glob_exec(sub, nested)
        },
    }
}

/// A `use` item: its 1-based line and column, how many blocks enclose it,
/// whether it has a visibility, its tree, and its tokens as written back.
pub struct UseItemSite {
    pub line: usize,
    pub column: usize,
    pub block_depth: usize,
    pub is_pub: bool,
    pub tree: UseTreeModel,
    pub text: String,
}

/// A private module-level `use` with a wildcard, outside non-production
/// code.
pub open spec fn is_wildcard_import(u: UseItemSite, mask: Seq<bool>) -> bool {
    u.block_depth == 0 && !u.is_pub && !masked_line(mask, u.line as nat) && has_disallowed_glob(
        u.tree,
        false,
    )
}

/// The SEM004 diagnostic for a `use` item.
pub open spec fn sem004_model(file: Seq<char>, sev: Severity, u: UseItemSite) -> DiagnosticModel {
    DiagnosticModel {
        rule_id: "SEM004"@,
        rule_name: "no-wildcard-imports"@,
        category: RuleCategory::Semantic,
        severity: sev,
        file,
        line: u.line as nat,
        column: Some(u.column as nat),
        end_line: None,
        message: "Wildcard import in non-test code: `"@ + u.text@ + "`"@,
        explanation: "Project convention: import items explicitly in main code. Wildcard imports are only permitted in tests."@,
        suggestion: Some("Replace with explicit imports"@),
    }
}

/// The SEM004 diagnostics of a file's `use` items, in order.
pub open spec fn sem004_found(us: Seq<UseItemSite>, mask: Seq<bool>, file: Seq<char>, sev: Severity) -> Seq<DiagnosticModel>
    decreases us.len(),
{
    if us.len() == 0 {
        seq![]
    } else {
        let rest = sem004_found(us.drop_last(), mask, file, sev);
        if is_wildcard_import(us.last(), mask) {
            rest.push(sem004_model(file, sev, us.last()))
        } else {
            rest
        }
    }
}

/// The file's name is `extension.rs`.
pub open spec fn is_extension_file(path: Seq<char>) -> bool {
    std_path_file_name(path) == Some("extension.rs"@)
}

impl NoWildcardImports {
    /// Reports private module-level wildcard imports in production code;
    /// `uses` are the file's `use` items in the syntax tree's order (`None`
    /// when it did not parse).
    pub fn check(&self, ctx: &FileContext, config: &Config, uses: Option<Vec<UseItemSite>>) -> (r: Option<Vec<Diagnostic>>)
        requires
            ctx.content@.len() <= isize::MAX,
        ensures
            (!ctx.is_rust || ctx.is_test_file || ctx.is_benchmark_file || is_extension_file(ctx.path@)
                || uses is None) ==> r is None,
            (ctx.is_rust && !ctx.is_test_file && !ctx.is_benchmark_file && !is_extension_file(
                ctx.path@,
            ) && uses is Some) ==> report_of(
                sem004_found(
                    uses->0@,
                    spec_cfg_test_module_mask(lines_of(ctx.content@)),
                    ctx.path@,
                    config.spec_rule_severity("SEM004"@, Severity::Warning),
                ),
                r,
            ),
    {
        if !ctx.is_rust {
            return None;
        }
        if ctx.is_test_file || ctx.is_benchmark_file {
            return None;
        }
        let is_extension = match path_file_name(ctx.path.as_str()) {
            Some(n) => equals_str(&chars_of(n.as_str()), "extension.rs"),
            None => false,
        };
        if is_extension {
            return None;
        }
        let mask = file_mask(ctx);
        let us = match uses {
            Some(u) => u,
            None => return None,
        };
        let severity = config.rule_severity(self.id(), Severity::Warning);
        let mut diagnostics: Vec<Diagnostic> = Vec::new();
        let mut i: usize = 0;
        assert(us@.take(0) =~= Seq::<UseItemSite>::empty());
        while i < us.len()
            invariant
                i <= us@.len(),
                models(diagnostics@) == sem004_found(us@.take(i as int), mask@, ctx.path@, severity),
            decreases us.len() - i,
        {
            let u = &us[i];
            assert(us@.take(i + 1).drop_last() =~= us@.take(i as int));
            assert(us@.take(i + 1).last() == *u);
            if u.block_depth == 0 && !u.is_pub && !masked_line_exec(&mask, u.line)
                && has_disallowed_glob_exec(&u.tree, false) {
                let ghost before = models(diagnostics@);
                let message = "Wildcard import in non-test code: `".to_owned().concat(
                    u.text.as_str(),
                ).concat("`");
                diagnostics.push(
                    make_diagnostic(
                        self.id(),
                        self.name(),
                        RuleCategory::Semantic,
                        severity,
                        &ctx.path,
                        u.line,
                        Some(u.column),
                        None,
                        message,
                        "Project convention: import items explicitly in main code. Wildcard imports are only permitted in tests.",
                        Some("Replace with explicit imports".to_owned()),
                    ),
                );
                assert(models(diagnostics@) =~= before.push(sem004_model(ctx.path@, severity, *u)));
            }
            i += 1;
        }
        assert(us@.take(us@.len() as int) =~= us@);
        into_report(diagnostics)
    }
}

// ---------------------------------------------------------------------------
// SEM005: parameterised weight functions
// ---------------------------------------------------------------------------

/// `WeightInfo::f().saturating_mul(..)`: a weight function called without a
/// parameter, then multiplied.
pub open spec fn is_unparameterised_weight_mul(m: MethodCallSite) -> bool {
    m.method@ == "saturating_mul"@ && match m.receiver_call {
        Some(rc) => rc.1 == 0 && has_segment(rc.0@, "WeightInfo"@),
        None => false,
    }
}

/// What SEM005 meets in the syntax tree, in order: the attributes of
/// functions, and method calls.
pub enum WeightSite {
    Attr(AttrSite),
    Call(MethodCallSite),
}

/// A `#[pallet::weight(..)]` whose expression holds such a multiplication.
pub open spec fn weight_attr_multiplies(a: AttrSite) -> bool {
    segs(a.path@) == seq!["pallet"@, "weight"@] && match a.arg_method_calls {
        Some(cs) => exists|k: int| 0 <= k < cs@.len() && is_unparameterised_weight_mul(#[trigger] cs@[k]),
        None => false,
    }
}

/// The SEM005 diagnostic at a line and column.
pub open spec fn sem005_model(file: Seq<char>, sev: Severity, line: usize, column: usize) -> DiagnosticModel {
    DiagnosticModel {
        rule_id: "SEM005"@,
        rule_name: "parameterise-weight-functions"@,
        category: RuleCategory::Semantic,
        severity: sev,
        file,
        line: line as nat,
        column: Some(column as nat),
        end_line: None,
        message: "Weight function called without parameter then multiplied"@,
        explanation: "Use parameterised benchmarks: `T::WeightInfo::foo(n)` captures constant overhead that does not scale with the input, unlike `T::WeightInfo::foo().saturating_mul(n)` which misses it."@,
        suggestion: Some("Pass the scaling parameter directly: `T::WeightInfo::foo(n)`"@),
    }
}

/// The SEM005 diagnostic of one site, if it has one.
pub open spec fn sem005_site(file: Seq<char>, sev: Severity, w: WeightSite) -> Seq<DiagnosticModel> {
    match w {
        WeightSite::Attr(a) => if weight_attr_multiplies(a) {
            seq![sem005_model(file, sev, a.line, a.column)]
        } else {
            seq![]
        },
        WeightSite::Call(m) => if is_unparameterised_weight_mul(m) {
            seq![sem005_model(file, sev, m.line, m.column)]
        } else {
            seq![]
        },
    }
}

/// The SEM005 diagnostics of a file's sites, in order.
pub open spec fn sem005_found(ws: Seq<WeightSite>, file: Seq<char>, sev: Severity) -> Seq<DiagnosticModel>
    decreases ws.len(),
{
    if ws.len() == 0 {
        seq![]
    } else {
        sem005_found(ws.drop_last(), file, sev) + sem005_site(file, sev, ws.last())
    }
}

/// Whether a method call multiplies an unparameterised weight function.
fn is_unparameterised_weight_mul_exec(m: &MethodCallSite) -> (r: bool)
    ensures
        r == is_unparameterised_weight_mul(*m),
{
    equals_str(&chars_of(m.method.as_str()), "saturating_mul") && match &m.receiver_call {
        Some(rc) => rc.1 == 0 && has_segment_exec(&rc.0, "WeightInfo"),
        None => false,
    }
}

/// Whether a weight attribute's expression holds such a multiplication.
fn weight_attr_multiplies_exec(a: &AttrSite) -> (r: bool)
    ensures
        r == weight_attr_multiplies(*a),
{
    if !path_is_exec(&a.path, "pallet", Some("weight")) {
        return false;
    }
    match &a.arg_method_calls {
        Some(cs) => {
            let mut k: usize = 0;
            while k < cs.len()
                invariant
                    k <= cs@.len(),
                    segs(a.path@) == seq!["pallet"@, "weight"@],
                    a.arg_method_calls == Some(*cs),
                    forall|j: int| 0 <= j < k ==> !is_unparameterised_weight_mul(#[trigger] cs@[j]),
                decreases cs.len() - k,
            {
                if is_unparameterised_weight_mul_exec(&cs[k]) {
                    assert(is_unparameterised_weight_mul(cs@[k as int]));
                    assert(is_unparameterised_weight_mul(a.arg_method_calls->0@[k as int]));
                    return true;
                }
                k += 1;
            }
            false
        },
        None => false,
    }
}

impl ParameteriseWeightFunctions {
    /// Reports weight functions called without a parameter and then
    /// multiplied, in `#[pallet::weight]` attributes and in code; `sites` are
    /// the attributes of functions and the method calls, in the syntax
    /// tree's order (`None` when it did not parse).
    pub fn check(&self, ctx: &FileContext, config: &Config, sites: Option<Vec<WeightSite>>) -> (r: Option<Vec<Diagnostic>>)
        ensures
            (!ctx.is_rust || sites is None) ==> r is None,
            (ctx.is_rust && sites is Some) ==> report_of(
                sem005_found(
                    sites->0@,
                    ctx.path@,
                    config.spec_rule_severity("SEM005"@, Severity::Warning),
                ),
                r,
            ),
    {
        if !ctx.is_rust {
            return None;
        }
        let ws = match sites {
            Some(w) => w,
            None => return None,
        };
        let severity = config.rule_severity(self.id(), Severity::Warning);
        let mut diagnostics: Vec<Diagnostic> = Vec::new();
        let mut i: usize = 0;
        assert(ws@.take(0) =~= Seq::<WeightSite>::empty());
        while i < ws.len()
            invariant
                i <= ws@.len(),
                models(diagnostics@) == sem005_found(ws@.take(i as int), ctx.path@, severity),
            decreases ws.len() - i,
        {
            let w = &ws[i];
            assert(ws@.take(i + 1).drop_last() =~= ws@.take(i as int));
            assert(ws@.take(i + 1).last() == *w);
            let ghost before = models(diagnostics@);
            let place: Option<(usize, usize)> = match w {
                WeightSite::Attr(a) => if weight_attr_multiplies_exec(a) {
                    Some((a.line, a.column))
                } else {
                    None
                },
                WeightSite::Call(m) => if is_unparameterised_weight_mul_exec(m) {
                    Some((m.line, m.column))
                } else {
                    None
                },
            };
            match place {
                Some((line, column)) => {
                    diagnostics.push(
                        make_diagnostic(
                            self.id(),
                            self.name(),
                            RuleCategory::Semantic,
                            severity,
                            &ctx.path,
                            line,
                            Some(column),
                            None,
                            "Weight function called without parameter then multiplied".to_owned(),
                            "Use parameterised benchmarks: `T::WeightInfo::foo(n)` captures constant overhead that does not scale with the input, unlike `T::WeightInfo::foo().saturating_mul(n)` which misses it.",
                            Some("Pass the scaling parameter directly: `T::WeightInfo::foo(n)`".to_owned()),
                        ),
                    );
                    assert(models(diagnostics@) =~= before + sem005_site(ctx.path@, severity, *w));
                },
                None => {
                    assert(models(diagnostics@) =~= before + sem005_site(ctx.path@, severity, *w));
                },
            }
            i += 1;
        }
        assert(ws@.take(ws@.len() as int) =~= ws@);
        into_report(diagnostics)
    }
}

// ---------------------------------------------------------------------------
// SEM007: `RuntimeDebug` is deprecated
// ---------------------------------------------------------------------------

/// The SEM007 diagnostic for a derived path, with its replacement.
pub open spec fn sem007_model(file: Seq<char>, sev: Severity, p: PathSite, replacement: Seq<char>) -> DiagnosticModel {
    DiagnosticModel {
        rule_id: "SEM007"@,
        rule_name: "runtime-debug-deprecated"@,
        category: RuleCategory::Semantic,
        severity: sev,
        file,
        line: p.line as nat,
        column: Some(p.column as nat),
        end_line: None,
        message: "`RuntimeDebug` is deprecated — use `"@ + replacement + "` instead"@,
        explanation: "polkadot-sdk moved away from `RuntimeDebug` because the space savings in wasm are negligible and it strips debug info, making debugging much harder."@,
        suggestion: Some("Replace with `"@ + replacement + "`"@),
    }
}

/// The SEM007 diagnostics of the derived paths from index `i` on.
pub open spec fn sem007_paths(ps: Seq<PathSite>, file: Seq<char>, sev: Severity) -> Seq<DiagnosticModel>
    decreases ps.len(),
{
    if ps.len() == 0 {
        seq![]
    } else {
        let rest = sem007_paths(ps.drop_last(), file, sev);
        let p = ps.last();
        if last_is(p.segments@, "RuntimeDebug"@) {
            rest.push(sem007_model(file, sev, p, "Debug"@))
        } else if last_is(p.segments@, "RuntimeDebugNoBound"@) {
            rest.push(sem007_model(file, sev, p, "DebugNoBound"@))
        } else {
            rest
        }
    }
}

/// The SEM007 diagnostics of one attribute: of a `derive`'s paths.
pub open spec fn sem007_attr(a: AttrSite, file: Seq<char>, sev: Severity) -> Seq<DiagnosticModel> {
    if last_is(a.path@, "derive"@) {
        match a.arg_paths {
            Some(ps) => sem007_paths(ps@, file, sev),
            None => seq![],
        }
    } else {
        seq![]
    }
}

/// The SEM007 diagnostics of the attributes of structs, enums and unions.
pub open spec fn sem007_found(attrs: Seq<AttrSite>, file: Seq<char>, sev: Severity) -> Seq<DiagnosticModel>
    decreases attrs.len(),
{
    if attrs.len() == 0 {
        seq![]
    } else {
        sem007_found(attrs.drop_last(), file, sev) + sem007_attr(attrs.last(), file, sev)
    }
}

impl RuntimeDebugDeprecated {
    /// Appends the SEM007 diagnostics of one attribute.
    fn check_attr(&self, ctx: &FileContext, severity: Severity, a: &AttrSite, diagnostics: &mut Vec<Diagnostic>)
        ensures
            models(final(diagnostics)@) == models(old(diagnostics)@) + sem007_attr(*a, ctx.path@, severity),
    {
        let ghost start = models(diagnostics@);
        if !last_is_exec(&a.path, "derive") {
            assert(models(diagnostics@) =~= start + sem007_attr(*a, ctx.path@, severity));
            return;
        }
        match &a.arg_paths {
            Some(ps) => {
                let mut k: usize = 0;
                assert(ps@.take(0) =~= Seq::<PathSite>::empty());
                assert(models(diagnostics@) =~= start + sem007_paths(ps@.take(0), ctx.path@, severity));
                while k < ps.len()
                    invariant
                        k <= ps@.len(),
                        models(diagnostics@) == start + sem007_paths(ps@.take(k as int), ctx.path@, severity),
                    decreases ps.len() - k,
                {
                    let p = &ps[k];
                    assert(ps@.take(k + 1).drop_last() =~= ps@.take(k as int));
                    assert(ps@.take(k + 1).last() == *p);
                    let replacement: Option<&str> = if last_is_exec(&p.segments, "RuntimeDebug") {
                        Some("Debug")
                    } else if last_is_exec(&p.segments, "RuntimeDebugNoBound") {
                        Some("DebugNoBound")
                    } else {
                        None
                    };
                    match replacement {
                        Some(rep) => {
                            let ghost before = models(diagnostics@);
                            let message = "`RuntimeDebug` is deprecated — use `".to_owned().concat(
                                rep,
                            ).concat("` instead");
                            let suggestion = "Replace with `".to_owned().concat(rep).concat("`");
                            diagnostics.push(
                                make_diagnostic(
                                    self.id(),
                                    self.name(),
                                    RuleCategory::Semantic,
                                    severity,
                                    &ctx.path,
                                    p.line,
                                    Some(p.column),
                                    None,
                                    message,
                                    "polkadot-sdk moved away from `RuntimeDebug` because the space savings in wasm are negligible and it strips debug info, making debugging much harder.",
                                    Some(suggestion),
                                ),
                            );
                            assert(models(diagnostics@) =~= before.push(
                                sem007_model(ctx.path@, severity, *p, rep@),
                            ));
                        },
                        None => {},
                    }
                    k += 1;
                }
                assert(ps@.take(ps@.len() as int) =~= ps@);
            },
            None => {
                assert(models(diagnostics@) =~= start + sem007_attr(*a, ctx.path@, severity));
            },
        }
    }

    /// Reports `RuntimeDebug` and `RuntimeDebugNoBound` in derives; `attrs`
    /// are the attributes of the file's structs, enums and unions in the
    /// syntax tree's order (`None` when it did not parse).
    pub fn check(&self, ctx: &FileContext, config: &Config, attrs: Option<Vec<AttrSite>>) -> (r: Option<Vec<Diagnostic>>)
        ensures
            (!ctx.is_rust || attrs is None) ==> r is None,
            (ctx.is_rust && attrs is Some) ==> report_of(
                sem007_found(
                    attrs->0@,
                    ctx.path@,
                    config.spec_rule_severity("SEM007"@, Severity::Warning),
                ),
                r,
            ),
    {
        if !ctx.is_rust {
            return None;
        }
        let attrs = match attrs {
            Some(a) => a,
            None => return None,
        };
        let severity = config.rule_severity(self.id(), Severity::Warning);
        let mut diagnostics: Vec<Diagnostic> = Vec::new();
        let mut i: usize = 0;
        assert(attrs@.take(0) =~= Seq::<AttrSite>::empty());
        while i < attrs.len()
            invariant
                i <= attrs@.len(),
                models(diagnostics@) == sem007_found(attrs@.take(i as int), ctx.path@, severity),
            decreases attrs.len() - i,
        {
            assert(attrs@.take(i + 1).drop_last() =~= attrs@.take(i as int));
            assert(attrs@.take(i + 1).last() == attrs@[i as int]);
            self.check_attr(ctx, severity, &attrs[i], &mut diagnostics);
            i += 1;
        }
        assert(attrs@.take(attrs@.len() as int) =~= attrs@);
        into_report(diagnostics)
    }
}

// ---------------------------------------------------------------------------
// SEM011: `Weight::zero()` in weight attributes
// ---------------------------------------------------------------------------

/// A `#[pallet::weight(..)]` or `#[pallet::weight_of_authorize(..)]` whose
/// argument is a call of `..Weight..::zero`.
pub open spec fn weight_attr_is_zero(a: AttrSite) -> bool {
    (segs(a.path@) == seq!["pallet"@, "weight"@] || segs(a.path@) == seq![
        "pallet"@,
        "weight_of_authorize"@,
    ]) && match a.arg_call {
        Some(p) => has_segment(p@, "Weight"@) && last_is(p@, "zero"@),
        None => false,
    }
}

/// The SEM011 diagnostic for an attribute.
pub open spec fn sem011_model(file: Seq<char>, sev: Severity, a: AttrSite) -> DiagnosticModel {
    DiagnosticModel {
        rule_id: "SEM011"@,
        rule_name: "weight-zero-placeholder"@,
        category: RuleCategory::Semantic,
        severity: sev,
        file,
        line: a.line as nat,
        column: Some(a.column as nat),
        end_line: None,
        message: "`Weight::zero()` placeholder in weight attribute"@,
        explanation: "`Weight::zero()` means the extrinsic is free, which is almost certainly wrong. Replace with an actual benchmarked weight function."@,
        suggestion: Some("Add a benchmark and use `T::WeightInfo::your_function()`"@),
    }
}

/// The SEM011 diagnostics of the attributes of functions, in order.
pub open spec fn sem011_found(attrs: Seq<AttrSite>, file: Seq<char>, sev: Severity) -> Seq<DiagnosticModel>
    decreases attrs.len(),
{
    if attrs.len() == 0 {
        seq![]
    } else {
        let rest = sem011_found(attrs.drop_last(), file, sev);
        if weight_attr_is_zero(attrs.last()) {
            rest.push(sem011_model(file, sev, attrs.last()))
        } else {
            rest
        }
    }
}

impl WeightZeroPlaceholder {
    /// Reports `Weight::zero()` in weight attributes outside tests; `attrs`
    /// are the attributes of the file's functions and impl functions in the
    /// syntax tree's order (`None` when it did not parse).
    pub fn check(&self, ctx: &FileContext, config: &Config, attrs: Option<Vec<AttrSite>>) -> (r: Option<Vec<Diagnostic>>)
        ensures
            (!ctx.is_rust || ctx.is_test_file || attrs is None) ==> r is None,
            (ctx.is_rust && !ctx.is_test_file && attrs is Some) ==> report_of(
                sem011_found(
                    attrs->0@,
                    ctx.path@,
                    config.spec_rule_severity("SEM011"@, Severity::Warning),
                ),
                r,
            ),
    {
        if !ctx.is_rust || ctx.is_test_file {
            return None;
        }
        let attrs = match attrs {
            Some(a) => a,
            None => return None,
        };
        let severity = config.rule_severity(self.id(), Severity::Warning);
        let mut diagnostics: Vec<Diagnostic> = Vec::new();
        let mut i: usize = 0;
        assert(attrs@.take(0) =~= Seq::<AttrSite>::empty());
        while i < attrs.len()
            invariant
                i <= attrs@.len(),
                models(diagnostics@) == sem011_found(attrs@.take(i as int), ctx.path@, severity),
            decreases attrs.len() - i,
        {
            let a = &attrs[i];
            assert(attrs@.take(i + 1).drop_last() =~= attrs@.take(i as int));
            assert(attrs@.take(i + 1).last() == *a);
            let hit = (path_is_exec(&a.path, "pallet", Some("weight")) || path_is_exec(
                &a.path,
                "pallet",
                Some("weight_of_authorize"),
            )) && match &a.arg_call {
                Some(p) => has_segment_exec(p, "Weight") && last_is_exec(p, "zero"),
                None => false,
            };
            if hit {
                let ghost before = models(diagnostics@);
                diagnostics.push(
                    make_diagnostic(
                        self.id(),
                        self.name(),
                        RuleCategory::Semantic,
                        severity,
                        &ctx.path,
                        a.line,
                        Some(a.column),
                        None,
                        "`Weight::zero()` placeholder in weight attribute".to_owned(),
                        "`Weight::zero()` means the extrinsic is free, which is almost certainly wrong. Replace with an actual benchmarked weight function.",
                        Some("Add a benchmark and use `T::WeightInfo::your_function()`".to_owned()),
                    ),
                );
                assert(models(diagnostics@) =~= before.push(sem011_model(ctx.path@, severity, *a)));
            }
            i += 1;
        }
        assert(attrs@.take(attrs@.len() as int) =~= attrs@);
        into_report(diagnostics)
    }
}

// ---------------------------------------------------------------------------
// SEM012: `#[allow(dead_code)]` in production code
// ---------------------------------------------------------------------------

/// An `allow` attribute that names `dead_code`, outside non-production
/// code.
pub open spec fn allows_dead_code(a: AttrSite, mask: Seq<bool>) -> bool {
    !masked_line(mask, a.line as nat) && last_is(a.path@, "allow"@) && contains(a.tokens@, "dead_code"@)
}

/// The SEM012 diagnostic for an attribute.
pub open spec fn sem012_model(file: Seq<char>, sev: Severity, a: AttrSite) -> DiagnosticModel {
    DiagnosticModel {
        rule_id: "SEM012"@,
        rule_name: "allow-dead-code-in-pallet"@,
        category: RuleCategory::Semantic,
        severity: sev,
        file,
        line: a.line as nat,
        column: Some(a.column as nat),
        end_line: None,
        message: "`#[allow(dead_code)]` in production code — remove the dead code instead"@,
        explanation: "Suppressing dead_code warnings hides unused functions, types, or fields that should be removed. Dead code adds maintenance burden and can mask real issues."@,
        suggestion: Some("Remove the dead code instead of suppressing the warning"@),
    }
}

/// The SEM012 diagnostics of the file's and its items' attributes, in order.
pub open spec fn sem012_found(attrs: Seq<AttrSite>, mask: Seq<bool>, file: Seq<char>, sev: Severity) -> Seq<DiagnosticModel>
    decreases attrs.len(),
{
    if attrs.len() == 0 {
        seq![]
    } else {
        let rest = sem012_found(attrs.drop_last(), mask, file, sev);
        if allows_dead_code(attrs.last(), mask) {
            rest.push(sem012_model(file, sev, attrs.last()))
        } else {
            rest
        }
    }
}

/// A generated weights file, which needs `allow(dead_code)`.
pub open spec fn is_weights_path(rel: Seq<char>) -> bool {
    contains(rel, "/weights/"@) || ends_with(rel, "weights.rs"@)
}

impl AllowDeadCodeInPallet {
    /// Reports `#[allow(dead_code)]` in production pallet code; `attrs` are
    /// the inner attributes of the file and the attributes of its items, in
    /// the syntax tree's order (`None` when it did not parse).
    pub fn check(&self, ctx: &FileContext, config: &Config, attrs: Option<Vec<AttrSite>>) -> (r: Option<Vec<Diagnostic>>)
        requires
            ctx.content@.len() <= isize::MAX,
        ensures
            (spec_should_skip_production_rule(ctx) || is_weights_path(ctx.rel_path@) || attrs is None)
                ==> r is None,
            (!spec_should_skip_production_rule(ctx) && !is_weights_path(ctx.rel_path@) && attrs is Some)
                ==> report_of(
                sem012_found(
                    attrs->0@,
                    spec_cfg_test_module_mask(lines_of(ctx.content@)),
                    ctx.path@,
                    config.spec_rule_severity("SEM012"@, Severity::Warning),
                ),
                r,
            ),
    {
        if should_skip_production_rule(ctx) {
            return None;
        }
        let rel = chars_of(ctx.rel_path.as_str());
        if contains_str(&rel, "/weights/") || ends_with_str(&rel, "weights.rs") {
            return None;
        }
        let mask = file_mask(ctx);
        let attrs = match attrs {
            Some(a) => a,
            None => return None,
        };
        let severity = config.rule_severity(self.id(), Severity::Warning);
        let mut diagnostics: Vec<Diagnostic> = Vec::new();
        let mut i: usize = 0;
        assert(attrs@.take(0) =~= Seq::<AttrSite>::empty());
        while i < attrs.len()
            invariant
                i <= attrs@.len(),
                models(diagnostics@) == sem012_found(attrs@.take(i as int), mask@, ctx.path@, severity),
            decreases attrs.len() - i,
        {
            let a = &attrs[i];
            assert(attrs@.take(i + 1).drop_last() =~= attrs@.take(i as int));
            assert(attrs@.take(i + 1).last() == *a);
            if !masked_line_exec(&mask, a.line) && last_is_exec(&a.path, "allow") && contains_str(
                &chars_of(a.tokens.as_str()),
                "dead_code",
            ) {
                let ghost before = models(diagnostics@);
                diagnostics.push(
                    make_diagnostic(
                        self.id(),
                        self.name(),
                        RuleCategory::Semantic,
                        severity,
                        &ctx.path,
                        a.line,
                        Some(a.column),
                        None,
                        "`#[allow(dead_code)]` in production code — remove the dead code instead".to_owned(),
                        "Suppressing dead_code warnings hides unused functions, types, or fields that should be removed. Dead code adds maintenance burden and can mask real issues.",
                        Some("Remove the dead code instead of suppressing the warning".to_owned()),
                    ),
                );
                assert(models(diagnostics@) =~= before.push(sem012_model(ctx.path@, severity, *a)));
            }
            i += 1;
        }
        assert(attrs@.take(attrs@.len() as int) =~= attrs@);
        into_report(diagnostics)
    }
}

// ---------------------------------------------------------------------------
// SEM013: custom invalidity enums need `#[repr(u8)]`
// ---------------------------------------------------------------------------

/// An enum: its name, its 1-based line and column, and its attributes.
pub struct EnumSite {
    pub name: String,
    pub line: usize,
    pub column: usize,
    pub attrs: Vec<AttrSite>,
}

/// An enum named like a custom transaction invalidity.
pub open spec fn is_custom_invalidity_enum(name: Seq<char>) -> bool {
    name == "CustomInvalidity"@ || name == "CustomValidity"@ || contains(name, "Invalidity"@)
}

/// One of the attributes is `#[repr(..)]` with `repr(u8)` in its tokens
/// (whitespace removed).
pub open spec fn has_repr_u8(attrs: Seq<AttrSite>) -> bool {
    exists|k: int|
        0 <= k < attrs.len() && segs(#[trigger] attrs[k].path@) == seq!["repr"@] && contains(
            strip_ws(attrs[k].tokens@),
            "repr(u8)"@,
        )
}

/// A custom invalidity enum without `#[repr(u8)]`, outside non-production
/// code.
pub open spec fn lacks_repr_u8(e: EnumSite, mask: Seq<bool>) -> bool {
    !masked_line(mask, e.line as nat) && is_custom_invalidity_enum(e.name@) && !has_repr_u8(e.attrs@)
}

/// The SEM013 diagnostic for an enum.
pub open spec fn sem013_model(file: Seq<char>, sev: Severity, e: EnumSite) -> DiagnosticModel {
    DiagnosticModel {
        rule_id: "SEM013"@,
        rule_name: "custom-invalidity-repr-u8"@,
        category: RuleCategory::Semantic,
        severity: sev,
        file,
        line: e.line as nat,
        column: Some(e.column as nat),
        end_line: None,
        message: "`"@ + e.name@
            + "` should declare `#[repr(u8)]` before converting to `InvalidTransaction::Custom`"@,
        explanation: "Custom invalidity enums are often converted into `InvalidTransaction::Custom(e as u8)`. Without `#[repr(u8)]`, the discriminant layout is implicit, which makes downstream debugging and compatibility reasoning harder."@,
        suggestion: Some("Add `#[repr(u8)]` above the enum declaration"@),
    }
}

/// The SEM013 diagnostics of the file's enums, in order.
pub open spec fn sem013_found(es: Seq<EnumSite>, mask: Seq<bool>, file: Seq<char>, sev: Severity) -> Seq<DiagnosticModel>
    decreases es.len(),
{
    if es.len() == 0 {
        seq![]
    } else {
        let rest = sem013_found(es.drop_last(), mask, file, sev);
        if lacks_repr_u8(es.last(), mask) {
            rest.push(sem013_model(file, sev, es.last()))
        } else {
            rest
        }
    }
}

/// No attribute of the list is a `#[repr(..)]`.
pub open spec fn has_no_repr(attrs: Seq<AttrSite>) -> bool {
    forall|k: int| 0 <= k < attrs.len() ==> segs(#[trigger] attrs[k].path@) != seq!["repr"@]
}

/// Every enum outside non-production code whose name contains
/// `Invalidity`, or is `CustomValidity`, and that carries no `#[repr(..)]`
/// is reported; and every finding is such an enum's, or one of those names
/// whose `#[repr(..)]` lacks `u8`.
pub proof fn law_sem013_reports_unrepresented_invalidity_enums(
    es: Seq<EnumSite>,
    mask: Seq<bool>,
    file: Seq<char>,
    sev: Severity,
)
    ensures
        forall|i: int|
            0 <= i < es.len() && !masked_line(mask, es[i].line as nat) && (contains(
                #[trigger] es[i].name@,
                "Invalidity"@,
            ) || es[i].name@ == "CustomValidity"@) && has_no_repr(es[i].attrs@) ==> sem013_found(
                es,
                mask,
                file,
                sev,
            ).contains(sem013_model(file, sev, es[i])),
        forall|k: int|
            0 <= k < sem013_found(es, mask, file, sev).len() ==> exists|i: int|
                0 <= i < es.len() && !masked_line(mask, es[i].line as nat) && (contains(
                    es[i].name@,
                    "Invalidity"@,
                ) || es[i].name@ == "CustomValidity"@) && #[trigger] sem013_found(es, mask, file, sev)[k]
                    == sem013_model(file, sev, es[i]),
    decreases es.len(),
{
    if es.len() > 0 {
        let init = es.drop_last();
        let rest = sem013_found(init, mask, file, sev);
        law_sem013_reports_unrepresented_invalidity_enums(init, mask, file, sev);
        let out = sem013_found(es, mask, file, sev);
        let e = es.last();
        assert(contains(e.name@, "Invalidity"@) || e.name@ == "CustomValidity"@ ==> is_custom_invalidity_enum(e.name@));
        assert(is_custom_invalidity_enum(e.name@) ==> contains(e.name@, "Invalidity"@) || e.name@ == "CustomValidity"@) by {
            if e.name@ == "CustomInvalidity"@ {
                reveal_strlit("CustomInvalidity");
                reveal_strlit("Invalidity");
                assert(e.name@.subrange(6, 16) =~= "Invalidity"@);
                assert(crate::text::occurs_at(e.name@, "Invalidity"@, 6));
            }
        }
        assert(has_no_repr(e.attrs@) ==> !has_repr_u8(e.attrs@));
        assert forall|i: int|
            0 <= i < es.len() && !masked_line(mask, es[i].line as nat) && (contains(
                #[trigger] es[i].name@,
                "Invalidity"@,
            ) || es[i].name@ == "CustomValidity"@) && has_no_repr(es[i].attrs@) implies out.contains(
            sem013_model(file, sev, es[i]),
        ) by {
            if i < es.len() - 1 {
                assert(init[i] == es[i]);
                assert(rest.contains(sem013_model(file, sev, es[i])));
                let k = choose|k: int| 0 <= k < rest.len() && rest[k] == sem013_model(file, sev, es[i]);
                assert(out[k] == rest[k]);
            } else {
                assert(out[out.len() - 1] == sem013_model(file, sev, e));
            }
        }
        assert forall|k: int| 0 <= k < out.len() implies exists|i: int|
            0 <= i < es.len() && !masked_line(mask, es[i].line as nat) && (contains(
                es[i].name@,
                "Invalidity"@,
            ) || es[i].name@ == "CustomValidity"@) && #[trigger] out[k] == sem013_model(file, sev, es[i]) by {
            if k < rest.len() {
                assert(out[k] == rest[k]);
                let i = choose|i: int|
                    0 <= i < init.len() && !masked_line(mask, init[i].line as nat) && (contains(
                        init[i].name@,
                        "Invalidity"@,
                    ) || init[i].name@ == "CustomValidity"@) && #[trigger] rest[k] == sem013_model(file, sev, init[i]);
                assert(es[i] == init[i]);
            } else {
                assert(es[es.len() - 1] == e);
            }
        }
    }
}

/// Whether one of the attributes is `#[repr(..)]` with `repr(u8)`.
fn has_repr_u8_exec(attrs: &Vec<AttrSite>) -> (r: bool)
    ensures
        r == has_repr_u8(attrs@),
{
    let mut k: usize = 0;
    while k < attrs.len()
        invariant
            k <= attrs@.len(),
            forall|j: int|
                0 <= j < k ==> !(segs(#[trigger] attrs@[j].path@) == seq!["repr"@] && contains(
                    strip_ws(attrs@[j].tokens@),
                    "repr(u8)"@,
                )),
        decreases attrs.len() - k,
    {
        let a = &attrs[k];
        if path_is_exec(&a.path, "repr", None) && contains_str(
            &strip_ws_exec(&chars_of(a.tokens.as_str())),
            "repr(u8)",
        ) {
            return true;
        }
        k += 1;
    }
    false
}

impl CustomInvalidityReprU8 {
    /// Reports custom invalidity enums without `#[repr(u8)]` in production
    /// code; `enums` are the file's enums in the syntax tree's order
    /// (`None` when it did not parse).
    pub fn check(&self, ctx: &FileContext, config: &Config, enums: Option<Vec<EnumSite>>) -> (r: Option<Vec<Diagnostic>>)
        requires
            ctx.content@.len() <= isize::MAX,
        ensures
            (spec_should_skip_production_rule(ctx) || enums is None) ==> r is None,
            (!spec_should_skip_production_rule(ctx) && enums is Some) ==> report_of(
                sem013_found(
                    enums->0@,
                    spec_cfg_test_module_mask(lines_of(ctx.content@)),
                    ctx.path@,
                    config.spec_rule_severity("SEM013"@, Severity::Warning),
                ),
                r,
            ),
    {
        if should_skip_production_rule(ctx) {
            return None;
        }
        let mask = file_mask(ctx);
        let es = match enums {
            Some(e) => e,
            None => return None,
        };
        let severity = config.rule_severity(self.id(), Severity::Warning);
        let mut diagnostics: Vec<Diagnostic> = Vec::new();
        let mut i: usize = 0;
        assert(es@.take(0) =~= Seq::<EnumSite>::empty());
        while i < es.len()
            invariant
                i <= es@.len(),
                models(diagnostics@) == sem013_found(es@.take(i as int), mask@, ctx.path@, severity),
            decreases es.len() - i,
        {
            let e = &es[i];
            assert(es@.take(i + 1).drop_last() =~= es@.take(i as int));
            assert(es@.take(i + 1).last() == *e);
            let name = chars_of(e.name.as_str());
            let custom = equals_str(&name, "CustomInvalidity") || equals_str(&name, "CustomValidity")
                || contains_str(&name, "Invalidity");
            if !masked_line_exec(&mask, e.line) && custom && !has_repr_u8_exec(&e.attrs) {
                let ghost before = models(diagnostics@);
                let message = "`".to_owned().concat(e.name.as_str()).concat(
                    "` should declare `#[repr(u8)]` before converting to `InvalidTransaction::Custom`",
                );
                diagnostics.push(
                    make_diagnostic(
                        self.id(),
                        self.name(),
                        RuleCategory::Semantic,
                        severity,
                        &ctx.path,
                        e.line,
                        Some(e.column),
                        None,
                        message,
                        "Custom invalidity enums are often converted into `InvalidTransaction::Custom(e as u8)`. Without `#[repr(u8)]`, the discriminant layout is implicit, which makes downstream debugging and compatibility reasoning harder.",
                        Some("Add `#[repr(u8)]` above the enum declaration".to_owned()),
                    ),
                );
                assert(models(diagnostics@) =~= before.push(sem013_model(ctx.path@, severity, *e)));
            }
            i += 1;
        }
        assert(es@.take(es@.len() as int) =~= es@);
        into_report(diagnostics)
    }
}

// ---------------------------------------------------------------------------
// SEM015: `#[pallet::authorize]` needs `#[pallet::weight_of_authorize]`
// ---------------------------------------------------------------------------

/// A function or impl function: its attributes, and the 1-based line of
/// its name.
pub struct FnAttrSites {
    pub attrs: Vec<AttrSite>,
    pub ident_line: usize,
}

/// The index of the first `#[pallet::authorize]` among the attributes from
/// index `i` on.
pub open spec fn first_authorize(attrs: Seq<AttrSite>, i: int) -> Option<int>
    decreases attrs.len() - i,
{
    if i < 0 || i >= attrs.len() {
        None
    } else if segs(attrs[i].path@) == seq!["pallet"@, "authorize"@] {
        Some(i)
    } else {
        first_authorize(attrs, i + 1)
    }
}

/// One of the attributes is `#[pallet::weight_of_authorize]`.
pub open spec fn has_weight_of_authorize(attrs: Seq<AttrSite>) -> bool {
    exists|k: int| 0 <= k < attrs.len() && segs(#[trigger] attrs[k].path@) == seq![
        "pallet"@,
        "weight_of_authorize"@,
    ]
}

/// The SEM015 diagnostic for a function whose authorize attribute is `a`.
pub open spec fn sem015_model(file: Seq<char>, sev: Severity, a: AttrSite, ident_line: usize) -> DiagnosticModel {
    DiagnosticModel {
        rule_id: "SEM015"@,
        rule_name: "missing-weight-of-authorize"@,
        category: RuleCategory::Semantic,
        severity: sev,
        file,
        line: a.line as nat,
        column: Some(a.column as nat),
        end_line: Some(ident_line as nat),
        message: "`#[pallet::authorize]` is missing a companion `#[pallet::weight_of_authorize(...)]` attribute"@,
        explanation: "Authorized calls benchmark validation separately from execution. Without `#[pallet::weight_of_authorize(...)]`, the authorize path has no dedicated weight hook and can silently drift from the real validation cost."@,
        suggestion: Some("Add `#[pallet::weight_of_authorize(T::WeightInfo::authorize_your_call())]` near the call attributes"@),
    }
}

/// The SEM015 diagnostic of one function, if it has one: its first
/// authorize attribute, outside non-production code, with no
/// `weight_of_authorize` beside it.
pub open spec fn sem015_fn(f: FnAttrSites, mask: Seq<bool>, file: Seq<char>, sev: Severity) -> Seq<DiagnosticModel> {
    match first_authorize(f.attrs@, 0) {
        None => seq![],
        Some(k) => if masked_line(mask, f.attrs@[k].line as nat) || has_weight_of_authorize(f.attrs@) {
            seq![]
        } else {
            seq![sem015_model(file, sev, f.attrs@[k], f.ident_line)]
        },
    }
}

/// The SEM015 diagnostics of the file's functions, in order.
pub open spec fn sem015_found(fs: Seq<FnAttrSites>, mask: Seq<bool>, file: Seq<char>, sev: Severity) -> Seq<DiagnosticModel>
    decreases fs.len(),
{
    if fs.len() == 0 {
        seq![]
    } else {
        sem015_found(fs.drop_last(), mask, file, sev) + sem015_fn(fs.last(), mask, file, sev)
    }
}

/// The index of the first `#[pallet::authorize]`.
fn first_authorize_exec(attrs: &Vec<AttrSite>) -> (r: Option<usize>)
    ensures
        match r {
            Some(k) => k < attrs@.len() && first_authorize(attrs@, 0) == Some(k as int),
            None => first_authorize(attrs@, 0) is None,
        },
{
    let mut k: usize = 0;
    while k < attrs.len()
        invariant
            k <= attrs@.len(),
            first_authorize(attrs@, 0) == first_authorize(attrs@, k as int),
        decreases attrs.len() - k,
    {
        if path_is_exec(&attrs[k].path, "pallet", Some("authorize")) {
            return Some(k);
        }
        k += 1;
    }
    None
}

/// Whether one of the attributes is `#[pallet::weight_of_authorize]`.
fn has_weight_of_authorize_exec(attrs: &Vec<AttrSite>) -> (r: bool)
    ensures
        r == has_weight_of_authorize(attrs@),
{
    let mut k: usize = 0;
    while k < attrs.len()
        invariant
            k <= attrs@.len(),
            forall|j: int|
                0 <= j < k ==> segs(#[trigger] attrs@[j].path@) != seq!["pallet"@, "weight_of_authorize"@],
        decreases attrs.len() - k,
    {
        if path_is_exec(&attrs[k].path, "pallet", Some("weight_of_authorize")) {
            return true;
        }
        k += 1;
    }
    false
}

impl MissingWeightOfAuthorize {
    /// Reports `#[pallet::authorize]` without `#[pallet::weight_of_authorize]`
    /// in production code; `fns` are the file's functions and impl
    /// functions in the syntax tree's order (`None` when it did not parse).
    pub fn check(&self, ctx: &FileContext, config: &Config, fns: Option<Vec<FnAttrSites>>) -> (r: Option<Vec<Diagnostic>>)
        requires
            ctx.content@.len() <= isize::MAX,
        ensures
            (spec_should_skip_production_rule(ctx) || fns is None) ==> r is None,
            (!spec_should_skip_production_rule(ctx) && fns is Some) ==> report_of(
                sem015_found(
                    fns->0@,
                    spec_cfg_test_module_mask(lines_of(ctx.content@)),
                    ctx.path@,
                    config.spec_rule_severity("SEM015"@, Severity::Warning),
                ),
                r,
            ),
    {
        if should_skip_production_rule(ctx) {
            return None;
        }
        let mask = file_mask(ctx);
        let fs = match fns {
            Some(f) => f,
            None => return None,
        };
        let severity = config.rule_severity(self.id(), Severity::Warning);
        let mut diagnostics: Vec<Diagnostic> = Vec::new();
        let mut i: usize = 0;
        assert(fs@.take(0) =~= Seq::<FnAttrSites>::empty());
        while i < fs.len()
            invariant
                i <= fs@.len(),
                models(diagnostics@) == sem015_found(fs@.take(i as int), mask@, ctx.path@, severity),
            decreases fs.len() - i,
        {
            let f = &fs[i];
            assert(fs@.take(i + 1).drop_last() =~= fs@.take(i as int));
            assert(fs@.take(i + 1).last() == *f);
            let ghost before = models(diagnostics@);
            match first_authorize_exec(&f.attrs) {
                Some(k) => {
                    let a = &f.attrs[k];
                    if !masked_line_exec(&mask, a.line) && !has_weight_of_authorize_exec(&f.attrs) {
                        diagnostics.push(
                            make_diagnostic(
                                self.id(),
                                self.name(),
                                RuleCategory::Semantic,
                                severity,
                                &ctx.path,
                                a.line,
                                Some(a.column),
                                Some(f.ident_line),
                                "`#[pallet::authorize]` is missing a companion `#[pallet::weight_of_authorize(...)]` attribute".to_owned(),
                                "Authorized calls benchmark validation separately from execution. Without `#[pallet::weight_of_authorize(...)]`, the authorize path has no dedicated weight hook and can silently drift from the real validation cost.",
                                Some("Add `#[pallet::weight_of_authorize(T::WeightInfo::authorize_your_call())]` near the call attributes".to_owned()),
                            ),
                        );
                    }
                },
                None => {},
            }
            assert(models(diagnostics@) =~= before + sem015_fn(*f, mask@, ctx.path@, severity));
            i += 1;
        }
        assert(fs@.take(fs@.len() as int) =~= fs@);
        into_report(diagnostics)
    }
}

} // verus!
