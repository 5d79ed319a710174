//! SEC016: an `on_runtime_upgrade` that writes storage with no
//! `StorageVersion` check guarding it.
use vstd::prelude::*;
use crate::config::Config;
use crate::context::{rust_file_parses, walked_on, FileContext};
use crate::diagnostics::{
    into_report, make_diagnostic, models, report_of, Diagnostic, DiagnosticModel, RuleCategory,
    Severity,
};
use crate::rules::masks::{cfg_test_module_mask, spec_cfg_test_module_mask};
use crate::rules::paths::{
    is_frame_support_migration_infrastructure, spec_is_frame_support_migration_infrastructure,
};
use crate::rules::production_rules::{comment_of, comment_of_exec, sat_sub};
use crate::rules::semantic::{
    content_lines, should_skip_production_rule, spec_should_skip_production_rule,
    MissingStorageVersionCheckInRuntimeUpgrade,
};
use crate::rules::syntax_rules::{masked_line, masked_line_exec};
use crate::rules::LintRule;
use crate::text::{
    chars_of, contains, contains_str, equals_str, lines_of, lines_view, to_ascii_lowercase,
    to_ascii_lowercase_exec,
};

verus! {

/// A call in a function body whose callee is a path: the path's last
/// segment, its first argument's tokens without whitespace, and the two
/// sides of the innermost enclosing `if a != b` whose branch it is in.
pub struct BodyCall {
    pub name: String,
    pub first_arg: Option<String>,
    pub reconciling: Option<Vec<String>>,
}

/// A function of the file as SEC016 reads it.
pub struct UpgradeFnSite {
    pub name: String,
    /// The first line of the function item, attributes included.
    pub item_line: usize,
    /// The line and column of the function's name.
    pub line: usize,
    pub column: usize,
    /// The calls of its body, in order.
    pub calls: Vec<BodyCall>,
    /// The segments of every path in its body.
    pub path_segments: Vec<String>,
}

/// A storage-writing call.
pub open spec fn is_storage_write(name: Seq<char>) -> bool {
    name == "put"@ || name == "insert"@ || name == "mutate"@ || name == "remove"@ || name
        == "kill"@ || name == "set"@ || name == "append"@ || name == "take"@ || name
        == "clear_prefix"@
}

/// A `put` or `set` of one side of the `if a != b` it stands in: it only
/// brings the stored value in line with the current one.
pub open spec fn reconciles_current_value(c: BodyCall) -> bool {
    &&& (c.name@ == "put"@ || c.name@ == "set"@)
    &&& c.first_arg is Some
    &&& c.reconciling is Some
    &&& exists|k: int|
        0 <= k < c.reconciling->0@.len() && (#[trigger] c.reconciling->0@[k])@ == c.first_arg->0@
}

/// The body writes storage other than to reconcile a current value.
pub open spec fn has_unguarded_write(f: UpgradeFnSite) -> bool {
    exists|k: int|
        0 <= k < f.calls@.len() && is_storage_write((#[trigger] f.calls@[k]).name@)
            && !reconciles_current_value(f.calls@[k])
}

/// A path segment that reads or sets the storage version.
pub open spec fn is_version_segment(s: Seq<char>) -> bool {
    s == "StorageVersion"@ || s == "current_storage_version"@ || s == "on_chain_storage_version"@
}

/// The body names the storage version.
pub open spec fn checks_storage_version(f: UpgradeFnSite) -> bool {
    exists|k: int| 0 <= k < f.path_segments@.len() && is_version_segment((#[trigger] f.path_segments@[k])@)
}

/// A comment that calls the migration safe to repeat.
pub open spec fn marks_idempotent(comment: Seq<char>) -> bool {
    let lower = to_ascii_lowercase(comment);
    contains(lower, "idempotent"@) || contains(lower, "safe to run multiple times"@) || contains(
        lower,
        "no-op if"@,
    ) || contains(lower, "does not exist yet"@) || contains(lower, "if out of sync"@) || contains(
        lower,
        "only updates if"@,
    )
}

/// One of lines `lo` to `hi` (exclusive) has a comment that calls the
/// migration safe to repeat.
pub open spec fn idempotent_window(lines: Seq<Seq<char>>, lo: int, hi: int) -> bool {
    exists|k: int|
        lo <= k < hi && match comment_of(#[trigger] lines[k]) {
            Some(c) => marks_idempotent(c),
            None => false,
        }
}

/// An `on_runtime_upgrade` in production code whose body writes storage
/// without naming the storage version, with no comment in the eighteen
/// lines above its name that calls it safe to repeat.
pub open spec fn upgrade_flagged(f: UpgradeFnSite, lines: Seq<Seq<char>>, mask: Seq<bool>) -> bool {
    let cur = f.line - 1;
    &&& f.name@ == "on_runtime_upgrade"@
    &&& !masked_line(mask, f.item_line as nat)
    &&& has_unguarded_write(f)
    &&& !checks_storage_version(f)
    &&& !idempotent_window(lines, sat_sub(cur, 18), cur)
}

/// The SEC016 diagnostic of a function.
pub open spec fn sec016_model(file: Seq<char>, sev: Severity, f: UpgradeFnSite) -> DiagnosticModel {
    DiagnosticModel {
        rule_id: "SEC016"@,
        rule_name: "missing-storage-version-check-in-runtime-upgrade"@,
        category: RuleCategory::Semantic,
        severity: sev,
        file,
        line: f.line as nat,
        column: Some(f.column as nat),
        end_line: None,
        message: "`on_runtime_upgrade` writes storage without checking `StorageVersion`"@,
        explanation: "Runtime upgrades should guard storage migrations with a `StorageVersion` check so repeated execution does not corrupt or re-apply state transitions."@,
        suggestion: Some(
            "Gate the writes with an `on_chain_storage_version()` / `StorageVersion::get()` check"@,
        ),
    }
}

/// The SEC016 diagnostics of a file's functions, in order.
pub open spec fn sec016_found(
    fns: Seq<UpgradeFnSite>,
    lines: Seq<Seq<char>>,
    mask: Seq<bool>,
    file: Seq<char>,
    sev: Severity,
) -> Seq<DiagnosticModel>
    decreases fns.len(),
{
    if fns.len() == 0 {
        seq![]
    } else {
        let rest = sec016_found(fns.drop_last(), lines, mask, file, sev);
        if upgrade_flagged(fns.last(), lines, mask) {
            rest.push(sec016_model(file, sev, fns.last()))
        } else {
            rest
        }
    }
}

/// Whether a comment calls the migration safe to repeat.
fn marks_idempotent_exec(comment: &Vec<char>) -> (r: bool)
    ensures
        r == marks_idempotent(comment@),
{
    let lower = to_ascii_lowercase_exec(comment);
    contains_str(&lower, "idempotent") || contains_str(&lower, "safe to run multiple times")
        || contains_str(&lower, "no-op if") || contains_str(&lower, "does not exist yet")
        || contains_str(&lower, "if out of sync") || contains_str(&lower, "only updates if")
}

/// Whether one of lines `lo` to `hi` calls the migration safe to repeat.
fn idempotent_window_exec(lines: &Vec<Vec<char>>, lo: usize, hi: usize) -> (r: bool)
    requires
        hi <= lines@.len(),
    ensures
        r == idempotent_window(lines_view(lines@), lo as int, hi as int),
{
    let ghost lv = lines_view(lines@);
    let mut k: usize = lo;
    while k < hi
        invariant
            lo <= k,
            hi <= lines@.len(),
            lv == lines_view(lines@),
            forall|j: int|
                lo <= j < k ==> !match comment_of(#[trigger] lv[j]) {
                    Some(c) => marks_idempotent(c),
                    None => false,
                },
        decreases hi - k,
    {
        assert(lv[k as int] == lines@[k as int]@);
        match comment_of_exec(&lines[k]) {
            Some(c) => {
                if marks_idempotent_exec(&c) {
                    return true;
                }
            },
            None => {},
        }
        k += 1;
    }
    false
}

/// Whether a call is a storage write.
fn is_storage_write_exec(name: &String) -> (r: bool)
    ensures
        r == is_storage_write(name@),
{
    let n = chars_of(name.as_str());
    equals_str(&n, "put") || equals_str(&n, "insert") || equals_str(&n, "mutate") || equals_str(
        &n,
        "remove",
    ) || equals_str(&n, "kill") || equals_str(&n, "set") || equals_str(&n, "append") || equals_str(
        &n,
        "take",
    ) || equals_str(&n, "clear_prefix")
}

/// Whether a call only reconciles a current value.
fn reconciles_current_value_exec(c: &BodyCall) -> (r: bool)
    ensures
        r == reconciles_current_value(*c),
{
    let n = chars_of(c.name.as_str());
    if !(equals_str(&n, "put") || equals_str(&n, "set")) {
        return false;
    }
    match (&c.first_arg, &c.reconciling) {
        (Some(v), Some(values)) => {
            let mut k: usize = 0;
            while k < values.len()
                invariant
                    k <= values@.len(),
                    c.name@ == "put"@ || c.name@ == "set"@,
                    c.first_arg == Some(*v),
                    c.reconciling == Some(*values),
                    forall|j: int| 0 <= j < k ==> (#[trigger] values@[j])@ != v@,
                decreases values.len() - k,
            {
                if equals_str(&chars_of(values[k].as_str()), v.as_str()) {
                    assert(values@[k as int]@ == v@);
                    assert(c.reconciling->0@[k as int]@ == c.first_arg->0@);
                    return true;
                }
                k += 1;
            }
            false
        },
        _ => false,
    }
}

/// Whether the body writes storage other than to reconcile a current value.
fn has_unguarded_write_exec(f: &UpgradeFnSite) -> (r: bool)
    ensures
        r == has_unguarded_write(*f),
{
    let mut k: usize = 0;
    while k < f.calls.len()
        invariant
            k <= f.calls@.len(),
            forall|j: int|
                0 <= j < k ==> !(is_storage_write((#[trigger] f.calls@[j]).name@)
                    && !reconciles_current_value(f.calls@[j])),
        decreases f.calls.len() - k,
    {
        if is_storage_write_exec(&f.calls[k].name) && !reconciles_current_value_exec(&f.calls[k]) {
            return true;
        }
        k += 1;
    }
    false
}

/// Whether the body names the storage version.
fn checks_storage_version_exec(f: &UpgradeFnSite) -> (r: bool)
    ensures
        r == checks_storage_version(*f),
{
    let mut k: usize = 0;
    while k < f.path_segments.len()
        invariant
            k <= f.path_segments@.len(),
            forall|j: int| 0 <= j < k ==> !is_version_segment((#[trigger] f.path_segments@[j])@),
        decreases f.path_segments.len() - k,
    {
        let s = chars_of(f.path_segments[k].as_str());
        if equals_str(&s, "StorageVersion") || equals_str(&s, "current_storage_version")
            || equals_str(&s, "on_chain_storage_version") {
            return true;
        }
        k += 1;
    }
    false
}

/// Whether SEC016 reports a function.
fn upgrade_flagged_exec(f: &UpgradeFnSite, lines: &Vec<Vec<char>>, mask: &Vec<bool>) -> (r: bool)
    requires
        1 <= f.line <= lines@.len(),
    ensures
        r == upgrade_flagged(*f, lines_view(lines@), mask@),
{
    if !equals_str(&chars_of(f.name.as_str()), "on_runtime_upgrade") {
        return false;
    }
    if masked_line_exec(mask, f.item_line) {
        return false;
    }
    let cur: usize = f.line - 1;
    let lo: usize = if cur >= 18 {
        cur - 18
    } else {
        0
    };
    has_unguarded_write_exec(f) && !checks_storage_version_exec(f) && !idempotent_window_exec(
        lines,
        lo,
        cur,
    )
}

/// Every site's line is one of the `n` lines of the text.
pub open spec fn upgrade_fn_site_lines_within(sites: Seq<UpgradeFnSite>, n: int) -> bool {
    forall|k: int| 0 <= k < sites.len() ==> 1 <= #[trigger] sites[k].line <= n
}

fn upgrade_fn_site_lines_within_exec(sites: &Vec<UpgradeFnSite>, n: usize) -> (b: bool)
    ensures
        b == upgrade_fn_site_lines_within(sites@, n as int),
{
    let mut k: usize = 0;
    while k < sites.len()
        invariant
            k <= sites@.len(),
            forall|j: int| 0 <= j < k ==> 1 <= #[trigger] sites@[j].line <= n,
        decreases sites.len() - k,
    {
        if sites[k].line < 1 || sites[k].line > n {
            return false;
        }
        k += 1;
    }
    true
}

impl MissingStorageVersionCheckInRuntimeUpgrade {
    /// Runs the rule on the file, with `walk` reading its functions off its
    /// syntax tree: nothing when the file is not Rust or does not parse, or
    /// when a site's line lies outside the text.
    pub fn check_file<W: Fn(&syn::File) -> Vec<UpgradeFnSite>>(&self, ctx: &FileContext, config: &Config, walk: W) -> (r: Option<Vec<Diagnostic>>)
        requires
            ctx.content@.len() <= isize::MAX,
            forall|t: syn::File| walk.requires((&t,)),
        ensures
            !(ctx.is_rust && rust_file_parses(ctx.content@)) ==> r is None,
            (ctx.is_rust && rust_file_parses(ctx.content@)) ==> exists|sites: Vec<UpgradeFnSite>|
                #[trigger] walked_on(walk, ctx.content@, sites) && (!upgrade_fn_site_lines_within(sites@, lines_of(ctx.content@).len() as int)
                    ==> r is None) && (upgrade_fn_site_lines_within(sites@, lines_of(ctx.content@).len() as int) ==> (!(!spec_should_skip_production_rule(ctx) && !spec_is_frame_support_migration_infrastructure(ctx.path@))
                    ==> r is None) && ((!spec_should_skip_production_rule(ctx) && !spec_is_frame_support_migration_infrastructure(ctx.path@)) ==> report_of(
                    sec016_found(sites@, lines_of(ctx.content@), spec_cfg_test_module_mask(lines_of(ctx.content@)), ctx.path@, config.spec_rule_severity("SEC016"@, Severity::Warning)),
                    r,
                ))),
    {
        let sites = ctx.file_sites(walk);
        match sites {
            None => None,
            Some(v) => {
                let ghost g = v;
                proof {
                    assert(walked_on(walk, ctx.content@, g));
                }
                let n = content_lines(ctx).len();
                if !upgrade_fn_site_lines_within_exec(&v, n) {
                    return None;
                }
                self.check(ctx, config, Some(v))
            }
        }
    }

    /// Reports each `on_runtime_upgrade` of production code that writes
    /// storage with no `StorageVersion` check and no comment calling it
    /// safe to repeat. `fns` are the file's functions in the syntax tree's
    /// order, but for those of `UncheckedOnRuntimeUpgrade` impls (`None`
    /// when it did not parse); each one's name stands on a line of the file.
    pub fn check(&self, ctx: &FileContext, config: &Config, fns: Option<Vec<UpgradeFnSite>>) -> (r: Option<Vec<Diagnostic>>)
        requires
            ctx.content@.len() <= isize::MAX,
            fns matches Some(fs) ==> forall|k: int|
                0 <= k < fs@.len() ==> 1 <= #[trigger] fs@[k].line <= lines_of(ctx.content@).len(),
        ensures
            (spec_should_skip_production_rule(ctx) || spec_is_frame_support_migration_infrastructure(
                ctx.path@,
            ) || fns is None) ==> r is None,
            (!spec_should_skip_production_rule(ctx) && !spec_is_frame_support_migration_infrastructure(
                ctx.path@,
            ) && fns is Some) ==> report_of(
                sec016_found(
                    fns->0@,
                    lines_of(ctx.content@),
                    spec_cfg_test_module_mask(lines_of(ctx.content@)),
                    ctx.path@,
                    config.spec_rule_severity("SEC016"@, Severity::Warning),
                ),
                r,
            ),
    {
        if should_skip_production_rule(ctx) {
            return None;
        }
        if is_frame_support_migration_infrastructure(ctx.path.as_str()) {
            return None;
        }
        let fns = match fns {
            Some(f) => f,
            None => return None,
        };
        let lines = content_lines(ctx);
        let ghost lv = lines_view(lines@);
        let mask = cfg_test_module_mask(&lines);
        let severity = config.rule_severity(self.id(), Severity::Warning);
        let mut diagnostics: Vec<Diagnostic> = Vec::new();
        let mut i: usize = 0;
        assert(fns@.take(0) =~= Seq::<UpgradeFnSite>::empty());
        while i < fns.len()
            invariant
                i <= fns@.len(),
                lv == lines_view(lines@),
                lv == lines_of(ctx.content@),
                forall|k: int| 0 <= k < fns@.len() ==> 1 <= #[trigger] fns@[k].line <= lv.len(),
                models(diagnostics@) == sec016_found(fns@.take(i as int), lv, mask@, ctx.path@, severity),
            decreases fns.len() - i,
        {
            let f = &fns[i];
            assert(fns@.take(i + 1).drop_last() =~= fns@.take(i as int));
            assert(fns@.take(i + 1).last() == *f);
            assert(1 <= fns@[i as int].line <= lv.len());
            if upgrade_flagged_exec(f, &lines, &mask) {
                let ghost before = models(diagnostics@);
                diagnostics.push(
                    make_diagnostic(
                        self.id(),
                        self.name(),
                        RuleCategory::Semantic,
                        severity,
                        &ctx.path,
                        f.line,
                        Some(f.column),
                        None,
                        "`on_runtime_upgrade` writes storage without checking `StorageVersion`".to_owned(),
                        "Runtime upgrades should guard storage migrations with a `StorageVersion` check so repeated execution does not corrupt or re-apply state transitions.",
                        Some(
                            "Gate the writes with an `on_chain_storage_version()` / `StorageVersion::get()` check".to_owned(),
                        ),
                    ),
                );
                assert(models(diagnostics@) =~= before.push(sec016_model(ctx.path@, severity, *f)));
            }
            i += 1;
        }
        assert(fns@.take(fns@.len() as int) =~= fns@);
        into_report(diagnostics)
    }
}

} // verus!
