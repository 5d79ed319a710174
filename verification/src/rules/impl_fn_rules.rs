//! Rules on the functions of `impl` blocks: SEC010, a hook that writes
//! storage more than once on a path that can fail, with no storage layer;
//! SEM016, a `create_extension` that leaves out `AuthorizeCall::new()`.
use vstd::prelude::*;
use crate::config::Config;
use crate::context::FileContext;
use crate::diagnostics::{
    into_report, make_diagnostic, models, report_of, Diagnostic, DiagnosticModel, RuleCategory,
    Severity,
};
use crate::rules::masks::{cfg_test_module_mask, spec_cfg_test_module_mask};
use crate::rules::semantic::{
    content_lines, should_skip_production_rule, spec_should_skip_production_rule,
    MissingAuthorizeCallInCreateAuthorizedTransaction, MissingTransactionalInHook,
};
use crate::rules::syntax_rules::{
    has_segment, has_segment_exec, last_is, last_is_exec, masked_line, masked_line_exec,
    path_is_exec, segs,
};
use crate::rules::LintRule;
use crate::text::{chars_of, concat, decimal, decimal_exec, equals_str, lines_of, push_str, string_of};

verus! {

// ---------------------------------------------------------------------------
// SEC010: hooks without a storage layer
// ---------------------------------------------------------------------------

/// A function of an `impl` block, as SEC010 reads it.
pub struct HookSite {
    pub name: String,
    /// The first line and column of the function item.
    pub line: usize,
    pub column: usize,
    /// The paths of its attributes.
    pub attr_paths: Vec<Vec<String>>,
    /// The paths of the calls in its body, in order.
    pub call_paths: Vec<Vec<String>>,
    /// Its body has a `?`, an `ensure!`, or a `return` of an expression
    /// that names `Err`.
    pub fallible: bool,
}

/// A hook that FRAME runs outside an extrinsic.
pub open spec fn is_hook_name(n: Seq<char>) -> bool {
    n == "on_poll"@ || n == "on_idle"@ || n == "on_initialize"@ || n == "on_finalize"@
}

/// A storage-writing call.
pub open spec fn is_hook_write(p: Seq<String>) -> bool {
    last_is(p, "put"@) || last_is(p, "insert"@) || last_is(p, "mutate"@) || last_is(p, "remove"@)
        || last_is(p, "kill"@) || last_is(p, "set"@)
}

/// How many of the calls write storage.
pub open spec fn write_count(calls: Seq<Vec<String>>) -> nat
    decreases calls.len(),
{
    if calls.len() == 0 {
        0
    } else {
        write_count(calls.drop_last()) + if is_hook_write(calls.last()@) {
            1nat
        } else {
            0nat
        }
    }
}

/// The hook runs in a storage layer: it is `#[transactional]` or calls
/// `with_storage_layer`.
pub open spec fn is_transactional(h: HookSite) -> bool {
    ||| exists|k: int| 0 <= k < h.attr_paths@.len() && segs((#[trigger] h.attr_paths@[k])@) == seq!["transactional"@]
    ||| exists|k: int| 0 <= k < h.call_paths@.len() && last_is((#[trigger] h.call_paths@[k])@, "with_storage_layer"@)
}

/// A hook of production code that SEC010 reports: two or more writes, a
/// path that can fail, and no storage layer.
pub open spec fn hook_flagged(h: HookSite, mask: Seq<bool>) -> bool {
    &&& is_hook_name(h.name@)
    &&& !masked_line(mask, h.line as nat)
    &&& write_count(h.call_paths@) >= 2
    &&& h.fallible
    &&& !is_transactional(h)
}

/// The SEC010 diagnostic of a hook.
pub open spec fn sec010_model(file: Seq<char>, sev: Severity, h: HookSite) -> DiagnosticModel {
    DiagnosticModel {
        rule_id: "SEC010"@,
        rule_name: "missing-transactional-in-hook"@,
        category: RuleCategory::Semantic,
        severity: sev,
        file,
        line: h.line as nat,
        column: Some(h.column as nat),
        end_line: None,
        message: "Hook `"@ + h.name@ + "` has "@ + decimal(write_count(h.call_paths@))
            + " storage writes without `with_storage_layer` — partial state risk"@,
        explanation: "Unlike `#[pallet::call]` extrinsics, hook functions (`on_poll`, `on_idle`, `on_initialize`, `on_finalize`) do NOT get automatic storage rollback on failure. If one write succeeds and a later one fails, storage is left in an inconsistent state."@,
        suggestion: Some(
            "Wrap the body of `"@ + h.name@
                + "` in `frame_support::storage::with_storage_layer(|| { ... })`"@,
        ),
    }
}

/// The SEC010 diagnostics of a file's `impl` functions, in order.
pub open spec fn sec010_found(hooks: Seq<HookSite>, mask: Seq<bool>, file: Seq<char>, sev: Severity) -> Seq<DiagnosticModel>
    decreases hooks.len(),
{
    if hooks.len() == 0 {
        seq![]
    } else {
        let rest = sec010_found(hooks.drop_last(), mask, file, sev);
        if hook_flagged(hooks.last(), mask) {
            rest.push(sec010_model(file, sev, hooks.last()))
        } else {
            rest
        }
    }
}

/// How many of the calls write storage.
fn write_count_exec(calls: &Vec<Vec<String>>) -> (r: usize)
    ensures
        r == write_count(calls@),
{
    let mut n: usize = 0;
    let mut k: usize = 0;
    assert(calls@.take(0) =~= Seq::<Vec<String>>::empty());
    while k < calls.len()
        invariant
            k <= calls@.len(),
            n == write_count(calls@.take(k as int)),
            n <= k,
        decreases calls.len() - k,
    {
        assert(calls@.take(k + 1).drop_last() =~= calls@.take(k as int));
        assert(calls@.take(k + 1).last() == calls@[k as int]);
        let p = &calls[k];
        if last_is_exec(p, "put") || last_is_exec(p, "insert") || last_is_exec(p, "mutate")
            || last_is_exec(p, "remove") || last_is_exec(p, "kill") || last_is_exec(p, "set") {
            n += 1;
        }
        k += 1;
    }
    assert(calls@.take(calls@.len() as int) =~= calls@);
    n
}

/// Whether the hook runs in a storage layer.
fn is_transactional_exec(h: &HookSite) -> (r: bool)
    ensures
        r == is_transactional(*h),
{
    let mut k: usize = 0;
    while k < h.attr_paths.len()
        invariant
            k <= h.attr_paths@.len(),
            forall|j: int| 0 <= j < k ==> segs((#[trigger] h.attr_paths@[j])@) != seq!["transactional"@],
        decreases h.attr_paths.len() - k,
    {
        if path_is_exec(&h.attr_paths[k], "transactional", None) {
            return true;
        }
        k += 1;
    }
    let mut c: usize = 0;
    while c < h.call_paths.len()
        invariant
            c <= h.call_paths@.len(),
            forall|j: int| 0 <= j < h.attr_paths@.len() ==> segs((#[trigger] h.attr_paths@[j])@) != seq!["transactional"@],
            forall|j: int| 0 <= j < c ==> !last_is((#[trigger] h.call_paths@[j])@, "with_storage_layer"@),
        decreases h.call_paths.len() - c,
    {
        if last_is_exec(&h.call_paths[c], "with_storage_layer") {
            return true;
        }
        c += 1;
    }
    false
}

impl MissingTransactionalInHook {
    /// Reports each `on_poll`, `on_idle`, `on_initialize` and
    /// `on_finalize` of production code that writes storage at least twice
    /// on a path that can fail, outside a storage layer. `hooks` are the
    /// functions of the file's `impl` blocks in the syntax tree's order
    /// (`None` when it did not parse).
    pub fn check(&self, ctx: &FileContext, config: &Config, hooks: Option<Vec<HookSite>>) -> (r: Option<Vec<Diagnostic>>)
        requires
            ctx.content@.len() <= isize::MAX,
        ensures
            (spec_should_skip_production_rule(ctx) || hooks is None) ==> r is None,
            (!spec_should_skip_production_rule(ctx) && hooks is Some) ==> report_of(
                sec010_found(
                    hooks->0@,
                    spec_cfg_test_module_mask(lines_of(ctx.content@)),
                    ctx.path@,
                    config.spec_rule_severity("SEC010"@, Severity::Warning),
                ),
                r,
            ),
    {
        if should_skip_production_rule(ctx) {
            return None;
        }
        let hooks = match hooks {
            Some(h) => h,
            None => return None,
        };
        let lines = content_lines(ctx);
        let mask = cfg_test_module_mask(&lines);
        let severity = config.rule_severity(self.id(), Severity::Warning);
        let mut diagnostics: Vec<Diagnostic> = Vec::new();
        let mut i: usize = 0;
        assert(hooks@.take(0) =~= Seq::<HookSite>::empty());
        while i < hooks.len()
            invariant
                i <= hooks@.len(),
                models(diagnostics@) == sec010_found(hooks@.take(i as int), mask@, ctx.path@, severity),
            decreases hooks.len() - i,
        {
            let h = &hooks[i];
            assert(hooks@.take(i + 1).drop_last() =~= hooks@.take(i as int));
            assert(hooks@.take(i + 1).last() == *h);
            let name = chars_of(h.name.as_str());
            let hook = equals_str(&name, "on_poll") || equals_str(&name, "on_idle") || equals_str(
                &name,
                "on_initialize",
            ) || equals_str(&name, "on_finalize");
            if hook && !masked_line_exec(&mask, h.line) && h.fallible {
                let count = write_count_exec(&h.call_paths);
                if count >= 2 && !is_transactional_exec(h) {
                    let m = concat(&chars_of("Hook `"), &name);
                    let m = push_str(m, "` has ");
                    let m = concat(&m, &decimal_exec(count));
                    let m = push_str(m, " storage writes without `with_storage_layer` — partial state risk");
                    let g = concat(&chars_of("Wrap the body of `"), &name);
                    let g = push_str(g, "` in `frame_support::storage::with_storage_layer(|| { ... })`");
                    let ghost before = models(diagnostics@);
                    diagnostics.push(
                        make_diagnostic(
                            self.id(),
                            self.name(),
                            RuleCategory::Semantic,
                            severity,
                            &ctx.path,
                            h.line,
                            Some(h.column),
                            None,
                            string_of(&m),
                            "Unlike `#[pallet::call]` extrinsics, hook functions (`on_poll`, `on_idle`, `on_initialize`, `on_finalize`) do NOT get automatic storage rollback on failure. If one write succeeds and a later one fails, storage is left in an inconsistent state.",
                            Some(string_of(&g)),
                        ),
                    );
                    assert(models(diagnostics@) =~= before.push(sec010_model(ctx.path@, severity, *h)));
                }
            }
            i += 1;
        }
        assert(hooks@.take(hooks@.len() as int) =~= hooks@);
        into_report(diagnostics)
    }
}

// ---------------------------------------------------------------------------
// SEM016: `create_extension` without `AuthorizeCall`
// ---------------------------------------------------------------------------

/// A function of an `impl` block, as SEM016 reads it.
pub struct ImplFnSite {
    pub name: String,
    /// The first line of the function item.
    pub item_line: usize,
    /// The line and column of its name.
    pub line: usize,
    pub column: usize,
    /// The paths of the calls in its body, in order.
    pub call_paths: Vec<Vec<String>>,
}

/// An `impl` block that SEM016 reads.
pub struct ImplSite {
    /// Its first line.
    pub line: usize,
    /// The path of the trait it implements, if any.
    pub trait_path: Option<Vec<String>>,
    pub fns: Vec<ImplFnSite>,
}

/// The body builds `AuthorizeCall::new()`.
pub open spec fn builds_authorize_call(f: ImplFnSite) -> bool {
    exists|k: int|
        0 <= k < f.call_paths@.len() && has_segment((#[trigger] f.call_paths@[k])@, "AuthorizeCall"@)
            && last_is(f.call_paths@[k]@, "new"@)
}

/// The `impl` implements `CreateAuthorizedTransaction` in production code.
pub open spec fn reads_authorized_impl(i: ImplSite, mask: Seq<bool>) -> bool {
    &&& !masked_line(mask, i.line as nat)
    &&& match i.trait_path {
        Some(p) => has_segment(p@, "CreateAuthorizedTransaction"@),
        None => false,
    }
}

/// A `create_extension` of production code that leaves out the call.
pub open spec fn extension_flagged(f: ImplFnSite, mask: Seq<bool>) -> bool {
    &&& f.name@ == "create_extension"@
    &&& !masked_line(mask, f.item_line as nat)
    &&& !builds_authorize_call(f)
}

/// The SEM016 diagnostic of a function.
pub open spec fn sem016_model(file: Seq<char>, sev: Severity, f: ImplFnSite) -> DiagnosticModel {
    DiagnosticModel {
        rule_id: "SEM016"@,
        rule_name: "missing-authorizecall-in-create-authorized-transaction"@,
        category: RuleCategory::Semantic,
        severity: sev,
        file,
        line: f.line as nat,
        column: Some(f.column as nat),
        end_line: None,
        message: "`CreateAuthorizedTransaction::create_extension()` should include `AuthorizeCall::new()`"@,
        explanation: "`AuthorizeCall` routes `#[pallet::authorize]` closures through the transaction validation pipeline. Omitting it can make authorized OCW or mock transactions bypass the authorize stage entirely."@,
        suggestion: Some(
            "Add `frame_system::AuthorizeCall::<T>::new()` (or `AuthorizeCall::new()`) to the returned extension tuple"@,
        ),
    }
}

/// The SEM016 diagnostics of some functions of an `impl`, in order.
pub open spec fn sem016_fns(fns: Seq<ImplFnSite>, mask: Seq<bool>, file: Seq<char>, sev: Severity) -> Seq<DiagnosticModel>
    decreases fns.len(),
{
    if fns.len() == 0 {
        seq![]
    } else {
        let rest = sem016_fns(fns.drop_last(), mask, file, sev);
        if extension_flagged(fns.last(), mask) {
            rest.push(sem016_model(file, sev, fns.last()))
        } else {
            rest
        }
    }
}

/// The SEM016 diagnostics of a file's `impl` blocks, in order.
pub open spec fn sem016_found(impls: Seq<ImplSite>, mask: Seq<bool>, file: Seq<char>, sev: Severity) -> Seq<DiagnosticModel>
    decreases impls.len(),
{
    if impls.len() == 0 {
        seq![]
    } else {
        let rest = sem016_found(impls.drop_last(), mask, file, sev);
        if reads_authorized_impl(impls.last(), mask) {
            rest + sem016_fns(impls.last().fns@, mask, file, sev)
        } else {
            rest
        }
    }
}

/// Whether the body builds `AuthorizeCall::new()`.
fn builds_authorize_call_exec(f: &ImplFnSite) -> (r: bool)
    ensures
        r == builds_authorize_call(*f),
{
    let mut k: usize = 0;
    while k < f.call_paths.len()
        invariant
            k <= f.call_paths@.len(),
            forall|j: int|
                0 <= j < k ==> !(has_segment((#[trigger] f.call_paths@[j])@, "AuthorizeCall"@)
                    && last_is(f.call_paths@[j]@, "new"@)),
        decreases f.call_paths.len() - k,
    {
        if has_segment_exec(&f.call_paths[k], "AuthorizeCall") && last_is_exec(&f.call_paths[k], "new") {
            return true;
        }
        k += 1;
    }
    false
}

impl MissingAuthorizeCallInCreateAuthorizedTransaction {
    /// Reports each `create_extension` of a `CreateAuthorizedTransaction`
    /// impl in production code whose body does not build
    /// `AuthorizeCall::new()`. `impls` are the file's `impl` blocks that the
    /// walk reaches (it enters only `CreateAuthorizedTransaction` impls), in
    /// the syntax tree's order (`None` when it did not parse).
    pub fn check(&self, ctx: &FileContext, config: &Config, impls: Option<Vec<ImplSite>>) -> (r: Option<Vec<Diagnostic>>)
        requires
            ctx.content@.len() <= isize::MAX,
        ensures
            (!ctx.is_rust || impls is None) ==> r is None,
            (ctx.is_rust && impls is Some) ==> report_of(
                sem016_found(
                    impls->0@,
                    spec_cfg_test_module_mask(lines_of(ctx.content@)),
                    ctx.path@,
                    config.spec_rule_severity("SEM016"@, Severity::Warning),
                ),
                r,
            ),
    {
        if !ctx.is_rust {
            return None;
        }
        let impls = match impls {
            Some(i) => i,
            None => return None,
        };
        let lines = content_lines(ctx);
        let mask = cfg_test_module_mask(&lines);
        let severity = config.rule_severity(self.id(), Severity::Warning);
        let mut diagnostics: Vec<Diagnostic> = Vec::new();
        let mut i: usize = 0;
        assert(impls@.take(0) =~= Seq::<ImplSite>::empty());
        while i < impls.len()
            invariant
                i <= impls@.len(),
                models(diagnostics@) == sem016_found(impls@.take(i as int), mask@, ctx.path@, severity),
            decreases impls.len() - i,
        {
            let im = &impls[i];
            let ghost before = sem016_found(impls@.take(i as int), mask@, ctx.path@, severity);
            assert(impls@.take(i + 1).drop_last() =~= impls@.take(i as int));
            assert(impls@.take(i + 1).last() == *im);
            let reads = !masked_line_exec(&mask, im.line) && match &im.trait_path {
                Some(p) => has_segment_exec(p, "CreateAuthorizedTransaction"),
                None => false,
            };
            if reads {
                let mut j: usize = 0;
                assert(im.fns@.take(0) =~= Seq::<ImplFnSite>::empty());
                assert(before + sem016_fns(im.fns@.take(0), mask@, ctx.path@, severity) =~= before);
                while j < im.fns.len()
                    invariant
                        j <= im.fns@.len(),
                        models(diagnostics@) == before + sem016_fns(
                            im.fns@.take(j as int),
                            mask@,
                            ctx.path@,
                            severity,
                        ),
                    decreases im.fns.len() - j,
                {
                    let f = &im.fns[j];
                    let ghost done = sem016_fns(im.fns@.take(j as int), mask@, ctx.path@, severity);
                    assert(im.fns@.take(j + 1).drop_last() =~= im.fns@.take(j as int));
                    assert(im.fns@.take(j + 1).last() == *f);
                    if equals_str(&chars_of(f.name.as_str()), "create_extension") && !masked_line_exec(
                        &mask,
                        f.item_line,
                    ) && !builds_authorize_call_exec(f) {
                        let ghost old_models = models(diagnostics@);
                        diagnostics.push(
                            make_diagnostic(
                                self.id(),
                                self.name(),
                                RuleCategory::Semantic,
                                severity,
                                &ctx.path,
                                f.line,
                                Some(f.column),
                                None,
                                "`CreateAuthorizedTransaction::create_extension()` should include `AuthorizeCall::new()`".to_owned(),
                                "`AuthorizeCall` routes `#[pallet::authorize]` closures through the transaction validation pipeline. Omitting it can make authorized OCW or mock transactions bypass the authorize stage entirely.",
                                Some(
                                    "Add `frame_system::AuthorizeCall::<T>::new()` (or `AuthorizeCall::new()`) to the returned extension tuple".to_owned(),
                                ),
                            ),
                        );
                        assert(models(diagnostics@) =~= old_models.push(sem016_model(ctx.path@, severity, *f)));
                        assert(old_models.push(sem016_model(ctx.path@, severity, *f)) =~= before + done.push(
                            sem016_model(ctx.path@, severity, *f),
                        ));
                    }
                    j += 1;
                }
                assert(im.fns@.take(im.fns@.len() as int) =~= im.fns@);
            }
            i += 1;
        }
        assert(impls@.take(impls@.len() as int) =~= impls@);
        into_report(diagnostics)
    }
}

} // verus!
