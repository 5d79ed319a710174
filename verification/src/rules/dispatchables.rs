//! Rules on a pallet's dispatchables: SEC001, an extrinsic that takes an
//! unbounded `Vec`; SEC018, one whose weight ignores such an input's
//! length; SEC011, storage iteration in a dispatchable or a hook.
use vstd::prelude::*;
use crate::config::Config;
use crate::context::FileContext;
use crate::diagnostics::{
    into_report, make_diagnostic, models, report_of, Diagnostic, DiagnosticModel, RuleCategory,
    Severity,
};
use crate::rules::impl_fn_rules::is_hook_name;
use crate::rules::masks::{cfg_test_module_mask, spec_cfg_test_module_mask, strip_ws, strip_ws_exec};
use crate::rules::semantic::{
    content_lines, should_skip_production_rule, spec_should_skip_production_rule,
    MissingWeightForUnboundedInput, StorageIterationInDispatchables, UnboundedVecInExtrinsic,
};
use crate::rules::syntax_rules::{last_is, last_is_exec, masked_line, masked_line_exec};
use crate::rules::LintRule;
use crate::text::{
    chars_of, concat, contains, contains_str, equals_str, lines_of, push_str, starts_with,
    starts_with_str, string_of,
};

verus! {

/// A `Vec` parameter of a dispatchable with no bound in its type.
pub struct VecParam {
    pub name: String,
    /// The body bounds its length before use.
    pub bounded_in_body: bool,
    /// The dispatchable's weight takes its length into account.
    pub weight_accounts: bool,
}

/// A dispatchable of a pallet's call block, as the pallet model describes
/// it.
pub struct DispatchableModel {
    pub name: String,
    pub line: usize,
    pub column: usize,
    /// Only a privileged origin can call it.
    pub privileged: bool,
    pub deprecated: bool,
    /// Its weight is the block's maximum.
    pub has_max_weight: bool,
    /// It consumes the whole block.
    pub consumes_max_block: bool,
    /// Its `Vec` parameters with no bound in their types, in order.
    pub unbounded_vec_params: Vec<VecParam>,
}

// ---------------------------------------------------------------------------
// SEC001: unbounded `Vec` parameters
// ---------------------------------------------------------------------------

/// A parameter that nothing bounds: not the body, not the weight.
pub open spec fn param_unguarded(p: VecParam) -> bool {
    !p.bounded_in_body && !p.weight_accounts
}

/// A dispatchable that SEC001 reports: callable by anyone, neither
/// deprecated nor of maximal weight, with an unguarded `Vec` parameter.
pub open spec fn unbounded_vec_flagged(d: DispatchableModel) -> bool {
    &&& !d.privileged
    &&& !d.deprecated
    &&& !d.has_max_weight
    &&& exists|k: int| 0 <= k < d.unbounded_vec_params@.len() && param_unguarded(#[trigger] d.unbounded_vec_params@[k])
}

/// The SEC001 diagnostic of a dispatchable.
pub open spec fn sec001_model(file: Seq<char>, sev: Severity, d: DispatchableModel) -> DiagnosticModel {
    DiagnosticModel {
        rule_id: "SEC001"@,
        rule_name: "unbounded-vec-in-extrinsic"@,
        category: RuleCategory::Semantic,
        severity: sev,
        file,
        line: d.line as nat,
        column: Some(d.column as nat),
        end_line: None,
        message: "Extrinsic `"@ + d.name@ + "` accepts unbounded `Vec<T>` parameter"@,
        explanation: "Unbounded `Vec<T>` in extrinsic parameters allows attackers to pass arbitrarily large inputs, causing memory exhaustion or overweight blocks. Use `BoundedVec<T, MaxLen>` to enforce an upper bound."@,
        suggestion: Some("Replace `Vec<T>` with `BoundedVec<T, ConstU32<MAX>>`"@),
    }
}

/// The SEC001 diagnostics of a pallet's dispatchables, in order.
pub open spec fn sec001_found(ds: Seq<DispatchableModel>, file: Seq<char>, sev: Severity) -> Seq<DiagnosticModel>
    decreases ds.len(),
{
    if ds.len() == 0 {
        seq![]
    } else {
        let rest = sec001_found(ds.drop_last(), file, sev);
        if unbounded_vec_flagged(ds.last()) {
            rest.push(sec001_model(file, sev, ds.last()))
        } else {
            rest
        }
    }
}

/// Whether a dispatchable has an unguarded `Vec` parameter.
fn has_unguarded_param(d: &DispatchableModel) -> (r: bool)
    ensures
        r == exists|k: int| 0 <= k < d.unbounded_vec_params@.len() && param_unguarded(#[trigger] d.unbounded_vec_params@[k]),
{
    let mut k: usize = 0;
    while k < d.unbounded_vec_params.len()
        invariant
            k <= d.unbounded_vec_params@.len(),
            forall|j: int| 0 <= j < k ==> !param_unguarded(#[trigger] d.unbounded_vec_params@[j]),
        decreases d.unbounded_vec_params.len() - k,
    {
        let p = &d.unbounded_vec_params[k];
        if !p.bounded_in_body && !p.weight_accounts {
            assert(param_unguarded(d.unbounded_vec_params@[k as int]));
            return true;
        }
        k += 1;
    }
    false
}

impl UnboundedVecInExtrinsic {
    /// Reports each dispatchable of production code that anyone can call,
    /// neither deprecated nor of maximal weight, whose `Vec` parameter no
    /// bound in the body or in the weight guards. `dispatchables` are the
    /// file's pallet dispatchables in order (`None` when it did not parse).
    pub fn check(&self, ctx: &FileContext, config: &Config, dispatchables: Option<Vec<DispatchableModel>>) -> (r: Option<Vec<Diagnostic>>)
        ensures
            (spec_should_skip_production_rule(ctx) || dispatchables is None) ==> r is None,
            (!spec_should_skip_production_rule(ctx) && dispatchables is Some) ==> report_of(
                sec001_found(
                    dispatchables->0@,
                    ctx.path@,
                    config.spec_rule_severity("SEC001"@, Severity::Warning),
                ),
                r,
            ),
    {
        if should_skip_production_rule(ctx) {
            return None;
        }
        let ds = match dispatchables {
            Some(d) => d,
            None => return None,
        };
        let severity = config.rule_severity(self.id(), Severity::Warning);
        let mut diagnostics: Vec<Diagnostic> = Vec::new();
        let mut i: usize = 0;
        assert(ds@.take(0) =~= Seq::<DispatchableModel>::empty());
        while i < ds.len()
            invariant
                i <= ds@.len(),
                models(diagnostics@) == sec001_found(ds@.take(i as int), ctx.path@, severity),
            decreases ds.len() - i,
        {
            let d = &ds[i];
            assert(ds@.take(i + 1).drop_last() =~= ds@.take(i as int));
            assert(ds@.take(i + 1).last() == *d);
            if !d.privileged && !d.deprecated && !d.has_max_weight && has_unguarded_param(d) {
                let m = concat(&chars_of("Extrinsic `"), &chars_of(d.name.as_str()));
                let m = push_str(m, "` accepts unbounded `Vec<T>` parameter");
                let ghost before = models(diagnostics@);
                diagnostics.push(
                    make_diagnostic(
                        self.id(),
                        self.name(),
                        RuleCategory::Semantic,
                        severity,
                        &ctx.path,
                        d.line,
                        Some(d.column),
                        None,
                        string_of(&m),
                        "Unbounded `Vec<T>` in extrinsic parameters allows attackers to pass arbitrarily large inputs, causing memory exhaustion or overweight blocks. Use `BoundedVec<T, MaxLen>` to enforce an upper bound.",
                        Some("Replace `Vec<T>` with `BoundedVec<T, ConstU32<MAX>>`".to_owned()),
                    ),
                );
                assert(models(diagnostics@) =~= before.push(sec001_model(ctx.path@, severity, *d)));
            }
            i += 1;
        }
        assert(ds@.take(ds@.len() as int) =~= ds@);
        into_report(diagnostics)
    }
}

// ---------------------------------------------------------------------------
// SEC018: weights that ignore unbounded inputs
// ---------------------------------------------------------------------------

/// A parameter SEC018 reports: not `_`-prefixed, not bounded in the body,
/// and absent from the weight.
pub open spec fn param_missing_from_weight(p: VecParam) -> bool {
    !starts_with(p.name@, "_"@) && !p.bounded_in_body && !p.weight_accounts
}

/// The SEC018 diagnostic of a parameter.
pub open spec fn sec018_model(file: Seq<char>, sev: Severity, d: DispatchableModel, p: VecParam) -> DiagnosticModel {
    DiagnosticModel {
        rule_id: "SEC018"@,
        rule_name: "missing-weight-for-unbounded-input"@,
        category: RuleCategory::Semantic,
        severity: sev,
        file,
        line: d.line as nat,
        column: Some(d.column as nat),
        end_line: None,
        message: "Extrinsic `"@ + d.name@ + "` accepts unbounded `"@ + p.name@
            + "` but its weight does not account for its length"@,
        explanation: "SCALE decoding and pre-dispatch processing happen before the call body runs. If an unbounded input length is absent from `#[pallet::weight(...)]`, callers can submit larger payloads while paying only the fixed base weight."@,
        suggestion: Some(
            "Pass `"@ + p.name@ + ".len() as u32` or an equivalent encoded-size parameter into the benchmarked `WeightInfo` call"@,
        ),
    }
}

/// The SEC018 diagnostics of some parameters of a dispatchable, in order.
pub open spec fn sec018_params(
    d: DispatchableModel,
    ps: Seq<VecParam>,
    file: Seq<char>,
    sev: Severity,
) -> Seq<DiagnosticModel>
    decreases ps.len(),
{
    if ps.len() == 0 {
        seq![]
    } else {
        let rest = sec018_params(d, ps.drop_last(), file, sev);
        if param_missing_from_weight(ps.last()) {
            rest.push(sec018_model(file, sev, d, ps.last()))
        } else {
            rest
        }
    }
}

/// The SEC018 diagnostics of a pallet's dispatchables, in order: none for
/// a deprecated one, one of maximal weight, or one that consumes the block.
pub open spec fn sec018_found(ds: Seq<DispatchableModel>, file: Seq<char>, sev: Severity) -> Seq<DiagnosticModel>
    decreases ds.len(),
{
    if ds.len() == 0 {
        seq![]
    } else {
        let rest = sec018_found(ds.drop_last(), file, sev);
        let d = ds.last();
        if d.deprecated || d.has_max_weight || d.consumes_max_block {
            rest
        } else {
            rest + sec018_params(d, d.unbounded_vec_params@, file, sev)
        }
    }
}

impl MissingWeightForUnboundedInput {
    /// Reports each unbounded `Vec` parameter of a dispatchable of
    /// production code that its weight ignores, unless the dispatchable is
    /// deprecated, of maximal weight or consumes the block, or the
    /// parameter is `_`-prefixed or bounded in the body. `dispatchables`
    /// are the file's pallet dispatchables in order (`None` when it did not
    /// parse).
    pub fn check(&self, ctx: &FileContext, config: &Config, dispatchables: Option<Vec<DispatchableModel>>) -> (r: Option<Vec<Diagnostic>>)
        ensures
            (spec_should_skip_production_rule(ctx) || dispatchables is None) ==> r is None,
            (!spec_should_skip_production_rule(ctx) && dispatchables is Some) ==> report_of(
                sec018_found(
                    dispatchables->0@,
                    ctx.path@,
                    config.spec_rule_severity("SEC018"@, Severity::Warning),
                ),
                r,
            ),
    {
        if should_skip_production_rule(ctx) {
            return None;
        }
        let ds = match dispatchables {
            Some(d) => d,
            None => return None,
        };
        let severity = config.rule_severity(self.id(), Severity::Warning);
        let mut diagnostics: Vec<Diagnostic> = Vec::new();
        let mut i: usize = 0;
        assert(ds@.take(0) =~= Seq::<DispatchableModel>::empty());
        while i < ds.len()
            invariant
                i <= ds@.len(),
                models(diagnostics@) == sec018_found(ds@.take(i as int), ctx.path@, severity),
            decreases ds.len() - i,
        {
            let d = &ds[i];
            let ghost before = sec018_found(ds@.take(i as int), ctx.path@, severity);
            assert(ds@.take(i + 1).drop_last() =~= ds@.take(i as int));
            assert(ds@.take(i + 1).last() == *d);
            if !(d.deprecated || d.has_max_weight || d.consumes_max_block) {
                let name = chars_of(d.name.as_str());
                let mut j: usize = 0;
                assert(d.unbounded_vec_params@.take(0) =~= Seq::<VecParam>::empty());
                assert(before + sec018_params(*d, d.unbounded_vec_params@.take(0), ctx.path@, severity)
                    =~= before);
                while j < d.unbounded_vec_params.len()
                    invariant
                        j <= d.unbounded_vec_params@.len(),
                        name@ == d.name@,
                        models(diagnostics@) == before + sec018_params(
                            *d,
                            d.unbounded_vec_params@.take(j as int),
                            ctx.path@,
                            severity,
                        ),
                    decreases d.unbounded_vec_params.len() - j,
                {
                    let p = &d.unbounded_vec_params[j];
                    let ghost done = sec018_params(*d, d.unbounded_vec_params@.take(j as int), ctx.path@, severity);
                    assert(d.unbounded_vec_params@.take(j + 1).drop_last() =~= d.unbounded_vec_params@.take(j as int));
                    assert(d.unbounded_vec_params@.take(j + 1).last() == *p);
                    let pname = chars_of(p.name.as_str());
                    if !starts_with_str(&pname, "_") && !p.bounded_in_body && !p.weight_accounts {
                        let m = concat(&chars_of("Extrinsic `"), &name);
                        let m = push_str(m, "` accepts unbounded `");
                        let m = concat(&m, &pname);
                        let m = push_str(m, "` but its weight does not account for its length");
                        let g = concat(&chars_of("Pass `"), &pname);
                        let g = push_str(g, ".len() as u32` or an equivalent encoded-size parameter into the benchmarked `WeightInfo` call");
                        let ghost old_models = models(diagnostics@);
                        diagnostics.push(
                            make_diagnostic(
                                self.id(),
                                self.name(),
                                RuleCategory::Semantic,
                                severity,
                                &ctx.path,
                                d.line,
                                Some(d.column),
                                None,
                                string_of(&m),
                                "SCALE decoding and pre-dispatch processing happen before the call body runs. If an unbounded input length is absent from `#[pallet::weight(...)]`, callers can submit larger payloads while paying only the fixed base weight.",
                                Some(string_of(&g)),
                            ),
                        );
                        assert(models(diagnostics@) =~= old_models.push(sec018_model(ctx.path@, severity, *d, *p)));
                        assert(old_models.push(sec018_model(ctx.path@, severity, *d, *p)) =~= before + done.push(
                            sec018_model(ctx.path@, severity, *d, *p),
                        ));
                    }
                    j += 1;
                }
                assert(d.unbounded_vec_params@.take(d.unbounded_vec_params@.len() as int) =~= d.unbounded_vec_params@);
            }
            i += 1;
        }
        assert(ds@.take(ds@.len() as int) =~= ds@);
        into_report(diagnostics)
    }
}

// ---------------------------------------------------------------------------
// SEC011: storage iteration in dispatchables and hooks
// ---------------------------------------------------------------------------

/// A function of an `impl` block, as SEC011 reads it.
pub struct IterFnSite {
    pub name: String,
    /// The first line of the function item.
    pub line: usize,
    /// It carries `#[pallet::call_index(..)]`.
    pub call_index: bool,
    /// The calls of paths in its body: path, line and column, in order.
    pub calls: Vec<(Vec<String>, usize, usize)>,
    /// Its body's tokens as written back.
    pub body_tokens: String,
}

/// An `impl` block: whether it carries `#[pallet::call]`, and its
/// functions.
pub struct IterImplSite {
    pub call_impl: bool,
    pub fns: Vec<IterFnSite>,
}

/// A call of `Map::iter` or `Map::drain`.
pub open spec fn is_iteration_call(p: Seq<String>) -> bool {
    (last_is(p, "iter"@) || last_is(p, "drain"@)) && p.len() >= 2
}

/// The position of the last storage iteration among the calls.
pub open spec fn last_iteration(calls: Seq<(Vec<String>, usize, usize)>) -> Option<(usize, usize)>
    decreases calls.len(),
{
    if calls.len() == 0 {
        None
    } else if is_iteration_call(calls.last().0@) {
        Some((calls.last().1, calls.last().2))
    } else {
        last_iteration(calls.drop_last())
    }
}

/// A body that meters its iteration: it uses a `WeightMeter` or
/// `.try_consume(..)` and a `.take(..)`.
pub open spec fn weight_metered(tokens: Seq<char>) -> bool {
    let t = strip_ws(tokens);
    (contains(t, "WeightMeter"@) || contains(t, ".try_consume("@)) && contains(t, ".take("@)
}

/// The name is one of the privileged dispatchables.
pub open spec fn is_privileged(privileged: Seq<String>, name: Seq<char>) -> bool {
    exists|k: int| 0 <= k < privileged.len() && (#[trigger] privileged[k])@ == name
}

/// The SEC011 diagnostic of a function, labelled as a dispatchable or a
/// hook.
pub open spec fn sec011_model(file: Seq<char>, sev: Severity, label: Seq<char>, at: (usize, usize)) -> DiagnosticModel {
    DiagnosticModel {
        rule_id: "SEC011"@,
        rule_name: "storage-iteration-in-dispatchables"@,
        category: RuleCategory::Semantic,
        severity: sev,
        file,
        line: at.0 as nat,
        column: Some(at.1 as nat),
        end_line: None,
        message: label + " iterates storage with `iter()`/`drain()`"@,
        explanation: "Iterating or draining storage inside dispatchables or hooks can make execution cost scale with chain state, which is difficult to benchmark safely and can create DoS risk."@,
        suggestion: Some("Move iteration into a bounded workflow or redesign the storage access pattern"@),
    }
}

/// The SEC011 diagnostics of a function of an `impl`: one for a
/// non-privileged dispatchable of a call block, one for a hook whose body
/// does not meter its iteration, each at its last storage iteration.
pub open spec fn sec011_fn(
    call_impl: bool,
    f: IterFnSite,
    privileged: Seq<String>,
    mask: Seq<bool>,
    file: Seq<char>,
    sev: Severity,
) -> Seq<DiagnosticModel> {
    if masked_line(mask, f.line as nat) {
        seq![]
    } else {
        let dispatchable: Seq<DiagnosticModel> = if call_impl && f.call_index && !is_privileged(
            privileged,
            f.name@,
        ) {
            match last_iteration(f.calls@) {
                Some(at) => seq![sec011_model(file, sev, "Dispatchable `"@ + f.name@ + "`"@, at)],
                None => seq![],
            }
        } else {
            seq![]
        };
        let hook: Seq<DiagnosticModel> = if is_hook_name(f.name@) && !weight_metered(f.body_tokens@) {
            match last_iteration(f.calls@) {
                Some(at) => seq![sec011_model(file, sev, "Hook `"@ + f.name@ + "`"@, at)],
                None => seq![],
            }
        } else {
            seq![]
        };
        dispatchable + hook
    }
}

/// The SEC011 diagnostics of some functions of an `impl`, in order.
pub open spec fn sec011_fns(
    call_impl: bool,
    fns: Seq<IterFnSite>,
    privileged: Seq<String>,
    mask: Seq<bool>,
    file: Seq<char>,
    sev: Severity,
) -> Seq<DiagnosticModel>
    decreases fns.len(),
{
    if fns.len() == 0 {
        seq![]
    } else {
        sec011_fns(call_impl, fns.drop_last(), privileged, mask, file, sev) + sec011_fn(
            call_impl,
            fns.last(),
            privileged,
            mask,
            file,
            sev,
        )
    }
}

/// The SEC011 diagnostics of a file's `impl` blocks, in order.
pub open spec fn sec011_found(
    impls: Seq<IterImplSite>,
    privileged: Seq<String>,
    mask: Seq<bool>,
    file: Seq<char>,
    sev: Severity,
) -> Seq<DiagnosticModel>
    decreases impls.len(),
{
    if impls.len() == 0 {
        seq![]
    } else {
        sec011_found(impls.drop_last(), privileged, mask, file, sev) + sec011_fns(
            impls.last().call_impl,
            impls.last().fns@,
            privileged,
            mask,
            file,
            sev,
        )
    }
}

/// The position of the last storage iteration among the calls.
fn last_iteration_exec(calls: &Vec<(Vec<String>, usize, usize)>) -> (r: Option<(usize, usize)>)
    ensures
        r == last_iteration(calls@),
{
    let mut k: usize = calls.len();
    assert(calls@.take(k as int) =~= calls@);
    while k > 0
        invariant
            k <= calls@.len(),
            last_iteration(calls@) == last_iteration(calls@.take(k as int)),
        decreases k,
    {
        let c = &calls[k - 1];
        assert(calls@.take(k as int).drop_last() =~= calls@.take(k - 1));
        assert(calls@.take(k as int).last() == *c);
        if (last_is_exec(&c.0, "iter") || last_is_exec(&c.0, "drain")) && c.0.len() >= 2 {
            return Some((c.1, c.2));
        }
        k -= 1;
    }
    None
}

/// Whether the name is one of the privileged dispatchables.
fn is_privileged_exec(privileged: &Vec<String>, name: &String) -> (r: bool)
    ensures
        r == is_privileged(privileged@, name@),
{
    let mut k: usize = 0;
    while k < privileged.len()
        invariant
            k <= privileged@.len(),
            forall|j: int| 0 <= j < k ==> (#[trigger] privileged@[j])@ != name@,
        decreases privileged.len() - k,
    {
        if equals_str(&chars_of(privileged[k].as_str()), name.as_str()) {
            assert(privileged@[k as int]@ == name@);
            return true;
        }
        k += 1;
    }
    false
}

/// The SEC011 diagnostic with a label.
fn sec011_diagnostic(
    rule: &StorageIterationInDispatchables,
    file: &String,
    severity: Severity,
    prefix: &str,
    name: &String,
    at: (usize, usize),
) -> (r: Diagnostic)
    ensures
        r@ == sec011_model(file@, severity, prefix@ + name@ + "`"@, at),
{
    let label = push_str(concat(&chars_of(prefix), &chars_of(name.as_str())), "`");
    let m = push_str(label, " iterates storage with `iter()`/`drain()`");
    make_diagnostic(
        rule.id(),
        rule.name(),
        RuleCategory::Semantic,
        severity,
        file,
        at.0,
        Some(at.1),
        None,
        string_of(&m),
        "Iterating or draining storage inside dispatchables or hooks can make execution cost scale with chain state, which is difficult to benchmark safely and can create DoS risk.",
        Some("Move iteration into a bounded workflow or redesign the storage access pattern".to_owned()),
    )
}

/// The SEC011 diagnostics of a function of an `impl`.
fn sec011_fn_exec(
    rule: &StorageIterationInDispatchables,
    call_impl: bool,
    f: &IterFnSite,
    privileged: &Vec<String>,
    mask: &Vec<bool>,
    file: &String,
    severity: Severity,
) -> (r: Vec<Diagnostic>)
    ensures
        models(r@) == sec011_fn(call_impl, *f, privileged@, mask@, file@, severity),
{
    let mut out: Vec<Diagnostic> = Vec::new();
    if masked_line_exec(mask, f.line) {
        assert(models(out@) =~= Seq::<DiagnosticModel>::empty());
        return out;
    }
    let at = last_iteration_exec(&f.calls);
    if call_impl && f.call_index && !is_privileged_exec(privileged, &f.name) {
        match at {
            Some(a) => {
                out.push(sec011_diagnostic(rule, file, severity, "Dispatchable `", &f.name, a));
            },
            None => {},
        }
    }
    let ghost first = models(out@);
    let name = chars_of(f.name.as_str());
    let hook = equals_str(&name, "on_poll") || equals_str(&name, "on_idle") || equals_str(
        &name,
        "on_initialize",
    ) || equals_str(&name, "on_finalize");
    let t = strip_ws_exec(&chars_of(f.body_tokens.as_str()));
    let metered = (contains_str(&t, "WeightMeter") || contains_str(&t, ".try_consume("))
        && contains_str(&t, ".take(");
    if hook && !metered {
        match at {
            Some(a) => {
                out.push(sec011_diagnostic(rule, file, severity, "Hook `", &f.name, a));
            },
            None => {},
        }
    }
    assert(models(out@) =~= sec011_fn(call_impl, *f, privileged@, mask@, file@, severity));
    out
}

impl StorageIterationInDispatchables {
    /// Reports the last storage `iter`/`drain` call of each non-privileged
    /// dispatchable of a `#[pallet::call]` block, and of each hook whose
    /// body does not meter it, in production code. `impls` are the file's
    /// `impl` blocks in the syntax tree's order and `privileged` the names
    /// of the pallet's privileged dispatchables (`None` when it did not
    /// parse).
    pub fn check(
        &self,
        ctx: &FileContext,
        config: &Config,
        impls: Option<Vec<IterImplSite>>,
        privileged: &Vec<String>,
    ) -> (r: Option<Vec<Diagnostic>>)
        requires
            ctx.content@.len() <= isize::MAX,
        ensures
            (spec_should_skip_production_rule(ctx) || impls is None) ==> r is None,
            (!spec_should_skip_production_rule(ctx) && impls is Some) ==> report_of(
                sec011_found(
                    impls->0@,
                    privileged@,
                    spec_cfg_test_module_mask(lines_of(ctx.content@)),
                    ctx.path@,
                    config.spec_rule_severity("SEC011"@, Severity::Warning),
                ),
                r,
            ),
    {
        if should_skip_production_rule(ctx) {
            return None;
        }
        let impls = match impls {
            Some(i) => i,
            None => return None,
        };
        let lines = content_lines(ctx);
        let mask = cfg_test_module_mask(&lines);
        let severity = config.rule_severity(self.id(), Severity::Warning);
        let mut diagnostics: Vec<Diagnostic> = Vec::new();
        let mut i: usize = 0;
        assert(impls@.take(0) =~= Seq::<IterImplSite>::empty());
        while i < impls.len()
            invariant
                i <= impls@.len(),
                models(diagnostics@) == sec011_found(impls@.take(i as int), privileged@, mask@, ctx.path@, severity),
            decreases impls.len() - i,
        {
            let im = &impls[i];
            let ghost before = sec011_found(impls@.take(i as int), privileged@, mask@, ctx.path@, severity);
            assert(impls@.take(i + 1).drop_last() =~= impls@.take(i as int));
            assert(impls@.take(i + 1).last() == *im);
            let mut j: usize = 0;
            assert(im.fns@.take(0) =~= Seq::<IterFnSite>::empty());
            assert(before + sec011_fns(im.call_impl, im.fns@.take(0), privileged@, mask@, ctx.path@, severity)
                =~= before);
            while j < im.fns.len()
                invariant
                    j <= im.fns@.len(),
                    models(diagnostics@) == before + sec011_fns(
                        im.call_impl,
                        im.fns@.take(j as int),
                        privileged@,
                        mask@,
                        ctx.path@,
                        severity,
                    ),
                decreases im.fns.len() - j,
            {
                let f = &im.fns[j];
                let ghost done = sec011_fns(im.call_impl, im.fns@.take(j as int), privileged@, mask@, ctx.path@, severity);
                assert(im.fns@.take(j + 1).drop_last() =~= im.fns@.take(j as int));
                assert(im.fns@.take(j + 1).last() == *f);
                let mut found = sec011_fn_exec(self, im.call_impl, f, privileged, &mask, &ctx.path, severity);
                let ghost old_models = models(diagnostics@);
                let ghost added = models(found@);
                diagnostics.append(&mut found);
                assert(models(diagnostics@) =~= old_models + added);
                assert(old_models + added =~= before + (done + sec011_fn(
                    im.call_impl,
                    *f,
                    privileged@,
                    mask@,
                    ctx.path@,
                    severity,
                )));
                j += 1;
            }
            assert(im.fns@.take(im.fns@.len() as int) =~= im.fns@);
            i += 1;
        }
        assert(impls@.take(impls@.len() as int) =~= impls@);
        into_report(diagnostics)
    }
}

} // verus!
