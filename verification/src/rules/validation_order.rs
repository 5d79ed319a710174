//! VAL003: a storage write in a function body before a validation that
//! could still reject the call.
use vstd::prelude::*;
use crate::config::Config;
use crate::context::{rust_file_parses, walked_on, FileContext};
use crate::diagnostics::{
    into_report, make_diagnostic, models, report_of, Diagnostic, DiagnosticModel, RuleCategory,
    Severity,
};
use crate::rules::masks::{cfg_test_module_mask, spec_cfg_test_module_mask};
use crate::rules::semantic::{
    content_lines, should_skip_production_rule, spec_should_skip_production_rule,
    StorageWriteBeforeValidation,
};
use crate::rules::syntax_rules::{masked_line, masked_line_exec};
use crate::rules::LintRule;
use crate::text::{chars_of, concat, decimal, decimal_exec, lines_of, push_str, string_of};

verus! {

/// What kind of statement a top-level statement of a body is.
#[derive(PartialEq, Eq, Structural, Clone, Copy, Debug)]
pub enum OrderStmtKind {
    /// A `let` with an initializer.
    LocalInit,
    /// An expression statement.
    Expr,
    /// Anything else (items, statement macros, `let` without a value).
    Other,
}

/// A top-level statement of a function body, as VAL003 reads it.
pub struct OrderStmt {
    /// Its first line.
    pub line: usize,
    pub kind: OrderStmtKind,
    /// The path of the last `put`, `insert`, `mutate`, `set` or `append`
    /// call in its expression, as written back.
    pub write: Option<String>,
    /// Its expression is an `ensure!` or an `ensure_signed`,
    /// `ensure_root` or `ensure_none` call.
    pub is_validation: bool,
}

/// A function of the file: its body's top-level statements, in order.
pub struct OrderFn {
    pub statements: Vec<OrderStmt>,
}

/// The message of a finding.
pub open spec fn order_message(write_line: nat, path: Seq<char>, line: nat) -> Seq<char> {
    "Storage write `"@ + path + "` at line "@ + decimal(write_line)
        + " occurs before validation `ensure!` at line "@ + decimal(line)
}

/// The VAL003 diagnostic of a write and the validation after it.
pub open spec fn val003_model(
    file: Seq<char>,
    sev: Severity,
    write_line: nat,
    path: Seq<char>,
    line: nat,
) -> DiagnosticModel {
    DiagnosticModel {
        rule_id: "VAL003"@,
        rule_name: "storage-write-before-validation"@,
        category: RuleCategory::Semantic,
        severity: sev,
        file,
        line: write_line,
        column: None,
        end_line: Some(line),
        message: order_message(write_line, path, line),
        explanation: "Storage writes should happen after all validations. If a later ensure! fails, the write has already persisted (in hooks) or causes unnecessary rollback (in extrinsics)."@,
        suggestion: Some("Move all ensure! checks before any storage writes"@),
    }
}

/// One statement of the scan: the first write is remembered until a
/// validation on a later line reports it and clears it; masked statements
/// and those of other kinds are passed over.
pub open spec fn order_step(
    pending: Option<(nat, Seq<char>)>,
    s: OrderStmt,
    mask: Seq<bool>,
    file: Seq<char>,
    sev: Severity,
) -> (Option<(nat, Seq<char>)>, Option<DiagnosticModel>) {
    if masked_line(mask, s.line as nat) || s.kind == OrderStmtKind::Other {
        (pending, None)
    } else {
        let now: Option<(nat, Seq<char>)> = if pending is None {
            match s.write {
                Some(p) => Some((s.line as nat, p@)),
                None => None,
            }
        } else {
            pending
        };
        match now {
            Some((write_line, path)) => if s.is_validation && s.line > write_line {
                (None, Some(val003_model(file, sev, write_line, path, s.line as nat)))
            } else {
                (now, None)
            },
            None => (None, None),
        }
    }
}

/// The scan of a body's statements: the pending write after them and the
/// diagnostics, in order.
pub open spec fn order_run(
    stmts: Seq<OrderStmt>,
    mask: Seq<bool>,
    file: Seq<char>,
    sev: Severity,
) -> (Option<(nat, Seq<char>)>, Seq<DiagnosticModel>)
    decreases stmts.len(),
{
    if stmts.len() == 0 {
        (None, seq![])
    } else {
        let prev = order_run(stmts.drop_last(), mask, file, sev);
        let step = order_step(prev.0, stmts.last(), mask, file, sev);
        match step.1 {
            Some(d) => (step.0, prev.1.push(d)),
            None => (step.0, prev.1),
        }
    }
}

/// The VAL003 diagnostics of a file's functions, in order.
pub open spec fn val003_found(fns: Seq<OrderFn>, mask: Seq<bool>, file: Seq<char>, sev: Severity) -> Seq<DiagnosticModel>
    decreases fns.len(),
{
    if fns.len() == 0 {
        seq![]
    } else {
        val003_found(fns.drop_last(), mask, file, sev) + order_run(
            fns.last().statements@,
            mask,
            file,
            sev,
        ).1
    }
}

/// Every VAL003 finding names a validation on a line after the write it
/// reports.
pub proof fn law_val003_validation_follows_write(
    stmts: Seq<OrderStmt>,
    mask: Seq<bool>,
    file: Seq<char>,
    sev: Severity,
)
    ensures
        forall|i: int|
            0 <= i < order_run(stmts, mask, file, sev).1.len() ==> {
                let d = #[trigger] order_run(stmts, mask, file, sev).1[i];
                d.end_line is Some && d.line < d.end_line->0
            },
        order_run(stmts, mask, file, sev).0 matches Some((wl, _)) ==> exists|k: int|
            0 <= k < stmts.len() && stmts[k].line == wl && stmts[k].write is Some,
    decreases stmts.len(),
{
    if stmts.len() > 0 {
        let init = stmts.drop_last();
        law_val003_validation_follows_write(init, mask, file, sev);
        let prev = order_run(init, mask, file, sev);
        let run = order_run(stmts, mask, file, sev);
        assert forall|i: int| 0 <= i < run.1.len() implies {
            let d = #[trigger] run.1[i];
            d.end_line is Some && d.line < d.end_line->0
        } by {
            if i < prev.1.len() {
                assert(run.1[i] == prev.1[i]);
            }
        }
        if run.0 is Some {
            let last = stmts.len() - 1;
            assert(stmts.last() == stmts[last]);
            if prev.0 is Some && run.0 == prev.0 {
                let k = choose|k: int|
                    0 <= k < init.len() && init[k].line == (prev.0->0).0 && init[k].write is Some;
                assert(init[k] == stmts[k]);
            }
        }
    }
}

/// The message of a finding.
fn order_message_exec(write_line: usize, path: &String, line: usize) -> (r: String)
    ensures
        r@ == order_message(write_line as nat, path@, line as nat),
{
    let m = chars_of("Storage write `");
    let m = concat(&m, &chars_of(path.as_str()));
    let m = push_str(m, "` at line ");
    let m = concat(&m, &decimal_exec(write_line));
    let m = push_str(m, " occurs before validation `ensure!` at line ");
    let m = concat(&m, &decimal_exec(line));
    string_of(&m)
}

impl StorageWriteBeforeValidation {
    /// Runs the rule on the file, with `walk` reading each function's statements off its
    /// syntax tree: nothing when the file is not Rust or does not parse.
    pub fn check_file<W: Fn(&syn::File) -> Vec<OrderFn>>(&self, ctx: &FileContext, config: &Config, walk: W) -> (r: Option<Vec<Diagnostic>>)
        requires
            ctx.content@.len() <= isize::MAX,
            forall|t: syn::File| walk.requires((&t,)),
        ensures
            !(ctx.is_rust && rust_file_parses(ctx.content@)) ==> r is None,
            (ctx.is_rust && rust_file_parses(ctx.content@)) ==> exists|sites: Vec<OrderFn>|
                #[trigger] walked_on(walk, ctx.content@, sites) && (!(!spec_should_skip_production_rule(ctx)) ==> r is None) && ((!spec_should_skip_production_rule(ctx)) ==> report_of(
                    val003_found(sites@, spec_cfg_test_module_mask(lines_of(ctx.content@)), ctx.path@, config.spec_rule_severity("VAL003"@, Severity::Warning)),
                    r,
                )),
    {
        let sites = ctx.file_sites(walk);
        let r = self.check(ctx, config, sites);
        proof {
            if ctx.is_rust && rust_file_parses(ctx.content@) {
                assert(walked_on(walk, ctx.content@, sites->0));
            }
        }
        r
    }

    /// Reports, in each function of production code, a storage write that
    /// a later top-level `ensure!` or origin check could still reject; after
    /// a report the scan looks for the next write. `fns` are the file's
    /// functions in the syntax tree's order (`None` when it did not parse).
    pub fn check(&self, ctx: &FileContext, config: &Config, fns: Option<Vec<OrderFn>>) -> (r: Option<Vec<Diagnostic>>)
        requires
            ctx.content@.len() <= isize::MAX,
        ensures
            (spec_should_skip_production_rule(ctx) || fns is None) ==> r is None,
            (!spec_should_skip_production_rule(ctx) && fns is Some) ==> report_of(
                val003_found(
                    fns->0@,
                    spec_cfg_test_module_mask(lines_of(ctx.content@)),
                    ctx.path@,
                    config.spec_rule_severity("VAL003"@, Severity::Warning),
                ),
                r,
            ),
    {
        if should_skip_production_rule(ctx) {
            return None;
        }
        let fns = match fns {
            Some(f) => f,
            None => return None,
        };
        let lines = content_lines(ctx);
        let mask = cfg_test_module_mask(&lines);
        let severity = config.rule_severity(self.id(), Severity::Warning);
        let mut diagnostics: Vec<Diagnostic> = Vec::new();
        let mut i: usize = 0;
        assert(fns@.take(0) =~= Seq::<OrderFn>::empty());
        while i < fns.len()
            invariant
                i <= fns@.len(),
                models(diagnostics@) == val003_found(fns@.take(i as int), mask@, ctx.path@, severity),
            decreases fns.len() - i,
        {
            let f = &fns[i];
            let ghost before = val003_found(fns@.take(i as int), mask@, ctx.path@, severity);
            assert(fns@.take(i + 1).drop_last() =~= fns@.take(i as int));
            assert(fns@.take(i + 1).last() == *f);
            let mut pending: Option<(usize, String)> = None;
            let mut j: usize = 0;
            assert(f.statements@.take(0) =~= Seq::<OrderStmt>::empty());
            assert(before + Seq::<DiagnosticModel>::empty() =~= before);
            while j < f.statements.len()
                invariant
                    j <= f.statements@.len(),
                    ({
                        let run = order_run(f.statements@.take(j as int), mask@, ctx.path@, severity);
                        &&& models(diagnostics@) == before + run.1
                        &&& run.0 == match pending {
                            Some((l, p)) => Some((l as nat, p@)),
                            None => None,
                        }
                    }),
                decreases f.statements.len() - j,
            {
                let s = &f.statements[j];
                let ghost prev = order_run(f.statements@.take(j as int), mask@, ctx.path@, severity);
                assert(f.statements@.take(j + 1).drop_last() =~= f.statements@.take(j as int));
                assert(f.statements@.take(j + 1).last() == *s);
                if !masked_line_exec(&mask, s.line) && s.kind != OrderStmtKind::Other {
                    if pending.is_none() {
                        pending = match &s.write {
                            Some(p) => Some((s.line, p.clone())),
                            None => None,
                        };
                    }
                    let report: Option<(usize, String)> = match &pending {
                        Some((write_line, path)) => {
                            if s.is_validation && s.line > *write_line {
                                Some((*write_line, path.clone()))
                            } else {
                                None
                            }
                        },
                        None => None,
                    };
                    match report {
                        Some((write_line, path)) => {
                            let message = order_message_exec(write_line, &path, s.line);
                            let ghost old_models = models(diagnostics@);
                            diagnostics.push(
                                make_diagnostic(
                                    self.id(),
                                    self.name(),
                                    RuleCategory::Semantic,
                                    severity,
                                    &ctx.path,
                                    write_line,
                                    None,
                                    Some(s.line),
                                    message,
                                    "Storage writes should happen after all validations. If a later ensure! fails, the write has already persisted (in hooks) or causes unnecessary rollback (in extrinsics).",
                                    Some("Move all ensure! checks before any storage writes".to_owned()),
                                ),
                            );
                            pending = None;
                            assert(models(diagnostics@) =~= old_models.push(
                                val003_model(ctx.path@, severity, write_line as nat, path@, s.line as nat),
                            ));
                        },
                        None => {},
                    }
                }
                j += 1;
            }
            assert(f.statements@.take(f.statements@.len() as int) =~= f.statements@);
            i += 1;
        }
        assert(fns@.take(fns@.len() as int) =~= fns@);
        into_report(diagnostics)
    }
}

} // verus!
