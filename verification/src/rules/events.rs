//! SEC017: a `#[pallet::event]` enum with a `Vec<T>` field, whose encoding
//! has no bound.
use vstd::prelude::*;
use crate::config::Config;
use crate::context::FileContext;
use crate::diagnostics::{
    into_report, make_diagnostic, models, report_of, Diagnostic, DiagnosticModel, RuleCategory,
    Severity,
};
use crate::rules::masks::{cfg_test_module_mask, spec_cfg_test_module_mask, strip_ws, strip_ws_exec};
use crate::rules::semantic::{
    content_lines, should_skip_production_rule, spec_should_skip_production_rule, VecInEvents,
};
use crate::rules::syntax_rules::{masked_line, masked_line_exec};
use crate::rules::LintRule;
use crate::text::{chars_of, concat, contains, contains_exec, equals_str, lines_of, push_str};

verus! {

/// An `enum` item of the file, as SEC017 reads it.
pub struct EventEnumSite {
    pub line: usize,
    pub column: usize,
    /// The paths of its attributes, segment by segment.
    pub attr_paths: Vec<Vec<String>>,
    /// The named fields whose type names `Vec`: variant and field names.
    pub named_vec_fields: Vec<(String, String)>,
    /// A tuple variant has a field whose type names `Vec`.
    pub unnamed_vec_field: bool,
}

/// The enum carries `#[pallet::event]`.
pub open spec fn is_pallet_event(e: EventEnumSite) -> bool {
    exists|k: int|
        0 <= k < e.attr_paths@.len() && (#[trigger] e.attr_paths@[k])@.len() == 2
            && e.attr_paths@[k]@[0]@ == "pallet"@ && e.attr_paths@[k]@[1]@ == "event"@
}

/// The file, without whitespace, declares the field as a `BoundedVec`,
/// converts it with `.into()` and builds the variant: the event carries a
/// bounded vector converted at the edge.
pub open spec fn bounded_event_flow(compact: Seq<char>, variant: Seq<char>, field: Seq<char>) -> bool {
    &&& contains(compact, field + ":BoundedVec<"@)
    &&& contains(compact, field + ".into()"@)
    &&& contains(compact, "Event::"@ + variant + "{"@)
}

/// Every named `Vec` field is such a bounded flow.
pub open spec fn all_named_fields_bounded(e: EventEnumSite, compact: Seq<char>) -> bool {
    forall|k: int|
        0 <= k < e.named_vec_fields@.len() ==> bounded_event_flow(
            compact,
            (#[trigger] e.named_vec_fields@[k]).0@,
            e.named_vec_fields@[k].1@,
        )
}

/// A pallet event of production code that SEC017 reports: it has a `Vec`
/// field that is not a bounded flow.
pub open spec fn vec_event_flagged(e: EventEnumSite, mask: Seq<bool>, compact: Seq<char>) -> bool {
    let named = e.named_vec_fields@.len() > 0;
    &&& is_pallet_event(e)
    &&& !masked_line(mask, e.line as nat)
    &&& e.unnamed_vec_field || named
    &&& e.unnamed_vec_field || !(named && all_named_fields_bounded(e, compact))
}

/// The SEC017 diagnostic of an enum.
pub open spec fn sec017_model(file: Seq<char>, sev: Severity, e: EventEnumSite) -> DiagnosticModel {
    DiagnosticModel {
        rule_id: "SEC017"@,
        rule_name: "vec-in-events"@,
        category: RuleCategory::Semantic,
        severity: sev,
        file,
        line: e.line as nat,
        column: Some(e.column as nat),
        end_line: None,
        message: "`#[pallet::event]` contains a `Vec<T>` field"@,
        explanation: "Event payloads should stay bounded and predictable. `Vec<T>` in events allows arbitrarily large event encoding and weaker weight assumptions."@,
        suggestion: Some("Use a bounded vector or emit repeated smaller events"@),
    }
}

/// The SEC017 diagnostics of a file's enums, in order.
pub open spec fn sec017_found(
    enums: Seq<EventEnumSite>,
    mask: Seq<bool>,
    compact: Seq<char>,
    file: Seq<char>,
    sev: Severity,
) -> Seq<DiagnosticModel>
    decreases enums.len(),
{
    if enums.len() == 0 {
        seq![]
    } else {
        let rest = sec017_found(enums.drop_last(), mask, compact, file, sev);
        if vec_event_flagged(enums.last(), mask, compact) {
            rest.push(sec017_model(file, sev, enums.last()))
        } else {
            rest
        }
    }
}

/// Whether the enum carries `#[pallet::event]`.
fn is_pallet_event_exec(e: &EventEnumSite) -> (r: bool)
    ensures
        r == is_pallet_event(*e),
{
    let mut k: usize = 0;
    while k < e.attr_paths.len()
        invariant
            k <= e.attr_paths@.len(),
            forall|j: int|
                0 <= j < k ==> !((#[trigger] e.attr_paths@[j])@.len() == 2 && e.attr_paths@[j]@[0]@
                    == "pallet"@ && e.attr_paths@[j]@[1]@ == "event"@),
        decreases e.attr_paths.len() - k,
    {
        let p = &e.attr_paths[k];
        if p.len() == 2 && equals_str(&chars_of(p[0].as_str()), "pallet") && equals_str(
            &chars_of(p[1].as_str()),
            "event",
        ) {
            assert(e.attr_paths@[k as int] == *p);
            return true;
        }
        k += 1;
    }
    false
}

/// Whether a field is a bounded flow in the file.
fn bounded_event_flow_exec(compact: &Vec<char>, variant: &String, field: &String) -> (r: bool)
    ensures
        r == bounded_event_flow(compact@, variant@, field@),
{
    let f = chars_of(field.as_str());
    let declared = push_str(copy_of(&f), ":BoundedVec<");
    let converted = push_str(copy_of(&f), ".into()");
    let built = push_str(concat(&chars_of("Event::"), &chars_of(variant.as_str())), "{");
    contains_exec(compact, &declared) && contains_exec(compact, &converted) && contains_exec(
        compact,
        &built,
    )
}

/// A copy of `v`.
fn copy_of(v: &Vec<char>) -> (r: Vec<char>)
    ensures
        r@ == v@,
{
    let r = crate::text::copy_range(v, 0, v.len());
    assert(v@.subrange(0, v@.len() as int) =~= v@);
    r
}

/// Whether SEC017 reports an enum.
fn vec_event_flagged_exec(e: &EventEnumSite, mask: &Vec<bool>, compact: &Vec<char>) -> (r: bool)
    ensures
        r == vec_event_flagged(*e, mask@, compact@),
{
    if !is_pallet_event_exec(e) || masked_line_exec(mask, e.line) {
        return false;
    }
    if e.unnamed_vec_field {
        return true;
    }
    if e.named_vec_fields.len() == 0 {
        return false;
    }
    let mut k: usize = 0;
    while k < e.named_vec_fields.len()
        invariant
            k <= e.named_vec_fields@.len(),
            is_pallet_event(*e),
            !masked_line(mask@, e.line as nat),
            !e.unnamed_vec_field,
            e.named_vec_fields@.len() > 0,
            forall|j: int|
                0 <= j < k ==> bounded_event_flow(
                    compact@,
                    (#[trigger] e.named_vec_fields@[j]).0@,
                    e.named_vec_fields@[j].1@,
                ),
        decreases e.named_vec_fields.len() - k,
    {
        let f = &e.named_vec_fields[k];
        if !bounded_event_flow_exec(compact, &f.0, &f.1) {
            assert(e.named_vec_fields@[k as int] == *f);
            assert(!all_named_fields_bounded(*e, compact@));
            return true;
        }
        k += 1;
    }
    false
}

impl VecInEvents {
    /// Reports each `#[pallet::event]` enum of production code with a field
    /// whose type names `Vec`, unless every such field is named and the file
    /// declares it a `BoundedVec`, converts it with `.into()` and builds its
    /// variant. `enums` are the file's enums in the syntax tree's order
    /// (`None` when it did not parse).
    pub fn check(&self, ctx: &FileContext, config: &Config, enums: Option<Vec<EventEnumSite>>) -> (r: Option<Vec<Diagnostic>>)
        requires
            ctx.content@.len() <= isize::MAX,
        ensures
            (spec_should_skip_production_rule(ctx) || enums is None) ==> r is None,
            (!spec_should_skip_production_rule(ctx) && enums is Some) ==> report_of(
                sec017_found(
                    enums->0@,
                    spec_cfg_test_module_mask(lines_of(ctx.content@)),
                    strip_ws(ctx.content@),
                    ctx.path@,
                    config.spec_rule_severity("SEC017"@, Severity::Warning),
                ),
                r,
            ),
    {
        if should_skip_production_rule(ctx) {
            return None;
        }
        let enums = match enums {
            Some(e) => e,
            None => return None,
        };
        let lines = content_lines(ctx);
        let mask = cfg_test_module_mask(&lines);
        let compact = strip_ws_exec(&chars_of(ctx.content.as_str()));
        let severity = config.rule_severity(self.id(), Severity::Warning);
        let mut diagnostics: Vec<Diagnostic> = Vec::new();
        let mut i: usize = 0;
        assert(enums@.take(0) =~= Seq::<EventEnumSite>::empty());
        while i < enums.len()
            invariant
                i <= enums@.len(),
                models(diagnostics@) == sec017_found(
                    enums@.take(i as int),
                    mask@,
                    compact@,
                    ctx.path@,
                    severity,
                ),
            decreases enums.len() - i,
        {
            let e = &enums[i];
            assert(enums@.take(i + 1).drop_last() =~= enums@.take(i as int));
            assert(enums@.take(i + 1).last() == *e);
            if vec_event_flagged_exec(e, &mask, &compact) {
                let ghost before = models(diagnostics@);
                diagnostics.push(
                    make_diagnostic(
                        self.id(),
                        self.name(),
                        RuleCategory::Semantic,
                        severity,
                        &ctx.path,
                        e.line,
                        Some(e.column),
                        None,
                        "`#[pallet::event]` contains a `Vec<T>` field".to_owned(),
                        "Event payloads should stay bounded and predictable. `Vec<T>` in events allows arbitrarily large event encoding and weaker weight assumptions.",
                        Some("Use a bounded vector or emit repeated smaller events".to_owned()),
                    ),
                );
                assert(models(diagnostics@) =~= before.push(sec017_model(ctx.path@, severity, *e)));
            }
            i += 1;
        }
        assert(enums@.take(enums@.len() as int) =~= enums@);
        into_report(diagnostics)
    }
}

} // verus!
