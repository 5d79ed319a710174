//! Storage aliases in rustdoc's JSON output whose value holds an unbounded
//! collection (rule `SEC013`).
use vstd::prelude::*;
use crate::config::Config;
use crate::diagnostics::{
    make_diagnostic, models, opt_nat, opt_text, Diagnostic, DiagnosticModel, RuleCategory,
    Severity,
};
use crate::rules::paths::{
    path_is_relative, path_join, path_less, std_path_is_relative, std_path_join, std_path_less,
};
use crate::text::{
    chars_of, contains, contains_str, equals_str, occurs_at, occurs_at_exec, string_of,
    to_ascii_lowercase, to_ascii_lowercase_exec,
};

verus! {

/// A JSON value, as rustdoc writes it; an object keeps its entries in the
/// order the parser gives them.
pub enum JsonValue {
    Null,
    Bool(bool),
    /// A number; its value when it is an unsigned 64-bit integer.
    Number(Option<u64>),
    String(String),
    Array(Vec<JsonValue>),
    Object(Vec<(String, JsonValue)>),
}

// ---------------------------------------------------------------------------
// Parsing JSON text
// ---------------------------------------------------------------------------

/// `serde_json`'s parsed value.
#[verifier::external_type_specification]
#[verifier::external_body]
pub struct ExJsonDocument(serde_json::Value);

/// What `serde_json::from_str::<serde_json::Value>` gives for `text`, taken
/// one for one into a `JsonValue`: the value, or the parser's error message.
pub uninterp spec fn json_parsed(text: Seq<char>) -> Result<JsonValue, Seq<char>>;

/// Every object in `v`, at any depth, names each key once.
pub open spec fn keys_distinct(v: JsonValue) -> bool
    decreases v,
{
    match v {
        JsonValue::Array(vs) => forall|i: int| 0 <= i < vs@.len() ==> keys_distinct(#[trigger] vs@[i]),
        JsonValue::Object(es) => {
            &&& forall|i: int, j: int|
                0 <= i < j < es@.len() ==> #[trigger] es@[i].0@ != #[trigger] es@[j].0@
            &&& forall|i: int| 0 <= i < es@.len() ==> keys_distinct(#[trigger] es@[i].1)
        },
        _ => true,
    }
}

/// Takes serde_json's value into a `JsonValue`, one for one: a number by its
/// `as_u64`, an object's entries in the map's order. Only `parse_json` calls
/// it, and its contract covers what comes out.
#[verifier::external_body]
fn json_value_of(v: &serde_json::Value) -> JsonValue {
    match v {
        serde_json::Value::Null => JsonValue::Null,
        serde_json::Value::Bool(b) => JsonValue::Bool(*b),
        serde_json::Value::Number(n) => JsonValue::Number(n.as_u64()),
        serde_json::Value::String(t) => JsonValue::String(t.clone()),
        serde_json::Value::Array(vs) => JsonValue::Array(vs.iter().map(json_value_of).collect()),
        serde_json::Value::Object(m) => {
            JsonValue::Object(m.iter().map(|(k, x)| (k.clone(), json_value_of(x))).collect())
        },
    }
}

/// Parses `text` with `serde_json::from_str` into serde_json's `Value`; the
/// result, taken one for one, or the error's message, is named
/// `json_parsed(text)`. serde_json's map holds each key once (a later
/// duplicate replaces the earlier value), so each object of the value names
/// each key once.
#[verifier::external_body]
pub(crate) fn parse_json(text: &str) -> (r: Result<JsonValue, String>)
    ensures
        match r {
            Ok(v) => json_parsed(text@) == Ok::<JsonValue, Seq<char>>(v) && keys_distinct(v),
            Err(e) => json_parsed(text@) == Err::<JsonValue, Seq<char>>(e@),
        },
{
    match serde_json::from_str::<serde_json::Value>(text) {
        Ok(v) => Ok(json_value_of(&v)),
        Err(e) => Err(e.to_string()),
    }
}

// ---------------------------------------------------------------------------
// Reading JSON values
// ---------------------------------------------------------------------------

/// The value under the first entry named `key` among `entries`.
pub open spec fn entry_get(entries: Seq<(String, JsonValue)>, key: Seq<char>) -> Option<JsonValue>
    decreases entries.len(),
{
    if entries.len() == 0 {
        None
    } else if entries[0].0@ == key {
        Some(entries[0].1)
    } else {
        entry_get(entries.drop_first(), key)
    }
}

/// `Value::get` with a key: the entry's value in an object, else nothing.
pub open spec fn json_get(v: JsonValue, key: Seq<char>) -> Option<JsonValue> {
    match v {
        JsonValue::Object(entries) => entry_get(entries@, key),
        _ => None,
    }
}

/// `json_get` on an optional value.
pub open spec fn json_get_in(o: Option<JsonValue>, key: Seq<char>) -> Option<JsonValue> {
    match o {
        Some(v) => json_get(v, key),
        None => None,
    }
}

/// `Value::as_str`.
pub open spec fn json_str(o: Option<JsonValue>) -> Option<Seq<char>> {
    match o {
        Some(JsonValue::String(s)) => Some(s@),
        _ => None,
    }
}

/// `Value::as_array`.
pub open spec fn json_array(o: Option<JsonValue>) -> Option<Seq<JsonValue>> {
    match o {
        Some(JsonValue::Array(vs)) => Some(vs@),
        _ => None,
    }
}

/// `Value::as_u64`.
pub open spec fn json_u64(o: Option<JsonValue>) -> Option<u64> {
    match o {
        Some(JsonValue::Number(n)) => n,
        _ => None,
    }
}

/// The entry that `entry_get` finds is one of the entries.
pub proof fn lemma_entry_get_member(entries: Seq<(String, JsonValue)>, key: Seq<char>)
    requires
        entry_get(entries, key) is Some,
    ensures
        exists|i: int| 0 <= i < entries.len() && entry_get(entries, key) == Some(#[trigger] entries[i].1),
    decreases entries.len(),
{
    if entries[0].0@ != key {
        lemma_entry_get_member(entries.drop_first(), key);
        let i = choose|i: int|
            0 <= i < entries.drop_first().len() && entry_get(entries.drop_first(), key) == Some(
                #[trigger] entries.drop_first()[i].1,
            );
        assert(entries[i + 1].1 == entries.drop_first()[i].1);
    } else {
        assert(entries[0].1 == entries[0].1);
    }
}

/// A value found under a key lies strictly inside the object.
pub proof fn lemma_get_smaller(v: JsonValue, key: Seq<char>)
    requires
        json_get(v, key) is Some,
    ensures
        decreases_to!(v => json_get(v, key)->0),
{
    match v {
        JsonValue::Object(entries) => {
            lemma_entry_get_member(entries@, key);
            let i = choose|i: int|
                0 <= i < entries@.len() && entry_get(entries@, key) == Some(#[trigger] entries@[i].1);
            assert(decreases_to!(v => entries));
            assert(decreases_to!(entries => entries@));
            assert(decreases_to!(entries@ => entries@[i]));
            assert(decreases_to!(entries@[i] => entries@[i].1));
        },
        _ => {},
    }
}

// ---------------------------------------------------------------------------
// Storage types
// ---------------------------------------------------------------------------

/// The index of the last `::` in `p` at or before `i`.
pub open spec fn last_separator(p: Seq<char>, i: int) -> Option<int>
    decreases i + 1,
{
    if i < 0 {
        None
    } else if occurs_at(p, "::"@, i) {
        Some(i)
    } else {
        last_separator(p, i - 1)
    }
}

/// The last `::`-separated segment of a path (`rsplit("::").next()`).
pub open spec fn last_segment(p: Seq<char>) -> Seq<char> {
    match last_separator(p, p.len() - 2) {
        Some(i) => p.skip(i + 2),
        None => p,
    }
}

/// A FRAME storage type, by the last segment of its path.
pub open spec fn storage_kind(path: Seq<char>) -> Option<Seq<char>> {
    let name = last_segment(path);
    if name == "StorageValue"@ || name == "StorageMap"@ || name == "CountedStorageMap"@ || name
        == "StorageDoubleMap"@ || name == "StorageNMap"@ {
        Some(name)
    } else {
        None
    }
}

/// Which generic argument of a storage type is its value.
pub open spec fn value_index(kind: Seq<char>) -> int {
    if kind == "StorageValue"@ {
        1
    } else if kind == "StorageMap"@ || kind == "CountedStorageMap"@ {
        3
    } else if kind == "StorageDoubleMap"@ {
        5
    } else {
        2
    }
}

/// The path of a resolved type (`/resolved_path/path`).
pub open spec fn resolved_path(t: JsonValue) -> Option<Seq<char>> {
    json_str(json_get_in(json_get(t, "resolved_path"@), "path"@))
}

/// The generic arguments of a resolved type
/// (`/resolved_path/args/angle_bracketed/args`).
pub open spec fn type_args(t: JsonValue) -> Option<Seq<JsonValue>> {
    json_array(
        json_get_in(
            json_get_in(json_get_in(json_get(t, "resolved_path"@), "args"@), "angle_bracketed"@),
            "args"@,
        ),
    )
}

/// The generic arguments lie strictly inside the type.
pub proof fn lemma_type_args_smaller(t: JsonValue)
    requires
        type_args(t) is Some,
    ensures
        forall|i: int|
            0 <= i < type_args(t)->0.len() && json_get(#[trigger] type_args(t)->0[i], "type"@) is Some
                ==> decreases_to!(t => json_get(type_args(t)->0[i], "type"@)->0),
{
    let a = json_get(t, "resolved_path"@)->0;
    lemma_get_smaller(t, "resolved_path"@);
    let b = json_get(a, "args"@)->0;
    lemma_get_smaller(a, "args"@);
    let c = json_get(b, "angle_bracketed"@)->0;
    lemma_get_smaller(b, "angle_bracketed"@);
    let d = json_get(c, "args"@)->0;
    lemma_get_smaller(c, "args"@);
    match d {
        JsonValue::Array(vs) => {
            assert forall|i: int|
                0 <= i < vs@.len() && json_get(#[trigger] vs@[i], "type"@) is Some implies decreases_to!(
                t => json_get(vs@[i], "type"@)->0) by {
                assert(decreases_to!(d => vs));
                assert(decreases_to!(vs => vs@));
                assert(decreases_to!(vs@ => vs@[i]));
                lemma_get_smaller(vs@[i], "type"@);
            }
        },
        _ => {},
    }
}

/// An array's elements lie strictly inside it.
pub proof fn lemma_array_smaller(v: JsonValue, i: int)
    requires
        v is Array,
        0 <= i < v->Array_0@.len(),
    ensures
        decreases_to!(v => v->Array_0@[i]),
{
    match v {
        JsonValue::Array(vs) => {
            assert(decreases_to!(v => vs));
            assert(decreases_to!(vs => vs@));
            assert(decreases_to!(vs@ => vs@[i]));
        },
        _ => {},
    }
}

/// An object's values lie strictly inside it.
pub proof fn lemma_object_smaller(v: JsonValue, i: int)
    requires
        v is Object,
        0 <= i < v->Object_0@.len(),
    ensures
        decreases_to!(v => v->Object_0@[i].1),
{
    match v {
        JsonValue::Object(es) => {
            assert(decreases_to!(v => es));
            assert(decreases_to!(es => es@));
            assert(decreases_to!(es@ => es@[i]));
            assert(decreases_to!(es@[i] => es@[i].1));
        },
        _ => {},
    }
}

/// The storage kind and value type of a storage alias's type.
pub open spec fn storage_value_type(t: JsonValue) -> Option<(Seq<char>, JsonValue)> {
    match resolved_path(t) {
        None => None,
        Some(path) => match storage_kind(path) {
            None => None,
            Some(kind) => match type_args(t) {
                None => None,
                Some(args) => {
                    let k = value_index(kind);
                    if k < args.len() {
                        match json_get(args[k], "type"@) {
                            Some(v) => Some((kind, v)),
                            None => None,
                        }
                    } else {
                        None
                    }
                },
            },
        },
    }
}

/// A collection type with no bound on its length.
pub open spec fn is_unbounded_collection(name: Seq<char>) -> bool {
    name == "Vec"@ || name == "BTreeMap"@ || name == "BTreeSet"@ || name == "BinaryHeap"@ || name
        == "LinkedList"@ || name == "VecDeque"@
}

/// A collection type that carries a bound on its length.
pub open spec fn is_bounded_collection(name: Seq<char>) -> bool {
    name == "BoundedVec"@ || name == "WeakBoundedVec"@ || name == "BoundedBTreeMap"@ || name
        == "BoundedBTreeSet"@
}

/// The type `t` holds an unbounded collection that no bounded collection
/// around it (`inside_bounded`, or one on the way down) limits. A resolved
/// type is judged by its name and generic arguments; any other value by
/// everything it holds.
pub open spec fn contains_unbounded(t: JsonValue, inside_bounded: bool) -> bool
    decreases t,
{
    match resolved_path(t) {
        Some(path) => {
            let name = last_segment(path);
            let bounded = inside_bounded || is_bounded_collection(name);
            if !bounded && is_unbounded_collection(name) {
                true
            } else {
                match type_args(t) {
                    Some(args) => {
                        proof {
                            lemma_type_args_smaller(t);
                        }
                        exists|i: int|
                            0 <= i < args.len() && match json_get(#[trigger] args[i], "type"@) {
                                Some(ty) => contains_unbounded(ty, bounded),
                                None => false,
                            }
                    },
                    None => false,
                }
            }
        },
        None => match t {
            JsonValue::Array(vs) => exists|i: int|
                0 <= i < vs@.len() && contains_unbounded(#[trigger] vs@[i], inside_bounded),
            JsonValue::Object(es) => exists|i: int|
                0 <= i < es@.len() && contains_unbounded(#[trigger] es@[i].1, inside_bounded),
            _ => false,
        },
    }
}

/// Nothing nested inside a bounded collection is reported: with the
/// bounded flag set the walk finds no unbounded collection, so a value it
/// reports with the flag set it also reports without.
pub proof fn law_nothing_unbounded_inside_bounded(t: JsonValue)
    ensures
        !contains_unbounded(t, true),
        contains_unbounded(t, true) ==> contains_unbounded(t, false),
    decreases t,
{
    match resolved_path(t) {
        Some(path) => {
            match type_args(t) {
                Some(args) => {
                    lemma_type_args_smaller(t);
                    assert forall|i: int| 0 <= i < args.len() implies !(match json_get(
                        #[trigger] args[i],
                        "type"@,
                    ) {
                        Some(ty) => contains_unbounded(ty, true),
                        None => false,
                    }) by {
                        match json_get(args[i], "type"@) {
                            Some(ty) => law_nothing_unbounded_inside_bounded(ty),
                            None => {},
                        }
                    }
                },
                None => {},
            }
        },
        None => match t {
            JsonValue::Array(vs) => {
                assert forall|i: int| 0 <= i < vs@.len() implies !contains_unbounded(
                    #[trigger] vs@[i],
                    true,
                ) by {
                    lemma_array_smaller(t, i);
                    law_nothing_unbounded_inside_bounded(vs@[i]);
                }
            },
            JsonValue::Object(es) => {
                assert forall|i: int| 0 <= i < es@.len() implies !contains_unbounded(
                    #[trigger] es@[i].1,
                    true,
                ) by {
                    lemma_object_smaller(t, i);
                    law_nothing_unbounded_inside_bounded(es@[i].1);
                }
            },
            _ => {},
        },
    }
}

// ---------------------------------------------------------------------------
// Storage items
// ---------------------------------------------------------------------------

/// One of the item's attributes mentions `pallet::unbounded`.
pub open spec fn item_has_unbounded_attr(item: JsonValue) -> bool {
    match json_array(json_get(item, "attrs"@)) {
        Some(attrs) => exists|i: int|
            0 <= i < attrs.len() && match #[trigger] attrs[i] {
                JsonValue::String(a) => contains(a@, "pallet::unbounded"@),
                _ => false,
            },
        None => false,
    }
}

/// The item's docs say its capacity is limited, and do not admit that it is
/// unbounded (ASCII case ignored).
pub open spec fn docs_mark_capacity_limited(item: JsonValue) -> bool {
    match json_str(json_get(item, "docs"@)) {
        None => false,
        Some(docs) => {
            let lower = to_ascii_lowercase(docs);
            let admits_unbounded = contains(lower, "no global maximum"@) || contains(
                lower,
                "no global bound"@,
            ) || contains(lower, "unbounded"@);
            !admits_unbounded && contains(lower, "capacity"@) && (contains(lower, "limited"@)
                || contains(lower, "bounded"@) || contains(lower, "maximum"@) || contains(
                lower,
                "max "@,
            ))
        },
    }
}

/// The file the item's span names (`/span/filename`), or a placeholder.
pub open spec fn span_filename(item: JsonValue) -> Seq<char> {
    match json_str(json_get_in(json_get(item, "span"@), "filename"@)) {
        Some(f) => f,
        None => "<rustdoc-json>"@,
    }
}

/// The item's file: a relative file name is joined to the source root when
/// one is given.
pub open spec fn span_file(item: JsonValue, source_root: Option<Seq<char>>) -> Seq<char> {
    let f = span_filename(item);
    match source_root {
        Some(root) => if std_path_is_relative(f) {
            std_path_join(root, f)
        } else {
            f
        },
        None => f,
    }
}

/// The item's span start (`/span/begin`).
pub open spec fn span_begin(item: JsonValue) -> Option<Seq<JsonValue>> {
    json_array(json_get_in(json_get(item, "span"@), "begin"@))
}

/// The item's line: the first number of its span start, else 1.
pub open spec fn span_line(item: JsonValue) -> nat {
    let n: u64 = match span_begin(item) {
        Some(b) => if b.len() > 0 {
            match json_u64(Some(b[0])) {
                Some(n) => n,
                None => 1,
            }
        } else {
            1
        },
        None => 1,
    };
    (n as usize) as nat
}

/// The item's column: the second number of its span start, if any.
pub open spec fn span_column(item: JsonValue) -> Option<nat> {
    match span_begin(item) {
        Some(b) => if b.len() > 1 {
            match json_u64(Some(b[1])) {
                Some(n) => Some((n as usize) as nat),
                None => None,
            }
        } else {
            None
        },
        None => None,
    }
}

/// The item's name, or a placeholder.
pub open spec fn item_name(item: JsonValue) -> Seq<char> {
    match json_str(json_get(item, "name"@)) {
        Some(n) => n,
        None => "<unnamed storage>"@,
    }
}

/// The type a type alias stands for (`/inner/type_alias/type`).
pub open spec fn alias_type(item: JsonValue) -> Option<JsonValue> {
    json_get_in(json_get_in(json_get(item, "inner"@), "type_alias"@), "type"@)
}

/// The `SEC013` diagnostic for an item: a storage alias whose value type
/// holds an unbounded collection, unless an attribute or its docs mark it.
pub open spec fn storage_finding(item: JsonValue, source_root: Option<Seq<char>>, sev: Severity) -> Option<DiagnosticModel> {
    match alias_type(item) {
        None => None,
        Some(alias) => match storage_value_type(alias) {
            None => None,
            Some((kind, value)) => if item_has_unbounded_attr(item) || docs_mark_capacity_limited(
                item,
            ) || !contains_unbounded(value, false) {
                None
            } else {
                Some(
                    DiagnosticModel {
                        rule_id: "SEC013"@,
                        rule_name: "unbounded-storage-collections"@,
                        category: RuleCategory::Semantic,
                        severity: sev,
                        file: span_file(item, source_root),
                        line: span_line(item),
                        column: span_column(item),
                        end_line: None,
                        message: "`"@ + item_name(item) + "` stores an unbounded collection in `"@
                            + kind + "`"@,
                        explanation: "rustdoc JSON resolved this storage alias to a FRAME storage type whose value argument contains an unbounded collection such as `Vec` or `BTreeMap`. Unbounded storage values can grow without a local type-level limit and make every access pay state-size-dependent decode cost."@,
                        suggestion: Some(
                            "Use a bounded collection wrapper or document and explicitly mark the storage as unbounded"@,
                        ),
                    },
                )
            },
        },
    }
}

/// The diagnostics of the index's items, in the index's order.
pub open spec fn storage_findings(
    entries: Seq<(String, JsonValue)>,
    source_root: Option<Seq<char>>,
    sev: Severity,
) -> Seq<DiagnosticModel>
    decreases entries.len(),
{
    if entries.len() == 0 {
        seq![]
    } else {
        let rest = storage_findings(entries.drop_last(), source_root, sev);
        match storage_finding(entries.last().1, source_root, sev) {
            Some(d) => rest.push(d),
            None => rest,
        }
    }
}

/// The index of a rustdoc JSON document, when it is an object.
pub open spec fn rustdoc_index(root: JsonValue) -> Option<Seq<(String, JsonValue)>> {
    match json_get(root, "index"@) {
        Some(JsonValue::Object(es)) => Some(es@),
        _ => None,
    }
}

// ---------------------------------------------------------------------------
// Order of the report
// ---------------------------------------------------------------------------

/// `a` sorts before `b`: by file (as paths), then line.
pub open spec fn location_less(a: DiagnosticModel, b: DiagnosticModel) -> bool {
    std_path_less(a.file, b.file) || (!std_path_less(a.file, b.file) && !std_path_less(
        b.file,
        a.file,
    ) && a.line < b.line)
}

/// `x` inserted into `s` after every entry it does not sort before.
pub open spec fn insert_by_location(s: Seq<DiagnosticModel>, x: DiagnosticModel) -> Seq<DiagnosticModel>
    decreases s.len(),
{
    if s.len() == 0 {
        seq![x]
    } else if location_less(x, s.last()) {
        insert_by_location(s.drop_last(), x).push(s.last())
    } else {
        s.push(x)
    }
}

/// `s` stably sorted by `location_less`.
pub open spec fn sort_by_location(s: Seq<DiagnosticModel>) -> Seq<DiagnosticModel>
    decreases s.len(),
{
    if s.len() == 0 {
        seq![]
    } else {
        insert_by_location(sort_by_location(s.drop_last()), s.last())
    }
}

// ---------------------------------------------------------------------------
// Executable readers
// ---------------------------------------------------------------------------

/// A borrowed optional value stands for the optional value `o`.
pub open spec fn refers_to(r: Option<&JsonValue>, o: Option<JsonValue>) -> bool {
    match r {
        Some(c) => o == Some(*c),
        None => o is None,
    }
}

/// `Value::get` with a key.
pub fn get<'a>(v: &'a JsonValue, key: &str) -> (r: Option<&'a JsonValue>)
    ensures
        refers_to(r, json_get(*v, key@)),
{
    match v {
        JsonValue::Object(entries) => {
            let k = chars_of(key);
            let mut i: usize = 0;
            assert(entries@.skip(0) =~= entries@);
            assert(json_get(*v, key@) == entry_get(entries@, key@));
            while i < entries.len()
                invariant
                    i <= entries@.len(),
                    k@ == key@,
                    json_get(*v, key@) == entry_get(entries@, key@),
                    entry_get(entries@, key@) == entry_get(entries@.skip(i as int), key@),
                decreases entries.len() - i,
            {
                assert(entries@.skip(i as int)[0] == entries@[i as int]);
                assert(entries@.skip(i as int).drop_first() =~= entries@.skip(i + 1));
                if equals_str(&chars_of(entries[i].0.as_str()), key) {
                    assert(entries@.skip(i as int)[0].0@ == key@);
                    assert(entry_get(entries@.skip(i as int), key@) == Some(entries@[i as int].1));
                    let r = &entries[i].1;
                    assert(*r == entries@[i as int].1);
                    assert(json_get(*v, key@) == entry_get(entries@, key@));
                    return Some(r);
                }
                i += 1;
            }
            None
        },
        _ => None,
    }
}

/// `json_get` on a borrowed optional value.
pub fn get_in<'a>(o: Option<&'a JsonValue>, key: &str) -> (r: Option<&'a JsonValue>)
    ensures
        forall|x: Option<JsonValue>| refers_to(o, x) ==> refers_to(r, json_get_in(x, key@)),
{
    match o {
        Some(v) => get(v, key),
        None => None,
    }
}

/// `Value::as_str`.
pub fn as_str<'a>(o: Option<&'a JsonValue>) -> (r: Option<&'a String>)
    ensures
        forall|x: Option<JsonValue>|
            refers_to(o, x) ==> match r {
                Some(s) => json_str(x) == Some(s@),
                None => json_str(x) is None,
            },
{
    match o {
        Some(JsonValue::String(s)) => Some(s),
        _ => None,
    }
}

/// `Value::as_array`.
pub fn as_array<'a>(o: Option<&'a JsonValue>) -> (r: Option<&'a Vec<JsonValue>>)
    ensures
        forall|x: Option<JsonValue>|
            refers_to(o, x) ==> match r {
                Some(vs) => json_array(x) == Some(vs@),
                None => json_array(x) is None,
            },
{
    match o {
        Some(JsonValue::Array(vs)) => Some(vs),
        _ => None,
    }
}

/// `Value::as_u64`.
pub fn as_u64(o: Option<&JsonValue>) -> (r: Option<u64>)
    ensures
        forall|x: Option<JsonValue>| refers_to(o, x) ==> r == json_u64(x),
{
    match o {
        Some(JsonValue::Number(n)) => *n,
        _ => None,
    }
}

/// The last `::`-separated segment of a path.
pub fn last_segment_exec(p: &Vec<char>) -> (r: Vec<char>)
    ensures
        r@ == last_segment(p@),
{
    let sep = chars_of("::");
    let mut i: usize = p.len();
    while i >= 2
        invariant
            i <= p@.len(),
            sep@ == "::"@,
            last_separator(p@, p@.len() - 2) == last_separator(p@, i - 2),
        decreases i,
    {
        if occurs_at_exec(p, &sep, i - 2) {
            let mut r: Vec<char> = Vec::new();
            let mut k: usize = i;
            while k < p.len()
                invariant
                    i <= k <= p@.len(),
                    r@ == p@.subrange(i as int, k as int),
                decreases p.len() - k,
            {
                r.push(p[k]);
                k += 1;
                assert(r@ =~= p@.subrange(i as int, k as int));
            }
            assert(p@.subrange(i as int, p@.len() as int) =~= p@.skip(i as int));
            return r;
        }
        i -= 1;
    }
    let mut r: Vec<char> = Vec::new();
    let mut k: usize = 0;
    while k < p.len()
        invariant
            k <= p@.len(),
            r@ == p@.take(k as int),
        decreases p.len() - k,
    {
        r.push(p[k]);
        k += 1;
        assert(r@ =~= p@.take(k as int));
    }
    assert(p@.take(p@.len() as int) =~= p@);
    r
}

/// The storage kind of a path, by its last segment.
fn storage_kind_exec(path: &Vec<char>) -> (r: Option<Vec<char>>)
    ensures
        match r {
            Some(k) => storage_kind(path@) == Some(k@),
            None => storage_kind(path@) is None,
        },
{
    let name = last_segment_exec(path);
    if equals_str(&name, "StorageValue") || equals_str(&name, "StorageMap") || equals_str(
        &name,
        "CountedStorageMap",
    ) || equals_str(&name, "StorageDoubleMap") || equals_str(&name, "StorageNMap") {
        Some(name)
    } else {
        None
    }
}

/// Which generic argument of a storage type is its value.
fn value_index_exec(kind: &Vec<char>) -> (r: usize)
    ensures
        r == value_index(kind@),
{
    if equals_str(kind, "StorageValue") {
        1
    } else if equals_str(kind, "StorageMap") || equals_str(kind, "CountedStorageMap") {
        3
    } else if equals_str(kind, "StorageDoubleMap") {
        5
    } else {
        2
    }
}

/// The path of a resolved type.
fn resolved_path_exec(t: &JsonValue) -> (r: Option<Vec<char>>)
    ensures
        match r {
            Some(p) => resolved_path(*t) == Some(p@),
            None => resolved_path(*t) is None,
        },
{
    match as_str(get_in(get(t, "resolved_path"), "path")) {
        Some(p) => Some(chars_of(p.as_str())),
        None => None,
    }
}

/// The generic arguments of a resolved type.
fn type_args_exec(t: &JsonValue) -> (r: Option<&Vec<JsonValue>>)
    ensures
        match r {
            Some(args) => type_args(*t) == Some(args@),
            None => type_args(*t) is None,
        },
{
    as_array(get_in(get_in(get_in(get(t, "resolved_path"), "args"), "angle_bracketed"), "args"))
}

/// The storage kind and value type of a storage alias's type.
fn storage_value_type_exec(t: &JsonValue) -> (r: Option<(Vec<char>, &JsonValue)>)
    ensures
        match r {
            Some((kind, v)) => storage_value_type(*t) == Some((kind@, *v)),
            None => storage_value_type(*t) is None,
        },
{
    let path = match resolved_path_exec(t) {
        Some(p) => p,
        None => return None,
    };
    let kind = match storage_kind_exec(&path) {
        Some(k) => k,
        None => return None,
    };
    let args = match type_args_exec(t) {
        Some(a) => a,
        None => return None,
    };
    let k = value_index_exec(&kind);
    if k < args.len() {
        match get(&args[k], "type") {
            Some(v) => Some((kind, v)),
            None => None,
        }
    } else {
        None
    }
}

/// A collection type with no bound on its length.
fn is_unbounded_collection_exec(name: &Vec<char>) -> (r: bool)
    ensures
        r == is_unbounded_collection(name@),
{
    equals_str(name, "Vec") || equals_str(name, "BTreeMap") || equals_str(name, "BTreeSet")
        || equals_str(name, "BinaryHeap") || equals_str(name, "LinkedList") || equals_str(
        name,
        "VecDeque",
    )
}

/// A collection type that carries a bound on its length.
fn is_bounded_collection_exec(name: &Vec<char>) -> (r: bool)
    ensures
        r == is_bounded_collection(name@),
{
    equals_str(name, "BoundedVec") || equals_str(name, "WeakBoundedVec") || equals_str(
        name,
        "BoundedBTreeMap",
    ) || equals_str(name, "BoundedBTreeSet")
}

/// Whether the type `t` holds an unbounded collection that no bounded
/// collection around it limits.
pub fn contains_unbounded_exec(t: &JsonValue, inside_bounded: bool) -> (r: bool)
    ensures
        r == contains_unbounded(*t, inside_bounded),
    decreases *t,
{
    match resolved_path_exec(t) {
        Some(path) => {
            let name = last_segment_exec(&path);
            let bounded = inside_bounded || is_bounded_collection_exec(&name);
            if !bounded && is_unbounded_collection_exec(&name) {
                return true;
            }
            match type_args_exec(t) {
                Some(args) => {
                    proof {
                        lemma_type_args_smaller(*t);
                    }
                    let mut i: usize = 0;
                    while i < args.len()
                        invariant
                            i <= args@.len(),
                            type_args(*t) == Some(args@),
                            resolved_path(*t) is Some,
                            bounded == (inside_bounded || is_bounded_collection(last_segment(resolved_path(*t)->0))),
                            bounded || !is_unbounded_collection(last_segment(resolved_path(*t)->0)),
                            forall|j: int|
                                0 <= j < i ==> !match json_get(#[trigger] args@[j], "type"@) {
                                    Some(ty) => contains_unbounded(ty, bounded),
                                    None => false,
                                },
                        decreases args.len() - i,
                    {
                        proof {
                            lemma_type_args_smaller(*t);
                        }
                        match get(&args[i], "type") {
                            Some(ty) => {
                                assert(json_get(args@[i as int], "type"@) == Some(*ty));
                                assert(decreases_to!(*t => *ty));
                                if contains_unbounded_exec(ty, bounded) {
                                    assert(exists|j: int|
                                        0 <= j < args@.len() && match json_get(#[trigger] args@[j], "type"@) {
                                            Some(ty2) => contains_unbounded(ty2, bounded),
                                            None => false,
                                        });
                                    assert(contains_unbounded(*t, inside_bounded));
                                    return true;
                                }
                            },
                            None => {},
                        }
                        i += 1;
                    }
                    false
                },
                None => false,
            }
        },
        None => match t {
            JsonValue::Array(vs) => {
                let mut i: usize = 0;
                while i < vs.len()
                    invariant
                        i <= vs@.len(),
                        resolved_path(*t) is None,
                        *t == JsonValue::Array(*vs),
                        forall|j: int| 0 <= j < i ==> !contains_unbounded(#[trigger] vs@[j], inside_bounded),
                    decreases vs.len() - i,
                {
                    proof {
                        lemma_array_smaller(*t, i as int);
                    }
                    if contains_unbounded_exec(&vs[i], inside_bounded) {
                        return true;
                    }
                    i += 1;
                }
                false
            },
            JsonValue::Object(es) => {
                let mut i: usize = 0;
                while i < es.len()
                    invariant
                        i <= es@.len(),
                        resolved_path(*t) is None,
                        *t == JsonValue::Object(*es),
                        forall|j: int| 0 <= j < i ==> !contains_unbounded(#[trigger] es@[j].1, inside_bounded),
                    decreases es.len() - i,
                {
                    proof {
                        lemma_object_smaller(*t, i as int);
                    }
                    if contains_unbounded_exec(&es[i].1, inside_bounded) {
                        return true;
                    }
                    i += 1;
                }
                false
            },
            _ => false,
        },
    }
}

/// Whether one of the item's attributes mentions `pallet::unbounded`.
fn item_has_unbounded_attr_exec(item: &JsonValue) -> (r: bool)
    ensures
        r == item_has_unbounded_attr(*item),
{
    match as_array(get(item, "attrs")) {
        Some(attrs) => {
            let mut i: usize = 0;
            while i < attrs.len()
                invariant
                    i <= attrs@.len(),
                    json_array(json_get(*item, "attrs"@)) == Some(attrs@),
                    forall|j: int|
                        0 <= j < i ==> !match #[trigger] attrs@[j] {
                            JsonValue::String(a) => contains(a@, "pallet::unbounded"@),
                            _ => false,
                        },
                decreases attrs.len() - i,
            {
                match &attrs[i] {
                    JsonValue::String(a) => {
                        if contains_str(&chars_of(a.as_str()), "pallet::unbounded") {
                            return true;
                        }
                    },
                    _ => {},
                }
                i += 1;
            }
            false
        },
        None => false,
    }
}

/// Whether the item's docs say its capacity is limited without admitting it
/// is unbounded.
fn docs_mark_capacity_limited_exec(item: &JsonValue) -> (r: bool)
    ensures
        r == docs_mark_capacity_limited(*item),
{
    match as_str(get(item, "docs")) {
        None => false,
        Some(docs) => {
            let lower = to_ascii_lowercase_exec(&chars_of(docs.as_str()));
            let admits_unbounded = contains_str(&lower, "no global maximum") || contains_str(
                &lower,
                "no global bound",
            ) || contains_str(&lower, "unbounded");
            !admits_unbounded && contains_str(&lower, "capacity") && (contains_str(&lower, "limited")
                || contains_str(&lower, "bounded") || contains_str(&lower, "maximum")
                || contains_str(&lower, "max "))
        },
    }
}

/// The item's file, line and column.
fn span_location_exec(item: &JsonValue, source_root: &Option<String>) -> (r: (String, usize, Option<usize>))
    ensures
        r.0@ == span_file(*item, opt_text(*source_root)),
        r.1 as nat == span_line(*item),
        opt_nat(r.2) == span_column(*item),
{
    let filename = match as_str(get_in(get(item, "span"), "filename")) {
        Some(f) => f.clone(),
        None => "<rustdoc-json>".to_owned(),
    };
    let file = match source_root {
        Some(root) => if path_is_relative(filename.as_str()) {
            path_join(root.as_str(), filename.as_str())
        } else {
            filename
        },
        None => filename,
    };
    let begin = as_array(get_in(get(item, "span"), "begin"));
    let first: u64 = match begin {
        Some(b) => if b.len() > 0 {
            match as_u64(Some(&b[0])) {
                Some(n) => n,
                None => 1,
            }
        } else {
            1
        },
        None => 1,
    };
    let column = match begin {
        Some(b) => if b.len() > 1 {
            match as_u64(Some(&b[1])) {
                Some(n) => Some(n as usize),
                None => None,
            }
        } else {
            None
        },
        None => None,
    };
    (file, first as usize, column)
}

/// The item's name, or a placeholder.
fn item_name_exec(item: &JsonValue) -> (r: String)
    ensures
        r@ == item_name(*item),
{
    match as_str(get(item, "name")) {
        Some(n) => n.clone(),
        None => "<unnamed storage>".to_owned(),
    }
}

/// The `SEC013` diagnostic for an item, if it is a storage alias whose value
/// type holds an unbounded collection that nothing marks.
pub fn storage_finding_exec(item: &JsonValue, source_root: &Option<String>, severity: Severity) -> (r: Option<Diagnostic>)
    ensures
        match r {
            Some(d) => storage_finding(*item, opt_text(*source_root), severity) == Some(d@),
            None => storage_finding(*item, opt_text(*source_root), severity) is None,
        },
{
    let alias = match get_in(get_in(get(item, "inner"), "type_alias"), "type") {
        Some(a) => a,
        None => return None,
    };
    let (kind, value) = match storage_value_type_exec(alias) {
        Some(p) => p,
        None => return None,
    };
    if item_has_unbounded_attr_exec(item) || docs_mark_capacity_limited_exec(item)
        || !contains_unbounded_exec(value, false) {
        return None;
    }
    let (file, line, column) = span_location_exec(item, source_root);
    let name = item_name_exec(item);
    let message = "`".to_owned().concat(name.as_str()).concat(
        "` stores an unbounded collection in `",
    ).concat(string_of(&kind).as_str()).concat("`");
    Some(
        make_diagnostic(
            "SEC013",
            "unbounded-storage-collections",
            RuleCategory::Semantic,
            severity,
            &file,
            line,
            column,
            None,
            message,
            "rustdoc JSON resolved this storage alias to a FRAME storage type whose value argument contains an unbounded collection such as `Vec` or `BTreeMap`. Unbounded storage values can grow without a local type-level limit and make every access pay state-size-dependent decode cost.",
            Some(
                "Use a bounded collection wrapper or document and explicitly mark the storage as unbounded".to_owned(),
            ),
        ),
    )
}

/// Inserting where the entries from `p` on all sort after `x` and the one
/// before does not is what `insert_by_location` does.
pub proof fn lemma_insert_by_location_at(m: Seq<DiagnosticModel>, x: DiagnosticModel, p: int)
    requires
        0 <= p <= m.len(),
        forall|t: int| p <= t < m.len() ==> location_less(x, #[trigger] m[t]),
        p == 0 || !location_less(x, m[p - 1]),
    ensures
        insert_by_location(m, x) == m.insert(p, x),
    decreases m.len(),
{
    if m.len() == 0 {
        assert(m.insert(p, x) =~= seq![x]);
    } else if location_less(x, m.last()) {
        assert(p < m.len());
        lemma_insert_by_location_at(m.drop_last(), x, p);
        assert(m.drop_last().insert(p, x).push(m.last()) =~= m.insert(p, x));
    } else {
        assert(p == m.len());
        assert(m.push(x) =~= m.insert(p, x));
    }
}

/// Inserting adds the entry to the multiset of entries.
pub proof fn lemma_insert_by_location_multiset(m: Seq<DiagnosticModel>, x: DiagnosticModel)
    ensures
        insert_by_location(m, x).to_multiset() == m.to_multiset().insert(x),
    decreases m.len(),
{
    broadcast use vstd::seq_lib::group_to_multiset_ensures;
    if m.len() == 0 {
        assert(seq![x] =~= Seq::<DiagnosticModel>::empty().push(x));
    } else if location_less(x, m.last()) {
        lemma_insert_by_location_multiset(m.drop_last(), x);
        assert(m =~= m.drop_last().push(m.last()));
        assert(insert_by_location(m, x).to_multiset() =~= m.to_multiset().insert(x));
    }
}

/// Sorting the report by location neither loses nor repeats a diagnostic:
/// the sorted report holds each diagnostic as many times as the unsorted one.
pub proof fn law_sort_by_location_is_permutation(s: Seq<DiagnosticModel>)
    ensures
        sort_by_location(s).to_multiset() == s.to_multiset(),
    decreases s.len(),
{
    broadcast use vstd::seq_lib::group_to_multiset_ensures;
    if s.len() > 0 {
        law_sort_by_location_is_permutation(s.drop_last());
        lemma_insert_by_location_multiset(sort_by_location(s.drop_last()), s.last());
        assert(s =~= s.drop_last().push(s.last()));
    }
}

/// Whether `a` sorts before `b` by file and line.
fn location_less_exec(a: &Diagnostic, b: &Diagnostic) -> (r: bool)
    ensures
        r == location_less(a@, b@),
{
    let ab = path_less(a.file.as_str(), b.file.as_str());
    let ba = path_less(b.file.as_str(), a.file.as_str());
    ab || (!ab && !ba && a.line < b.line)
}

/// Sorts diagnostics stably by file (as paths) and line.
pub fn sort_by_location_exec(found: Vec<Diagnostic>) -> (r: Vec<Diagnostic>)
    ensures
        models(r@) == sort_by_location(models(found@)),
{
    let ghost input = models(found@);
    let mut rest = found;
    let mut out: Vec<Diagnostic> = Vec::new();
    let ghost mut n: int = 0;
    assert(input.skip(0) =~= input);
    assert(input.take(0) =~= Seq::<DiagnosticModel>::empty());
    while rest.len() > 0
        invariant
            0 <= n <= input.len(),
            input.len() == n + rest@.len(),
            models(rest@) == input.skip(n),
            models(out@) == sort_by_location(input.take(n)),
        decreases rest.len(),
    {
        let ghost old_rest = rest@;
        let ghost mo = models(out@);
        let d = rest.remove(0);
        proof {
            assert(rest@ =~= old_rest.drop_first());
            assert(models(rest@) =~= models(old_rest).drop_first());
            assert(input.skip(n)[0] == input[n]);
            assert(input.skip(n).drop_first() =~= input.skip(n + 1));
            assert(input.take(n + 1).drop_last() =~= input.take(n));
        }
        let mut p: usize = out.len();
        while p > 0 && location_less_exec(&d, &out[p - 1])
            invariant
                p <= out@.len(),
                mo == models(out@),
                forall|t: int| p <= t < mo.len() ==> location_less(d@, #[trigger] mo[t]),
            decreases p,
        {
            p -= 1;
        }
        proof {
            lemma_insert_by_location_at(mo, d@, p as int);
        }
        let ghost dv = d@;
        out.insert(p, d);
        assert(models(out@) =~= mo.insert(p as int, dv));
        proof {
            n = n + 1;
        }
    }
    assert(input.take(n) =~= input);
    out
}

/// The `SEC013` report of a parsed rustdoc JSON document: nothing when the
/// rule is disabled; an error when the document did not parse (`parsed`
/// holds the parser's message) or has no object at `index`; else the
/// diagnostics of the index's items, sorted by file and line.
pub fn analyze_rustdoc_json_value(
    parsed: Result<JsonValue, String>,
    source_root: Option<String>,
    config: &Config,
) -> (r: Result<Vec<Diagnostic>, String>)
    ensures
        !config.spec_rule_enabled("SEC013"@) ==> r is Ok && r->Ok_0@.len() == 0,
        config.spec_rule_enabled("SEC013"@) ==> match parsed {
            Err(m) => r is Err && r->Err_0@ == "invalid rustdoc JSON: "@ + m@,
            Ok(root) => match rustdoc_index(root) {
                None => r is Err && r->Err_0@ == "rustdoc JSON did not contain an object at `index`"@,
                Some(es) => r is Ok && models(r->Ok_0@) == sort_by_location(
                    storage_findings(
                        es,
                        opt_text(source_root),
                        config.spec_rule_severity("SEC013"@, Severity::Warning),
                    ),
                ),
            },
        },
{
    if !config.rule_enabled("SEC013") {
        return Ok(Vec::new());
    }
    let root = match parsed {
        Ok(v) => v,
        Err(m) => return Err("invalid rustdoc JSON: ".to_owned().concat(m.as_str())),
    };
    let entries = match get(&root, "index") {
        Some(JsonValue::Object(es)) => es,
        _ => return Err("rustdoc JSON did not contain an object at `index`".to_owned()),
    };
    let severity = config.rule_severity("SEC013", Severity::Warning);
    let ghost sr = opt_text(source_root);
    let mut found: Vec<Diagnostic> = Vec::new();
    let mut i: usize = 0;
    assert(entries@.take(0) =~= Seq::<(String, JsonValue)>::empty());
    while i < entries.len()
        invariant
            i <= entries@.len(),
            sr == opt_text(source_root),
            models(found@) == storage_findings(entries@.take(i as int), sr, severity),
        decreases entries.len() - i,
    {
        assert(entries@.take(i + 1).drop_last() =~= entries@.take(i as int));
        assert(entries@.take(i + 1).last() == entries@[i as int]);
        match storage_finding_exec(&entries[i].1, &source_root, severity) {
            Some(d) => {
                let ghost before = found@;
                found.push(d);
                assert(models(found@) =~= models(before).push(d@));
            },
            None => {},
        }
        i += 1;
    }
    assert(entries@.take(entries@.len() as int) =~= entries@);
    Ok(sort_by_location_exec(found))
}

/// The `SEC013` report of a rustdoc JSON document's text: nothing when the
/// rule is disabled; an error when the text does not parse as JSON or has no
/// object at `index`; else the diagnostics of the index's items, sorted by
/// file and line.
pub fn analyze_rustdoc_json_str(
    content: &str,
    source_root: Option<String>,
    config: &Config,
) -> (r: Result<Vec<Diagnostic>, String>)
    ensures
        !config.spec_rule_enabled("SEC013"@) ==> r is Ok && r->Ok_0@.len() == 0,
        config.spec_rule_enabled("SEC013"@) ==> match json_parsed(content@) {
            Err(m) => r is Err && r->Err_0@ == "invalid rustdoc JSON: "@ + m,
            Ok(root) => match rustdoc_index(root) {
                None => r is Err && r->Err_0@ == "rustdoc JSON did not contain an object at `index`"@,
                Some(es) => r is Ok && models(r->Ok_0@) == sort_by_location(
                    storage_findings(
                        es,
                        opt_text(source_root),
                        config.spec_rule_severity("SEC013"@, Severity::Warning),
                    ),
                ),
            },
        },
{
    if !config.rule_enabled("SEC013") {
        return Ok(Vec::new());
    }
    analyze_rustdoc_json_value(parse_json(content), source_root, config)
}

} // verus!
