//! What a file's path and its parent module say about it: test-only
//! locations, runtime locations, and modules declared under a test `cfg`.
use vstd::prelude::*;
use crate::diagnostics::opt_text;
use crate::rules::masks::{is_masked_cfg_attribute, spec_is_masked_cfg_attribute};
use crate::text::{
    lines_of, split_lines,
    chars_of, contains, contains_str, ends_with, ends_with_str, equals_str, is_ascii_alnum,
    is_ascii_alnum_exec, lines_view, starts_with, starts_with_str, to_ascii_lowercase,
    to_ascii_lowercase_exec, trim, trim_exec,
};

verus! {

// ---------------------------------------------------------------------------
// `std::path` operations
// ---------------------------------------------------------------------------

/// What `Path::file_name` gives for the path `p`.
pub uninterp spec fn std_path_file_name(p: Seq<char>) -> Option<Seq<char>>;

/// What `Path::file_stem` gives for the path `p`.
pub uninterp spec fn std_path_file_stem(p: Seq<char>) -> Option<Seq<char>>;

/// What `Path::parent` gives for the path `p`.
pub uninterp spec fn std_path_parent(p: Seq<char>) -> Option<Seq<char>>;

/// What `Path::join` gives for the paths `a` and `b`.
pub uninterp spec fn std_path_join(a: Seq<char>, b: Seq<char>) -> Seq<char>;

/// What `Path::with_extension` gives for the path `p` and extension `ext`.
pub uninterp spec fn std_path_with_extension(p: Seq<char>, ext: Seq<char>) -> Seq<char>;

/// What `Path::eq` says of the paths `a` and `b`.
pub uninterp spec fn std_path_eq(a: Seq<char>, b: Seq<char>) -> bool;

/// What `Path::is_relative` says of the path `p`.
pub uninterp spec fn std_path_is_relative(p: Seq<char>) -> bool;

/// What `Path`'s `<` (component-wise order) says of the paths `a` and `b`.
pub uninterp spec fn std_path_less(a: Seq<char>, b: Seq<char>) -> bool;

/// Calls `std::path::Path::is_relative` on `p`; the result is named
/// `std_path_is_relative(p)`.
#[verifier::external_body]
pub(crate) fn path_is_relative(p: &str) -> (r: bool)
    ensures
        r == std_path_is_relative(p@),
{
    std::path::Path::new(p).is_relative()
}

/// Compares two paths with `Path`'s `<`; the result is named
/// `std_path_less(a, b)`.
#[verifier::external_body]
pub(crate) fn path_less(a: &str, b: &str) -> (r: bool)
    ensures
        r == std_path_less(a@, b@),
{
    std::path::Path::new(a) < std::path::Path::new(b)
}

/// Calls `std::path::Path::file_name` on `p`; the result is named
/// `std_path_file_name(p)`. The name of a path given as a `&str` is valid
/// UTF-8, so the lossy conversion back to a string loses nothing.
#[verifier::external_body]
pub(crate) fn path_file_name(p: &str) -> (r: Option<String>)
    ensures
        opt_text(r) == std_path_file_name(p@),
{
    std::path::Path::new(p).file_name().map(|n| n.to_string_lossy().into_owned())
}

/// Calls `std::path::Path::file_stem` on `p`; the result is named
/// `std_path_file_stem(p)`.
#[verifier::external_body]
fn path_file_stem(p: &str) -> (r: Option<String>)
    ensures
        opt_text(r) == std_path_file_stem(p@),
{
    std::path::Path::new(p).file_stem().map(|n| n.to_string_lossy().into_owned())
}

/// Calls `std::path::Path::parent` on `p`; the result is named
/// `std_path_parent(p)`.
#[verifier::external_body]
pub(crate) fn path_parent(p: &str) -> (r: Option<String>)
    ensures
        opt_text(r) == std_path_parent(p@),
{
    std::path::Path::new(p).parent().map(|n| n.to_string_lossy().into_owned())
}

/// Calls `std::path::Path::join`; the result is named `std_path_join(a, b)`.
#[verifier::external_body]
pub(crate) fn path_join(a: &str, b: &str) -> (r: String)
    ensures
        r@ == std_path_join(a@, b@),
{
    std::path::Path::new(a).join(b).to_string_lossy().into_owned()
}

/// Calls `std::path::Path::with_extension`; the result is named
/// `std_path_with_extension(p, ext)`. The call panics when the extension
/// holds a path separator, so such an extension is not admitted.
#[verifier::external_body]
fn path_with_extension(p: &str, ext: &str) -> (r: String)
    requires
        forall|i: int| 0 <= i < ext@.len() ==> ext@[i] != '/' && ext@[i] != '\\',
    ensures
        r@ == std_path_with_extension(p@, ext@),
{
    std::path::Path::new(p).with_extension(ext).to_string_lossy().into_owned()
}

/// Compares two paths with `Path`'s `==` (component-wise); the result is
/// named `std_path_eq(a, b)`.
#[verifier::external_body]
fn path_eq(a: &str, b: &str) -> (r: bool)
    ensures
        r == std_path_eq(a@, b@),
{
    std::path::Path::new(a) == std::path::Path::new(b)
}

// ---------------------------------------------------------------------------
// Path classifiers
// ---------------------------------------------------------------------------

/// The path lies in a test, mock, fixture, benchmark-helper or tooling
/// location, or is a test or mock file by its name.
pub open spec fn spec_is_pure_test_path(p: Seq<char>) -> bool {
    let file_name = match std_path_file_name(p) {
        Some(n) => n,
        None => Seq::<char>::empty(),
    };
    ||| contains(p, "/tests/"@)
    ||| contains(p, "/test/"@)
    ||| contains(p, "/test-runtime/"@)
    ||| contains(p, "/test-staking-e2e/"@)
    ||| contains(p, "/test-utils/"@)
    ||| contains(p, "/ui-tests/"@)
    ||| contains(p, "/mocks/"@)
    ||| contains(p, "/mock/"@)
    ||| contains(p, "/mock-"@)
    ||| contains(p, "/remote-tests/"@)
    ||| contains(p, "/fuzzer/"@)
    ||| contains(p, "/fixtures/"@)
    ||| contains(p, "/conformance_tests/"@)
    ||| contains(p, "/subsystem-bench/"@)
    ||| contains(p, "-benchmarking/"@)
    ||| contains(p, "/test-common/"@)
    ||| contains(p, "/test_utils/"@)
    ||| contains(p, "/testing/"@)
    ||| contains(p, "/bench/"@)
    ||| contains(p, "/frame/root-offences/"@)
    ||| contains(p, "/parachains/pallets/ping/"@)
    ||| contains(p, "integration_tests"@)
    ||| contains(p, "integration-tests"@)
    ||| contains(p, "send-tx/"@)
    ||| ends_with(p, "_test.rs"@)
    ||| ends_with(p, "_tests.rs"@)
    ||| ends_with(p, "tests.rs"@)
    ||| file_name == "build.rs"@
    ||| starts_with(file_name, "mock_"@)
    ||| file_name == "mock.rs"@
    ||| file_name == "remote_mining.rs"@
    ||| file_name == "test_utils.rs"@
    ||| file_name == "testing.rs"@
    ||| file_name == "testing_utils.rs"@
}

fn path_contains_any(p: &Vec<char>) -> (r: bool)
    ensures
        r == (contains(p@, "/tests/"@) || contains(p@, "/test/"@) || contains(
            p@,
            "/test-runtime/"@,
        ) || contains(p@, "/test-staking-e2e/"@) || contains(p@, "/test-utils/"@) || contains(
            p@,
            "/ui-tests/"@,
        ) || contains(p@, "/mocks/"@) || contains(p@, "/mock/"@) || contains(p@, "/mock-"@)
            || contains(p@, "/remote-tests/"@) || contains(p@, "/fuzzer/"@) || contains(
            p@,
            "/fixtures/"@,
        ) || contains(p@, "/conformance_tests/"@) || contains(p@, "/subsystem-bench/"@)
            || contains(p@, "-benchmarking/"@) || contains(p@, "/test-common/"@) || contains(
            p@,
            "/test_utils/"@,
        ) || contains(p@, "/testing/"@) || contains(p@, "/bench/"@) || contains(
            p@,
            "/frame/root-offences/"@,
        ) || contains(p@, "/parachains/pallets/ping/"@) || contains(p@, "integration_tests"@)
            || contains(p@, "integration-tests"@) || contains(p@, "send-tx/"@)),
{
    contains_str(p, "/tests/") || contains_str(p, "/test/") || contains_str(p, "/test-runtime/")
        || contains_str(p, "/test-staking-e2e/") || contains_str(p, "/test-utils/")
        || contains_str(p, "/ui-tests/") || contains_str(p, "/mocks/") || contains_str(
        p,
        "/mock/",
    ) || contains_str(p, "/mock-") || contains_str(p, "/remote-tests/") || contains_str(
        p,
        "/fuzzer/",
    ) || contains_str(p, "/fixtures/") || contains_str(p, "/conformance_tests/")
        || contains_str(p, "/subsystem-bench/") || contains_str(p, "-benchmarking/")
        || contains_str(p, "/test-common/") || contains_str(p, "/test_utils/") || contains_str(
        p,
        "/testing/",
    ) || contains_str(p, "/bench/") || contains_str(p, "/frame/root-offences/")
        || contains_str(p, "/parachains/pallets/ping/") || contains_str(p, "integration_tests")
        || contains_str(p, "integration-tests") || contains_str(p, "send-tx/")
}

/// Whether `path` is a test, mock, fixture or tooling location.
pub fn is_pure_test_path(path: &str) -> (r: bool)
    ensures
        r == spec_is_pure_test_path(path@),
{
    let p = chars_of(path);
    let file_name = match path_file_name(path) {
        Some(n) => chars_of(n.as_str()),
        None => Vec::new(),
    };
    assert(file_name@ == (match std_path_file_name(path@) {
        Some(n) => n,
        None => Seq::<char>::empty(),
    }));
    path_contains_any(&p) || ends_with_str(&p, "_test.rs") || ends_with_str(&p, "_tests.rs")
        || ends_with_str(&p, "tests.rs") || equals_str(&file_name, "build.rs")
        || starts_with_str(&file_name, "mock_") || equals_str(&file_name, "mock.rs")
        || equals_str(&file_name, "remote_mining.rs") || equals_str(&file_name, "test_utils.rs")
        || equals_str(&file_name, "testing.rs") || equals_str(&file_name, "testing_utils.rs")
}

/// The path, with a leading `/` added, lies under a pallet or runtime and
/// not under FRAME support, examples, proc-macros, RPC, node or client code.
pub open spec fn spec_is_runtime_or_pallet_security_path(p: Seq<char>) -> bool {
    let n = seq!['/'] + p;
    if contains(n, "/substrate/frame/support/"@) || contains(n, "/substrate/frame/examples/"@)
        || contains(n, "/proc-macro/"@) || contains(n, "/rpc/"@) || contains(n, "/uapi/"@)
        || contains(n, "/rc-client/"@) || contains(n, "/ah-client/"@) || contains(
        n,
        "/polkadot/node/"@,
    ) || contains(n, "/dev-node/node/"@) || contains(n, "/reward-curve/"@) || contains(
        n,
        "/substrate/frame/asset-conversion/ops/"@,
    ) {
        false
    } else {
        contains(n, "/pallets/"@) || contains(n, "/runtime/"@) || contains(n, "/runtimes/"@)
            || contains(n, "/substrate/frame/"@) || contains(n, "/bridges/modules/"@)
    }
}

fn with_leading_slash(path: &str) -> (r: Vec<char>)
    ensures
        r@ == seq!['/'] + path@,
{
    let mut n: Vec<char> = Vec::new();
    n.push('/');
    let r = crate::text::concat(&n, &chars_of(path));
    assert(n@ =~= seq!['/']);
    r
}

/// Whether `path` is pallet or runtime code that the security rules look at.
pub fn is_runtime_or_pallet_security_path(path: &str) -> (r: bool)
    ensures
        r == spec_is_runtime_or_pallet_security_path(path@),
{
    let n = with_leading_slash(path);
    if contains_str(&n, "/substrate/frame/support/") || contains_str(
        &n,
        "/substrate/frame/examples/",
    ) || contains_str(&n, "/proc-macro/") || contains_str(&n, "/rpc/") || contains_str(
        &n,
        "/uapi/",
    ) || contains_str(&n, "/rc-client/") || contains_str(&n, "/ah-client/") || contains_str(
        &n,
        "/polkadot/node/",
    ) || contains_str(&n, "/dev-node/node/") || contains_str(&n, "/reward-curve/")
        || contains_str(&n, "/substrate/frame/asset-conversion/ops/") {
        return false;
    }
    contains_str(&n, "/pallets/") || contains_str(&n, "/runtime/") || contains_str(
        &n,
        "/runtimes/",
    ) || contains_str(&n, "/substrate/frame/") || contains_str(&n, "/bridges/modules/")
}

/// The path is FRAME support's own migration machinery.
pub open spec fn spec_is_frame_support_migration_infrastructure(p: Seq<char>) -> bool {
    let n = seq!['/'] + p;
    contains(n, "/substrate/frame/support/src/migrations.rs"@) || contains(
        n,
        "/substrate/frame/support/src/storage/migration.rs"@,
    )
}

/// Whether `path` is FRAME support's own migration machinery.
pub fn is_frame_support_migration_infrastructure(path: &str) -> (r: bool)
    ensures
        r == spec_is_frame_support_migration_infrastructure(path@),
{
    let n = with_leading_slash(path);
    contains_str(&n, "/substrate/frame/support/src/migrations.rs") || contains_str(
        &n,
        "/substrate/frame/support/src/storage/migration.rs",
    )
}

/// A `builder.rs` under a runtime or pallet whose text says it builds
/// benchmark scenarios or serves benchmarks and tests.
pub open spec fn spec_is_documented_benchmark_test_builder(p: Seq<char>, content: Seq<char>) -> bool {
    let n = seq!['/'] + p;
    let lower = to_ascii_lowercase(content);
    &&& std_path_file_name(p) == Some("builder.rs"@)
    &&& (contains(n, "/runtime/"@) || contains(n, "/runtimes/"@) || contains(n, "/pallets/"@))
    &&& (contains(lower, "benchmark scenario builder"@) || contains(
        lower,
        "benchmarks and tests"@,
    ))
}

/// Whether the file is a documented benchmark/test scenario builder.
pub fn is_documented_benchmark_test_builder(path: &str, content: &str) -> (r: bool)
    ensures
        r == spec_is_documented_benchmark_test_builder(path@, content@),
{
    match path_file_name(path) {
        Some(name) => {
            if !equals_str(&chars_of(name.as_str()), "builder.rs") {
                return false;
            }
        },
        None => {
            return false;
        },
    }
    let n = with_leading_slash(path);
    if !(contains_str(&n, "/runtime/") || contains_str(&n, "/runtimes/") || contains_str(
        &n,
        "/pallets/",
    )) {
        return false;
    }
    let lower = to_ascii_lowercase_exec(&chars_of(content));
    contains_str(&lower, "benchmark scenario builder") || contains_str(
        &lower,
        "benchmarks and tests",
    )
}

// ---------------------------------------------------------------------------
// Module declarations
// ---------------------------------------------------------------------------

/// The module that a file defines: its parent directory's name for a
/// `mod.rs`, else its file stem.
pub open spec fn spec_module_name_for_file(p: Seq<char>) -> Option<Seq<char>> {
    match std_path_file_name(p) {
        None => None,
        Some(name) => if name == "mod.rs"@ {
            match std_path_parent(p) {
                Some(parent) => std_path_file_name(parent),
                None => None,
            }
        } else {
            std_path_file_stem(p)
        },
    }
}

/// The name of the module that the file at `path` defines.
pub fn module_name_for_file(path: &str) -> (r: Option<String>)
    ensures
        opt_text(r) == spec_module_name_for_file(path@),
{
    let name = match path_file_name(path) {
        Some(n) => n,
        None => {
            return None;
        },
    };
    if equals_str(&chars_of(name.as_str()), "mod.rs") {
        match path_parent(path) {
            Some(parent) => path_file_name(parent.as_str()),
            None => None,
        }
    } else {
        path_file_stem(path)
    }
}

/// The files that may declare the module of the file at `p`.
pub open spec fn spec_parent_module_candidates(p: Seq<char>) -> Seq<Seq<char>> {
    match std_path_parent(p) {
        None => seq![],
        Some(parent) => {
            let file_name = match std_path_file_name(p) {
                Some(n) => n,
                None => Seq::<char>::empty(),
            };
            if file_name == "mod.rs"@ {
                match std_path_parent(parent) {
                    None => seq![],
                    Some(grandparent) => {
                        let dir = match std_path_file_name(parent) {
                            Some(n) => n,
                            None => Seq::<char>::empty(),
                        };
                        seq![
                            std_path_join(grandparent, "lib.rs"@),
                            std_path_join(grandparent, "main.rs"@),
                            std_path_join(grandparent, "mod.rs"@),
                            std_path_join(grandparent, dir + ".rs"@),
                        ]
                    },
                }
            } else {
                dedup_paths(
                    seq![
                        std_path_join(parent, "mod.rs"@),
                        std_path_with_extension(parent, "rs"@),
                        std_path_join(parent, "lib.rs"@),
                        std_path_join(parent, "main.rs"@),
                    ],
                )
            }
        },
    }
}

/// `ps` with each path that equals (as a `Path`) the one kept before it
/// dropped (`Vec::dedup`).
pub open spec fn dedup_paths(ps: Seq<Seq<char>>) -> Seq<Seq<char>>
    decreases ps.len(),
{
    if ps.len() <= 1 {
        ps
    } else {
        let rest = dedup_paths(ps.drop_last());
        if std_path_eq(rest.last(), ps.last()) {
            rest
        } else {
            rest.push(ps.last())
        }
    }
}

fn dedup_paths_exec(ps: Vec<String>) -> (r: Vec<String>)
    ensures
        r@.map_values(|s: String| s@) == dedup_paths(ps@.map_values(|s: String| s@)),
{
    let ghost pv = ps@.map_values(|s: String| s@);
    let mut r: Vec<String> = Vec::new();
    let mut i: usize = 0;
    while i < ps.len()
        invariant
            i <= ps.len(),
            pv == ps@.map_values(|s: String| s@),
            r@.map_values(|s: String| s@) == dedup_paths(pv.take(i as int)),
            i > 0 ==> r.len() > 0,
        decreases ps.len() - i,
    {
        assert(pv.take(i + 1).drop_last() =~= pv.take(i as int));
        assert(pv[i as int] == ps[i as int]@);
        if i == 0 {
            r.push(ps[i].clone());
            assert(r@.map_values(|s: String| s@) =~= dedup_paths(pv.take(1)));
        } else {
            let last = r.len() - 1;
            assert(r@.map_values(|s: String| s@).last() == r@[last as int]@);
            let same = path_eq(r[last].as_str(), ps[i].as_str());
            if !same {
                let ghost before = r@;
                r.push(ps[i].clone());
                assert(r@.map_values(|s: String| s@) =~= before.map_values(|s: String| s@).push(
                    ps[i as int]@,
                ));
            }
        }
        i += 1;
    }
    assert(pv.take(ps.len() as int) =~= pv);
    r
}

/// The files that may declare the module of the file at `path`: for a
/// `mod.rs`, the crate roots, `mod.rs` and `<dir>.rs` of the grandparent;
/// else `mod.rs`, `<parent>.rs`, `lib.rs` and `main.rs` around the parent,
/// with neighbours that name the same path removed.
pub fn parent_module_candidates(path: &str) -> (r: Vec<String>)
    ensures
        r@.map_values(|s: String| s@) == spec_parent_module_candidates(path@),
{
    let parent = match path_parent(path) {
        Some(p) => p,
        None => {
            let r: Vec<String> = Vec::new();
            assert(r@.map_values(|s: String| s@) =~= Seq::<Seq<char>>::empty());
            return r;
        },
    };
    let file_name = match path_file_name(path) {
        Some(n) => chars_of(n.as_str()),
        None => Vec::new(),
    };
    if equals_str(&file_name, "mod.rs") {
        let grandparent = match path_parent(parent.as_str()) {
            Some(g) => g,
            None => {
                let r: Vec<String> = Vec::new();
                assert(r@.map_values(|s: String| s@) =~= Seq::<Seq<char>>::empty());
                return r;
            },
        };
        let dir = match path_file_name(parent.as_str()) {
            Some(n) => n,
            None => String::new(),
        };
        let dir_rs = dir.concat(".rs");
        let mut r: Vec<String> = Vec::new();
        r.push(path_join(grandparent.as_str(), "lib.rs"));
        r.push(path_join(grandparent.as_str(), "main.rs"));
        r.push(path_join(grandparent.as_str(), "mod.rs"));
        r.push(path_join(grandparent.as_str(), dir_rs.as_str()));
        assert(r@.map_values(|s: String| s@) =~= spec_parent_module_candidates(path@));
        return r;
    }
    let mut c: Vec<String> = Vec::new();
    c.push(path_join(parent.as_str(), "mod.rs"));
    proof {
        reveal_strlit("rs");
    }
    c.push(path_with_extension(parent.as_str(), "rs"));
    c.push(path_join(parent.as_str(), "lib.rs"));
    c.push(path_join(parent.as_str(), "main.rs"));
    assert(c@.map_values(|s: String| s@) =~= seq![
        std_path_join(parent@, "mod.rs"@),
        std_path_with_extension(parent@, "rs"@),
        std_path_join(parent@, "lib.rs"@),
        std_path_join(parent@, "main.rs"@),
    ]);
    dedup_paths_exec(c)
}

/// The name of the module that a trimmed line declares: the identifier after
/// `mod ` in a `mod`, `pub mod`, `pub(crate) mod`, `pub(super) mod` or
/// `pub(in ...) mod` line.
pub open spec fn spec_module_declaration_name(t: Seq<char>) -> Option<Seq<char>> {
    let after = if starts_with(t, "mod "@) {
        Some(t.skip(4))
    } else if starts_with(t, "pub mod "@) {
        Some(t.skip(8))
    } else if starts_with(t, "pub(crate) mod "@) {
        Some(t.skip(15))
    } else if starts_with(t, "pub(super) mod "@) {
        Some(t.skip(15))
    } else if starts_with(t, "pub(in "@) {
        if contains(t, " mod "@) {
            Some(t.skip(crate::text::find(t, " mod "@)->0 + 5))
        } else {
            None
        }
    } else {
        None
    };
    match after {
        None => None,
        Some(rest) => {
            let name = ident_prefix(rest);
            if name.len() > 0 {
                Some(name)
            } else {
                None
            }
        },
    }
}

/// The identifier characters at the start of `s`: ASCII letters, digits and
/// `_` (`take_while`).
pub open spec fn ident_prefix(s: Seq<char>) -> Seq<char>
    decreases s.len(),
{
    if s.len() > 0 && (is_ascii_alnum(s[0]) || s[0] == '_') {
        seq![s[0]] + ident_prefix(s.drop_first())
    } else {
        seq![]
    }
}

/// The identifier characters at the start of `s[from..]`.
pub fn ident_prefix_exec(s: &Vec<char>, from: usize) -> (r: Vec<char>)
    requires
        from <= s.len(),
    ensures
        r@ == ident_prefix(s@.skip(from as int)),
{
    let mut k = from;
    while k < s.len() && (is_ascii_alnum_exec(s[k]) || s[k] == '_')
        invariant
            from <= k <= s.len(),
            forall|j: int| from <= j < k ==> is_ascii_alnum(s@[j]) || s@[j] == '_',
        decreases s.len() - k,
    {
        k += 1;
    }
    proof {
        lemma_ident_prefix(s@.skip(from as int), k - from);
        assert(s@.skip(from as int).take(k - from) =~= s@.subrange(from as int, k as int));
    }
    crate::text::copy_range(s, from, k)
}

proof fn lemma_ident_prefix(s: Seq<char>, k: int)
    requires
        0 <= k <= s.len(),
        forall|j: int| 0 <= j < k ==> is_ascii_alnum(s[j]) || s[j] == '_',
        k == s.len() || !(is_ascii_alnum(s[k]) || s[k] == '_'),
    ensures
        ident_prefix(s) == s.take(k),
    decreases k,
{
    if k > 0 {
        assert forall|j: int| 0 <= j < k - 1 implies is_ascii_alnum(s.drop_first()[j])
            || s.drop_first()[j] == '_' by {
            assert(s.drop_first()[j] == s[j + 1]);
        }
        if k - 1 < s.drop_first().len() {
            assert(s.drop_first()[k - 1] == s[k]);
        }
        lemma_ident_prefix(s.drop_first(), k - 1);
        assert(seq![s[0]] + s.drop_first().take(k - 1) =~= s.take(k));
    } else {
        assert(s.take(0) =~= Seq::<char>::empty());
    }
}

/// The module name that the trimmed line `t` declares, if any.
pub fn module_declaration_name(t: &Vec<char>) -> (r: Option<Vec<char>>)
    ensures
        match r {
            Some(n) => spec_module_declaration_name(t@) == Some(n@),
            None => spec_module_declaration_name(t@) is None,
        },
{
    proof {
        reveal_strlit("mod ");
        reveal_strlit("pub mod ");
        reveal_strlit("pub(crate) mod ");
        reveal_strlit("pub(super) mod ");
        reveal_strlit(" mod ");
    }
    let from: usize = if starts_with_str(t, "mod ") {
        4
    } else if starts_with_str(t, "pub mod ") {
        8
    } else if starts_with_str(t, "pub(crate) mod ") {
        15
    } else if starts_with_str(t, "pub(super) mod ") {
        15
    } else if starts_with_str(t, "pub(in ") {
        let pat = chars_of(" mod ");
        match crate::text::find_exec(t, &pat) {
            Some(i) => {
                assert(i + 5 <= t.len());
                i + 5
            },
            None => {
                return None;
            },
        }
    } else {
        return None;
    };
    let name = ident_prefix_exec(t, from);
    if name.len() > 0 {
        Some(name)
    } else {
        None
    }
}

/// Scanning the lines of a parent module for the declaration of `name`,
/// with `pending` telling whether a masking `cfg` attribute is waiting for
/// its item: whether the declaration carries such an attribute.
pub open spec fn decl_cfg_scan(lines: Seq<Seq<char>>, name: Seq<char>, pending: bool) -> bool
    decreases lines.len(),
{
    if lines.len() == 0 {
        false
    } else {
        let t = trim(lines[0]);
        let rest = lines.drop_first();
        if t.len() == 0 || starts_with(t, "//"@) {
            decl_cfg_scan(rest, name, pending)
        } else if spec_is_masked_cfg_attribute(t) {
            decl_cfg_scan(rest, name, true)
        } else if starts_with(t, "#["@) {
            decl_cfg_scan(rest, name, pending)
        } else if spec_module_declaration_name(t) == Some(name) {
            pending
        } else {
            decl_cfg_scan(rest, name, false)
        }
    }
}

/// Whether the first declaration of module `module_name` among `lines`
/// stands under a test or non-production `cfg` attribute.
pub fn module_decl_has_masked_cfg(lines: &Vec<Vec<char>>, module_name: &Vec<char>) -> (r: bool)
    ensures
        r == decl_cfg_scan(lines_view(lines@), module_name@, false),
{
    let ghost lv = lines_view(lines@);
    let mut pending = false;
    let mut i: usize = 0;
    assert(lv.skip(0) =~= lv);
    while i < lines.len()
        invariant
            i <= lines@.len(),
            lv == lines_view(lines@),
            decl_cfg_scan(lv.skip(i as int), module_name@, pending) == decl_cfg_scan(
                lv,
                module_name@,
                false,
            ),
        decreases lines.len() - i,
    {
        let ghost rest = lv.skip(i as int);
        assert(rest[0] == lines[i as int]@);
        assert(rest.drop_first() =~= lv.skip(i + 1));
        let t = trim_exec(&lines[i]);
        if t.len() == 0 || starts_with_str(&t, "//") {
            i += 1;
            continue;
        }
        if is_masked_cfg_attribute(&t) {
            pending = true;
            i += 1;
            continue;
        }
        if starts_with_str(&t, "#[") {
            i += 1;
            continue;
        }
        match module_declaration_name(&t) {
            Some(n) => {
                if n.len() == module_name.len() && crate::text::starts_with_exec(&n, module_name) {
                    assert(n@.take(module_name@.len() as int) =~= n@);
                    return pending;
                }
                assert(n@ != module_name@) by {
                    if n@ == module_name@ {
                        assert(n@.take(module_name@.len() as int) =~= n@);
                    }
                }
                assert(spec_module_declaration_name(t@) != Some(module_name@));
            },
            None => {},
        }
        assert(!spec_is_masked_cfg_attribute(trim(rest[0])));
        assert(decl_cfg_scan(rest, module_name@, pending) == decl_cfg_scan(
            rest.drop_first(),
            module_name@,
            false,
        ));
        pending = false;
        i += 1;
    }
    assert(lv.skip(i as int) =~= Seq::<Seq<char>>::empty());
    false
}

/// The file is a module whose declaration, in one of its parent module
/// files, stands under a test or non-production `cfg`. `candidate_texts`
/// holds the text of each of `parent_module_candidates(path)`, in order, or
/// nothing where it could not be read.
pub open spec fn spec_is_cfg_gated_module_file(path: Seq<char>, candidate_texts: Seq<Option<String>>) -> bool {
    match spec_module_name_for_file(path) {
        None => false,
        Some(name) => exists|k: int|
            0 <= k < candidate_texts.len() && match #[trigger] candidate_texts[k] {
                Some(t) => decl_cfg_scan(lines_of(t@), name, false),
                None => false,
            },
    }
}

/// Whether the file is a module declared under a test or non-production
/// `cfg` in one of its parent module files, given their texts.
pub fn is_cfg_gated_module_file(path: &str, candidate_texts: &Vec<Option<String>>) -> (r: bool)
    ensures
        r == spec_is_cfg_gated_module_file(path@, candidate_texts@),
{
    let name = match module_name_for_file(path) {
        Some(n) => chars_of(n.as_str()),
        None => return false,
    };
    let mut k: usize = 0;
    while k < candidate_texts.len()
        invariant
            k <= candidate_texts@.len(),
            spec_module_name_for_file(path@) == Some(name@),
            forall|j: int|
                0 <= j < k ==> !match #[trigger] candidate_texts@[j] {
                    Some(t) => decl_cfg_scan(lines_of(t@), name@, false),
                    None => false,
                },
        decreases candidate_texts.len() - k,
    {
        match &candidate_texts[k] {
            Some(t) => {
                let lines = split_lines(&chars_of(t.as_str()));
                assert(lines_view(lines@) == lines@.map_values(|l: Vec<char>| l@));
                if module_decl_has_masked_cfg(&lines, &name) {
                    return true;
                }
            },
            None => {},
        }
        k += 1;
    }
    false
}

} // verus!
