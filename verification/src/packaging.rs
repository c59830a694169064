//! Plans for packaging the auth core library for Swift: target mapping,
//! artifact bundles and XCFrameworks.

use vstd::prelude::*;
use crate::text::str_eq;
use crate::text::{str_contains, seq_contains, concat, to_owned};

verus! {

/// The Rust target triple that a Swift target triple is built with.
pub open spec fn swift_to_rust_target(t: Seq<char>) -> Seq<char> {
    if t == "x86_64-swift-linux-musl"@ {
        "x86_64-unknown-linux-musl"@
    } else if t == "aarch64-swift-linux-musl"@ {
        "aarch64-unknown-linux-musl"@
    } else if t == "x86_64-unknown-windows-msvc"@ {
        "x86_64-pc-windows-msvc"@
    } else if t == "aarch64-unknown-windows-msvc"@ {
        "aarch64-pc-windows-msvc"@
    } else if t == "wasm32-unknown-wasi"@ {
        "wasm32-wasip1"@
    } else if t == "x86_64-apple-macosx"@ {
        "x86_64-apple-darwin"@
    } else if t == "arm64-apple-macosx"@ {
        "aarch64-apple-darwin"@
    } else {
        t
    }
}

/// Mapping a triple twice gives what mapping it once gives: the Rust
/// triples that Swift triples map to are left as they are.
pub proof fn lemma_target_mapping_idempotent(t: Seq<char>)
    ensures
        swift_to_rust_target(swift_to_rust_target(t)) == swift_to_rust_target(t),
{
    reveal_strlit("x86_64-swift-linux-musl");
    reveal_strlit("aarch64-swift-linux-musl");
    reveal_strlit("x86_64-unknown-windows-msvc");
    reveal_strlit("aarch64-unknown-windows-msvc");
    reveal_strlit("wasm32-unknown-wasi");
    reveal_strlit("x86_64-apple-macosx");
    reveal_strlit("arm64-apple-macosx");
    reveal_strlit("x86_64-unknown-linux-musl");
    reveal_strlit("aarch64-unknown-linux-musl");
    reveal_strlit("x86_64-pc-windows-msvc");
    reveal_strlit("aarch64-pc-windows-msvc");
    reveal_strlit("wasm32-wasip1");
    reveal_strlit("x86_64-apple-darwin");
    reveal_strlit("aarch64-apple-darwin");
    assert("x86_64-swift-linux-musl"@.len() == 23);
    assert("aarch64-swift-linux-musl"@.len() == 24);
    assert("x86_64-unknown-windows-msvc"@.len() == 27);
    assert("aarch64-unknown-windows-msvc"@.len() == 28);
    assert("wasm32-unknown-wasi"@.len() == 19);
    assert("x86_64-apple-macosx"@.len() == 19);
    assert("arm64-apple-macosx"@.len() == 18);
    assert("x86_64-unknown-linux-musl"@.len() == 25);
    assert("aarch64-unknown-linux-musl"@.len() == 26);
    assert("x86_64-pc-windows-msvc"@.len() == 22);
    assert("aarch64-pc-windows-msvc"@.len() == 23);
    assert("wasm32-wasip1"@.len() == 13);
    assert("x86_64-apple-darwin"@.len() == 19);
    assert("aarch64-apple-darwin"@.len() == 20);
    assert("aarch64-pc-windows-msvc"@[0] != "x86_64-swift-linux-musl"@[0]);
    assert("x86_64-apple-darwin"@[0] != "wasm32-unknown-wasi"@[0]);
    assert("x86_64-apple-darwin"@[13] != "x86_64-apple-macosx"@[13]);
}

/// Maps a Swift target triple to the Rust target triple; unknown triples
/// are passed through unchanged.
pub fn map_swift_to_rust_target(swift_target: &str) -> (r: &str)
    ensures
        r@ == swift_to_rust_target(swift_target@),
{
    if str_eq(swift_target, "x86_64-swift-linux-musl") {
        "x86_64-unknown-linux-musl"
    } else if str_eq(swift_target, "aarch64-swift-linux-musl") {
        "aarch64-unknown-linux-musl"
    } else if str_eq(swift_target, "x86_64-unknown-windows-msvc") {
        "x86_64-pc-windows-msvc"
    } else if str_eq(swift_target, "aarch64-unknown-windows-msvc") {
        "aarch64-pc-windows-msvc"
    } else if str_eq(swift_target, "wasm32-unknown-wasi") {
        "wasm32-wasip1"
    } else if str_eq(swift_target, "x86_64-apple-macosx") {
        "x86_64-apple-darwin"
    } else if str_eq(swift_target, "arm64-apple-macosx") {
        "aarch64-apple-darwin"
    } else {
        swift_target
    }
}

} // verus!

verus! {

/// The Rust target names a macOS target (its triple mentions
/// `apple-darwin`).
pub open spec fn is_macos_rust_target(rust_target: Seq<char>) -> bool {
    seq_contains(rust_target, "apple-darwin"@)
}

/// One library build: the Swift target and the Rust target it is built
/// with.
pub struct TargetBuild {
    pub target: String,
    pub rust_target: String,
}

/// The views of a list of builds.
pub open spec fn build_views(b: Seq<TargetBuild>) -> Seq<(Seq<char>, Seq<char>)> {
    b.map_values(|x: TargetBuild| (x.target@, x.rust_target@))
}

/// The views of a list of strings.
pub open spec fn string_views(v: Seq<String>) -> Seq<Seq<char>> {
    v.map_values(|s: String| s@)
}

/// The builds, in target order, of the targets whose Rust target is (when
/// `macos`) or is not (otherwise) a macOS target.
pub open spec fn builds_where(ts: Seq<Seq<char>>, macos: bool) -> Seq<(Seq<char>, Seq<char>)>
    decreases ts.len(),
{
    if ts.len() == 0 {
        seq![]
    } else {
        let prev = builds_where(ts.drop_last(), macos);
        let t = ts.last();
        let rt = swift_to_rust_target(t);
        if is_macos_rust_target(rt) == macos {
            prev.push((t, rt))
        } else {
            prev
        }
    }
}

/// Selects, in order, the builds of the targets whose Rust target is (when
/// `macos`) or is not a macOS target.
pub fn select_builds(targets: &Vec<String>, macos: bool) -> (r: Vec<TargetBuild>)
    ensures
        build_views(r@) == builds_where(string_views(targets@), macos),
{
    let n = targets.len();
    let ghost ts = string_views(targets@);
    let mut out: Vec<TargetBuild> = Vec::new();
    let mut i: usize = 0;
    assert(ts.subrange(0, 0) =~= Seq::<Seq<char>>::empty());
    while i < n
        invariant
            n == targets@.len(),
            ts == string_views(targets@),
            i <= n,
            build_views(out@) == builds_where(ts.subrange(0, i as int), macos),
        decreases n - i,
    {
        let t = targets[i].as_str();
        let rt = map_swift_to_rust_target(t);
        let m = str_contains(rt, "apple-darwin");
        let ghost prefix = ts.subrange(0, i + 1);
        assert(prefix.drop_last() =~= ts.subrange(0, i as int));
        assert(prefix.last() == t@);
        let ghost before = build_views(out@);
        if m == macos {
            out.push(TargetBuild { target: to_owned(t), rust_target: to_owned(rt) });
            assert(build_views(out@) =~= before.push((t@, rt@)));
        }
        i += 1;
    }
    assert(ts.subrange(0, n as int) =~= ts);
    out
}

/// The arguments of the `cargo` invocation that builds the auth core
/// library in release mode for `rust_target`.
pub open spec fn cargo_build_arg_views(rust_target: Seq<char>) -> Seq<Seq<char>> {
    seq![
        "build"@,
        "--package"@,
        "rust_auth_core"@,
        "--release"@,
        "--target"@,
        rust_target,
        "--target-dir"@,
        "target"@,
    ]
}

/// The arguments of the `cargo` invocation that builds the auth core
/// library in release mode for `rust_target`.
pub fn cargo_build_args(rust_target: &str) -> (r: Vec<String>)
    ensures
        string_views(r@) == cargo_build_arg_views(rust_target@),
{
    let mut v: Vec<String> = Vec::new();
    v.push(to_owned("build"));
    v.push(to_owned("--package"));
    v.push(to_owned("rust_auth_core"));
    v.push(to_owned("--release"));
    v.push(to_owned("--target"));
    v.push(to_owned(rust_target));
    v.push(to_owned("--target-dir"));
    v.push(to_owned("target"));
    assert(string_views(v@) =~= cargo_build_arg_views(rust_target@));
    v
}

/// The `variants` entry of the artifact bundle manifest for `target`.
pub open spec fn variant_entry(t: Seq<char>) -> Seq<char> {
    "        {\n                  \"path\": \""@ + t
        + "/librust_auth_coreFFI.a\",\n                  \"supportedTriples\": [\""@ + t
        + "\"],\n                  \"staticLibraryMetadata\": {\n                    \"headerPaths\": [\""@
        + t + "/include\"],\n                    \"moduleMapPath\": \""@ + t
        + "/include/module.modulemap\"\n                  }\n                }"@
}

/// The variant entries of `builds`, separated by `,` and a line break.
pub open spec fn variant_entries(builds: Seq<(Seq<char>, Seq<char>)>) -> Seq<char>
    decreases builds.len(),
{
    if builds.len() == 0 {
        ""@
    } else if builds.len() == 1 {
        variant_entry(builds[0].0)
    } else {
        variant_entries(builds.drop_last()) + ",\n"@ + variant_entry(builds.last().0)
    }
}

/// The artifact bundle manifest (`info.json`) for `version` with the
/// variant entries `variants`.
pub open spec fn bundle_manifest(version: Seq<char>, variants: Seq<char>) -> Seq<char> {
    "{\n  \"schemaVersion\": \"1.0\",\n  \"artifacts\": {\n    \"rust_auth_coreFFI\": {\n      \"version\": \""@
        + version + "\",\n      \"type\": \"staticLibrary\",\n      \"variants\": [\n"@ + variants
        + "\n      ]\n    }\n  }\n}"@
}

fn variant_entry_of(t: &str) -> (r: String)
    ensures
        r@ == variant_entry(t@),
{
    let a = concat("        {\n                  \"path\": \"", t);
    let b = concat(a.as_str(), "/librust_auth_coreFFI.a\",\n                  \"supportedTriples\": [\"");
    let c = concat(b.as_str(), t);
    let d = concat(
        c.as_str(),
        "\"],\n                  \"staticLibraryMetadata\": {\n                    \"headerPaths\": [\"",
    );
    let e = concat(d.as_str(), t);
    let f = concat(e.as_str(), "/include\"],\n                    \"moduleMapPath\": \"");
    let g = concat(f.as_str(), t);
    concat(g.as_str(), "/include/module.modulemap\"\n                  }\n                }")
}

/// Builds the artifact bundle manifest for `version` and the variants of
/// `builds`.
pub fn artifactbundle_manifest(version: &str, builds: &Vec<TargetBuild>) -> (r: String)
    ensures
        r@ == bundle_manifest(version@, variant_entries(build_views(builds@))),
{
    let n = builds.len();
    let ghost bv = build_views(builds@);
    let mut variants = String::new();
    let mut i: usize = 0;
    proof {
        reveal_strlit("");
    }
    assert(bv.subrange(0, 0) =~= Seq::<(Seq<char>, Seq<char>)>::empty());
    assert(variants@ == variant_entries(bv.subrange(0, 0)));
    while i < n
        invariant
            n == builds@.len(),
            bv == build_views(builds@),
            i <= n,
            variants@ == variant_entries(bv.subrange(0, i as int)),
        decreases n - i,
    {
        let ghost prefix = bv.subrange(0, i + 1);
        assert(prefix.drop_last() =~= bv.subrange(0, i as int));
        assert(prefix.last().0 == builds@[i as int].target@);
        if i > 0 {
            variants.append(",\n");
        } else {
            assert(prefix[0].0 == builds@[0].target@);
        }
        let ghost old_variants = variants@;
        let entry = variant_entry_of(builds[i].target.as_str());
        variants.append(entry.as_str());
        proof {
            reveal_strlit("");
            if i == 0 {
                assert(variants@ =~= entry@);
            } else {
                assert(variants@ =~= variant_entries(bv.subrange(0, i as int)) + ",\n"@ + entry@);
            }
        }
        i += 1;
    }
    assert(bv.subrange(0, n as int) =~= bv);
    let a = concat(
        "{\n  \"schemaVersion\": \"1.0\",\n  \"artifacts\": {\n    \"rust_auth_coreFFI\": {\n      \"version\": \"",
        version,
    );
    let b = concat(a.as_str(), "\",\n      \"type\": \"staticLibrary\",\n      \"variants\": [\n");
    let c = concat(b.as_str(), variants.as_str());
    concat(c.as_str(), "\n      ]\n    }\n  }\n}")
}

/// A file that goes into the artifact bundle archive: its name in the
/// archive, the target whose variant directory holds it (none for the
/// bundle's own files), and its path in that directory.
pub struct ZipEntry {
    pub name: String,
    pub target: Option<String>,
    pub file: String,
}

/// The views of a list of archive entries.
pub open spec fn zip_entry_views(v: Seq<ZipEntry>) -> Seq<(Seq<char>, Option<Seq<char>>, Seq<char>)> {
    v.map_values(
        |e: ZipEntry|
            (e.name@, match e.target {
                Some(t) => Some(t@),
                None => None,
            }, e.file@),
    )
}

/// The three files of the variant of `t` in the archive.
pub open spec fn variant_zip_entries(t: Seq<char>) -> Seq<(Seq<char>, Option<Seq<char>>, Seq<char>)> {
    seq![
        ("rust_auth_coreFFI.artifactbundle/"@ + t + "/librust_auth_coreFFI.a"@, Some(t), "librust_auth_coreFFI.a"@),
        ("rust_auth_coreFFI.artifactbundle/"@ + t + "/include/rust_auth_coreFFI.h"@, Some(t), "include/rust_auth_coreFFI.h"@),
        ("rust_auth_coreFFI.artifactbundle/"@ + t + "/include/module.modulemap"@, Some(t), "include/module.modulemap"@),
    ]
}

/// The variant files of the targets whose Rust target is not a macOS
/// target (the targets the bundle builds), in target order.
pub open spec fn variant_zip_entries_of(ts: Seq<Seq<char>>) -> Seq<(Seq<char>, Option<Seq<char>>, Seq<char>)>
    decreases ts.len(),
{
    if ts.len() == 0 {
        seq![]
    } else {
        let prev = variant_zip_entries_of(ts.drop_last());
        if is_macos_rust_target(swift_to_rust_target(ts.last())) {
            prev
        } else {
            prev + variant_zip_entries(ts.last())
        }
    }
}

/// The variant files of the builds `bs`, in order.
pub open spec fn build_zip_entries(bs: Seq<(Seq<char>, Seq<char>)>) -> Seq<(Seq<char>, Option<Seq<char>>, Seq<char>)>
    decreases bs.len(),
{
    if bs.len() == 0 {
        seq![]
    } else {
        build_zip_entries(bs.drop_last()) + variant_zip_entries(bs.last().0)
    }
}

/// The bundle archive holds the variant files of exactly the targets the
/// bundle builds, in order: no file of a target that was not built.
pub proof fn lemma_bundle_archives_its_builds(ts: Seq<Seq<char>>)
    ensures
        variant_zip_entries_of(ts) == build_zip_entries(builds_where(ts, false)),
    decreases ts.len(),
{
    if ts.len() > 0 {
        lemma_bundle_archives_its_builds(ts.drop_last());
        let bs = builds_where(ts.drop_last(), false);
        if !is_macos_rust_target(swift_to_rust_target(ts.last())) {
            let nb = bs.push((ts.last(), swift_to_rust_target(ts.last())));
            assert(nb.drop_last() =~= bs);
        }
    }
}

/// The archive of the artifact bundle: the manifest, then the variant
/// files of each target.
pub open spec fn bundle_zip_entries(ts: Seq<Seq<char>>) -> Seq<(Seq<char>, Option<Seq<char>>, Seq<char>)> {
    seq![("rust_auth_coreFFI.artifactbundle/info.json"@, None, "info.json"@)] + variant_zip_entries_of(ts)
}

fn zip_entry(name: String, target: Option<&str>, file: &str) -> (r: ZipEntry)
    ensures
        r.name@ == name@,
        r.file@ == file@,
        match target {
            Some(t) => r.target matches Some(x) && x@ == t@,
            None => r.target is None,
        },
{
    ZipEntry {
        name,
        target: match target {
            Some(t) => Some(to_owned(t)),
            None => None,
        },
        file: to_owned(file),
    }
}

/// The entries of the artifact bundle archive for `targets`.
pub fn artifactbundle_zip_entries(targets: &Vec<String>) -> (r: Vec<ZipEntry>)
    ensures
        zip_entry_views(r@) == bundle_zip_entries(string_views(targets@)),
{
    let n = targets.len();
    let ghost ts = string_views(targets@);
    let mut out: Vec<ZipEntry> = Vec::new();
    out.push(zip_entry(to_owned("rust_auth_coreFFI.artifactbundle/info.json"), None, "info.json"));
    let ghost head = zip_entry_views(out@);
    assert(head =~= seq![("rust_auth_coreFFI.artifactbundle/info.json"@, None, "info.json"@)]);
    assert(ts.subrange(0, 0) =~= Seq::<Seq<char>>::empty());
    let mut i: usize = 0;
    while i < n
        invariant
            n == targets@.len(),
            ts == string_views(targets@),
            head == seq![(
                "rust_auth_coreFFI.artifactbundle/info.json"@,
                None::<Seq<char>>,
                "info.json"@,
            )],
            i <= n,
            zip_entry_views(out@) == head + variant_zip_entries_of(ts.subrange(0, i as int)),
        decreases n - i,
    {
        let t = targets[i].as_str();
        let ghost prefix = ts.subrange(0, i + 1);
        assert(prefix.drop_last() =~= ts.subrange(0, i as int));
        assert(prefix.last() == t@);
        let ghost before = zip_entry_views(out@);
        if !str_contains(map_swift_to_rust_target(t), "apple-darwin") {
            let dir = concat("rust_auth_coreFFI.artifactbundle/", t);
            let n1 = concat(dir.as_str(), "/librust_auth_coreFFI.a");
            let n2 = concat(dir.as_str(), "/include/rust_auth_coreFFI.h");
            let n3 = concat(dir.as_str(), "/include/module.modulemap");
            out.push(zip_entry(n1, Some(t), "librust_auth_coreFFI.a"));
            out.push(zip_entry(n2, Some(t), "include/rust_auth_coreFFI.h"));
            out.push(zip_entry(n3, Some(t), "include/module.modulemap"));
            assert(zip_entry_views(out@) =~= before + variant_zip_entries(t@));
        }
        i += 1;
    }
    assert(ts.subrange(0, n as int) =~= ts);
    out
}

/// What packaging the static libraries into an artifact bundle does: build
/// the non-macOS targets, then, when any was built, write the manifest and
/// archive the bundle.
pub struct ArtifactBundlePlan {
    pub builds: Vec<TargetBuild>,
    pub manifest: Option<String>,
    pub zip_entries: Vec<ZipEntry>,
}

/// Plans the artifact bundle of `targets` at `version`.
pub fn plan_artifactbundle(targets: &Vec<String>, version: &str) -> (r: ArtifactBundlePlan)
    ensures
        build_views(r.builds@) == builds_where(string_views(targets@), false),
        builds_where(string_views(targets@), false).len() == 0 ==> r.manifest is None
            && r.zip_entries@.len() == 0,
        builds_where(string_views(targets@), false).len() > 0 ==> (r.manifest matches Some(m) && m@
            == bundle_manifest(version@, variant_entries(builds_where(string_views(targets@), false)))
            && zip_entry_views(r.zip_entries@) == bundle_zip_entries(string_views(targets@))),
{
    let builds = select_builds(targets, false);
    if builds.len() == 0 {
        ArtifactBundlePlan { builds, manifest: None, zip_entries: Vec::new() }
    } else {
        let manifest = artifactbundle_manifest(version, &builds);
        let zip_entries = artifactbundle_zip_entries(targets);
        ArtifactBundlePlan { builds, manifest: Some(manifest), zip_entries }
    }
}

/// How the macOS libraries become the one library of the XCFramework.
#[derive(Debug, PartialEq, Eq)]
pub enum CombineStep {
    /// No macOS target: no XCFramework is made.
    Skip,
    /// One macOS target: its library is copied.
    CopySingle,
    /// Several macOS targets: `lipo` merges their libraries.
    Lipo,
}

/// What packaging the dynamic libraries into an XCFramework does: build
/// the macOS targets, then combine their libraries.
pub struct XcframeworkPlan {
    pub builds: Vec<TargetBuild>,
    pub combine: CombineStep,
}

/// Plans the XCFramework of `targets`.
pub fn plan_xcframework(targets: &Vec<String>) -> (r: XcframeworkPlan)
    ensures
        build_views(r.builds@) == builds_where(string_views(targets@), true),
        r.combine == (if r.builds@.len() == 0 {
            CombineStep::Skip
        } else if r.builds@.len() == 1 {
            CombineStep::CopySingle
        } else {
            CombineStep::Lipo
        }),
{
    let builds = select_builds(targets, true);
    let combine = if builds.len() > 1 {
        CombineStep::Lipo
    } else if builds.len() == 1 {
        CombineStep::CopySingle
    } else {
        CombineStep::Skip
    };
    XcframeworkPlan { builds, combine }
}

/// Where `cargo` puts the release dynamic library for `rust_target`.
pub open spec fn dylib_path_of(rust_target: Seq<char>) -> Seq<char> {
    "target/"@ + rust_target + "/release/librust_auth_core.dylib"@
}

/// Where `cargo` puts the release static library for `rust_target`.
pub open spec fn static_lib_path_of(rust_target: Seq<char>) -> Seq<char> {
    "target/"@ + rust_target + "/release/librust_auth_core.a"@
}

/// The path of the release dynamic library built for `rust_target`.
pub fn dylib_path(rust_target: &str) -> (r: String)
    ensures
        r@ == dylib_path_of(rust_target@),
{
    let a = concat("target/", rust_target);
    concat(a.as_str(), "/release/librust_auth_core.dylib")
}

/// The path of the release static library built for `rust_target`.
pub fn static_lib_path(rust_target: &str) -> (r: String)
    ensures
        r@ == static_lib_path_of(rust_target@),
{
    let a = concat("target/", rust_target);
    concat(a.as_str(), "/release/librust_auth_core.a")
}

/// Where the combined macOS library is written before it goes into the
/// XCFramework.
pub open spec fn combined_dylib_path() -> Seq<char> {
    "target/librust_auth_coreFFI_temp.dylib"@
}

/// The arguments of the `lipo` invocation that merges the dynamic
/// libraries of `builds`, in order, into the combined library.
pub open spec fn lipo_arg_views(builds: Seq<(Seq<char>, Seq<char>)>) -> Seq<Seq<char>> {
    seq!["-create"@, "-output"@, combined_dylib_path()] + builds.map_values(
        |b: (Seq<char>, Seq<char>)| dylib_path_of(b.1),
    )
}

/// The arguments of the `lipo` invocation that merges the dynamic
/// libraries of `builds` into the combined library.
pub fn lipo_args(builds: &Vec<TargetBuild>) -> (r: Vec<String>)
    ensures
        string_views(r@) == lipo_arg_views(build_views(builds@)),
{
    let ghost bv = build_views(builds@);
    let mut v: Vec<String> = Vec::new();
    v.push(to_owned("-create"));
    v.push(to_owned("-output"));
    v.push(to_owned("target/librust_auth_coreFFI_temp.dylib"));
    let ghost head = string_views(v@);
    assert(head =~= seq!["-create"@, "-output"@, combined_dylib_path()]);
    let n = builds.len();
    let mut i: usize = 0;
    while i < n
        invariant
            n == builds@.len(),
            bv == build_views(builds@),
            head == seq!["-create"@, "-output"@, combined_dylib_path()],
            i <= n,
            string_views(v@) == head + bv.subrange(0, i as int).map_values(
                |b: (Seq<char>, Seq<char>)| dylib_path_of(b.1),
            ),
        decreases n - i,
    {
        let ghost before = string_views(v@);
        let p = dylib_path(builds[i].rust_target.as_str());
        v.push(p);
        assert(bv[i as int].1 == builds@[i as int].rust_target@);
        assert(bv.subrange(0, i + 1).map_values(|b: (Seq<char>, Seq<char>)| dylib_path_of(b.1))
            =~= bv.subrange(0, i as int).map_values(|b: (Seq<char>, Seq<char>)| dylib_path_of(b.1)).push(
            dylib_path_of(bv[i as int].1),
        ));
        assert(string_views(v@) =~= before.push(p@));
        i += 1;
    }
    assert(bv.subrange(0, n as int) =~= bv);
    v
}

/// `lipo` creates the combined library from exactly the release dynamic
/// libraries of the builds, in build order: after `-create -output` and
/// the combined library's path, the argument for each build is
/// `target/<its Rust target>/release/librust_auth_core.dylib`.
pub proof fn lemma_lipo_merges_build_dylibs(builds: Seq<(Seq<char>, Seq<char>)>)
    ensures
        lipo_arg_views(builds).len() == builds.len() + 3,
        lipo_arg_views(builds)[0] == "-create"@,
        lipo_arg_views(builds)[1] == "-output"@,
        lipo_arg_views(builds)[2] == "target/librust_auth_coreFFI_temp.dylib"@,
        forall|i: int|
            0 <= i < builds.len() ==> #[trigger] lipo_arg_views(builds)[i + 3] == "target/"@ + builds[i].1
                + "/release/librust_auth_core.dylib"@,
{
}

/// The module map written next to the header of the XCFramework.
pub const XCFRAMEWORK_MODULE_MAP: &'static str = "module rust_auth_coreFFI {\n    header \"rust_auth_coreFFI.h\"\n    export *\n}\n";

/// The arguments of the `xcodebuild` invocation that makes the XCFramework
/// from the combined library and the header directory.
pub open spec fn xcodebuild_arg_views() -> Seq<Seq<char>> {
    seq![
        "-create-xcframework"@,
        "-library"@,
        combined_dylib_path(),
        "-headers"@,
        "target/Headers_temp"@,
        "-output"@,
        "target/rust_auth_coreFFI.xcframework"@,
    ]
}

/// The arguments of the `xcodebuild` invocation that makes the XCFramework.
pub fn xcodebuild_args() -> (r: Vec<String>)
    ensures
        string_views(r@) == xcodebuild_arg_views(),
{
    let mut v: Vec<String> = Vec::new();
    v.push(to_owned("-create-xcframework"));
    v.push(to_owned("-library"));
    v.push(to_owned("target/librust_auth_coreFFI_temp.dylib"));
    v.push(to_owned("-headers"));
    v.push(to_owned("target/Headers_temp"));
    v.push(to_owned("-output"));
    v.push(to_owned("target/rust_auth_coreFFI.xcframework"));
    assert(string_views(v@) =~= xcodebuild_arg_views());
    v
}

/// The XCFramework is made from the library that `lipo` writes: the
/// argument after `-library` is the path after `lipo`'s `-output`, whatever
/// the builds; the headers come from `target/Headers_temp` and the framework
/// goes to `target/rust_auth_coreFFI.xcframework`.
pub proof fn lemma_xcodebuild_packs_lipo_output(builds: Seq<(Seq<char>, Seq<char>)>)
    ensures
        xcodebuild_arg_views().len() == 7,
        xcodebuild_arg_views()[0] == "-create-xcframework"@,
        xcodebuild_arg_views()[1] == "-library"@,
        lipo_arg_views(builds)[1] == "-output"@,
        xcodebuild_arg_views()[2] == lipo_arg_views(builds)[2],
        xcodebuild_arg_views()[3] == "-headers"@,
        xcodebuild_arg_views()[4] == "target/Headers_temp"@,
        xcodebuild_arg_views()[5] == "-output"@,
        xcodebuild_arg_views()[6] == "target/rust_auth_coreFFI.xcframework"@,
{
}

/// Every target is built exactly once across the two packagings: the
/// XCFramework builds the targets whose Rust target is a macOS target, the
/// artifact bundle builds the others.
pub proof fn lemma_packagings_partition_targets(ts: Seq<Seq<char>>)
    ensures
        builds_where(ts, true).len() + builds_where(ts, false).len() == ts.len(),
        forall|i: int|
            0 <= i < ts.len() ==> (builds_where(ts, true).contains((ts[i], swift_to_rust_target(ts[i])))
                || builds_where(ts, false).contains((ts[i], swift_to_rust_target(ts[i])))),
    decreases ts.len(),
{
    if ts.len() > 0 {
        let p = ts.drop_last();
        lemma_packagings_partition_targets(p);
        assert forall|i: int| 0 <= i < ts.len() implies (builds_where(ts, true).contains(
            (ts[i], swift_to_rust_target(ts[i])),
        ) || builds_where(ts, false).contains((ts[i], swift_to_rust_target(ts[i])))) by {
            if i < ts.len() - 1 {
                assert(ts[i] == p[i]);
                let e = (p[i], swift_to_rust_target(p[i]));
                if builds_where(p, true).contains(e) {
                    let k = choose|k: int| 0 <= k < builds_where(p, true).len() && builds_where(p, true)[k] == e;
                    assert(builds_where(ts, true)[k] == e);
                } else {
                    let k = choose|k: int| 0 <= k < builds_where(p, false).len() && builds_where(p, false)[k] == e;
                    assert(builds_where(ts, false)[k] == e);
                }
            } else {
                let e = (ts.last(), swift_to_rust_target(ts.last()));
                if is_macos_rust_target(swift_to_rust_target(ts.last())) {
                    assert(builds_where(ts, true).last() == e);
                } else {
                    assert(builds_where(ts, false).last() == e);
                }
            }
        }
    }
}

/// Where the generated bindings are written, and the library version.
pub struct GeneratedPaths {
    pub swift_file: String,
    pub header_file: String,
    pub module_map: String,
    pub version: String,
}

/// The paths of the bindings that the generator writes, for the library
/// at `version`.
pub fn generated_paths(version: &str) -> (r: GeneratedPaths)
    ensures
        r.swift_file@ == "target/generated-swift/rust_auth_core.swift"@,
        r.header_file@ == "target/generated-swift/rust_auth_coreFFI.h"@,
        r.module_map@ == "target/generated-swift/rust_auth_coreFFI.modulemap"@,
        r.version@ == version@,
{
    GeneratedPaths {
        swift_file: to_owned("target/generated-swift/rust_auth_core.swift"),
        header_file: to_owned("target/generated-swift/rust_auth_coreFFI.h"),
        module_map: to_owned("target/generated-swift/rust_auth_coreFFI.modulemap"),
        version: to_owned(version),
    }
}

/// The arguments of the `cargo` invocation that runs the bindings
/// generator on the library at `lib_path` for `language`.
pub open spec fn bindgen_arg_views(lib_path: Seq<char>, language: Seq<char>) -> Seq<Seq<char>> {
    seq![
        "run"@,
        "--package"@,
        "rust_auth_core_builder"@,
        "--bin"@,
        "uniffi-bindgen"@,
        "generate"@,
        "--library"@,
        lib_path,
        "--language"@,
        language,
        "--out-dir"@,
        "target/generated-swift"@,
    ]
}

/// The arguments of the `cargo` invocation that runs the bindings
/// generator on the library at `lib_path` for `language`.
pub fn bindgen_args(lib_path: &str, language: &str) -> (r: Vec<String>)
    ensures
        string_views(r@) == bindgen_arg_views(lib_path@, language@),
{
    let mut v: Vec<String> = Vec::new();
    v.push(to_owned("run"));
    v.push(to_owned("--package"));
    v.push(to_owned("rust_auth_core_builder"));
    v.push(to_owned("--bin"));
    v.push(to_owned("uniffi-bindgen"));
    v.push(to_owned("generate"));
    v.push(to_owned("--library"));
    v.push(to_owned(lib_path));
    v.push(to_owned("--language"));
    v.push(to_owned(language));
    v.push(to_owned("--out-dir"));
    v.push(to_owned("target/generated-swift"));
    assert(string_views(v@) =~= bindgen_arg_views(lib_path@, language@));
    v
}

/// Adds two numbers.
pub fn add(left: u64, right: u64) -> (r: u64)
    requires
        left + right <= u64::MAX,
    ensures
        r == left + right,
{
    left + right
}

} // verus!
