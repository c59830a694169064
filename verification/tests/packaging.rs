use gcloud_observability::packaging::{
    artifactbundle_manifest, artifactbundle_zip_entries, cargo_build_args, map_swift_to_rust_target,
    plan_artifactbundle, plan_xcframework, select_builds, CombineStep,
};

fn targets(v: &[&str]) -> Vec<String> {
    v.iter().map(|s| s.to_string()).collect()
}

#[test]
fn swift_targets_map_to_rust_targets() {
    assert_eq!(map_swift_to_rust_target("x86_64-swift-linux-musl"), "x86_64-unknown-linux-musl");
    assert_eq!(map_swift_to_rust_target("aarch64-swift-linux-musl"), "aarch64-unknown-linux-musl");
    assert_eq!(map_swift_to_rust_target("x86_64-unknown-windows-msvc"), "x86_64-pc-windows-msvc");
    assert_eq!(map_swift_to_rust_target("aarch64-unknown-windows-msvc"), "aarch64-pc-windows-msvc");
    assert_eq!(map_swift_to_rust_target("wasm32-unknown-wasi"), "wasm32-wasip1");
    assert_eq!(map_swift_to_rust_target("x86_64-apple-macosx"), "x86_64-apple-darwin");
    assert_eq!(map_swift_to_rust_target("arm64-apple-macosx"), "aarch64-apple-darwin");
    assert_eq!(map_swift_to_rust_target("riscv64gc-unknown-linux-gnu"), "riscv64gc-unknown-linux-gnu");
}

#[test]
fn builds_split_by_macos() {
    let ts = targets(&["x86_64-swift-linux-musl", "arm64-apple-macosx", "x86_64-apple-macosx"]);
    let mac = select_builds(&ts, true);
    assert_eq!(mac.len(), 2);
    assert_eq!(mac[0].target, "arm64-apple-macosx");
    assert_eq!(mac[0].rust_target, "aarch64-apple-darwin");
    let other = select_builds(&ts, false);
    assert_eq!(other.len(), 1);
    assert_eq!(other[0].rust_target, "x86_64-unknown-linux-musl");
}

#[test]
fn cargo_arguments() {
    assert_eq!(
        cargo_build_args("x86_64-unknown-linux-musl"),
        vec!["build", "--package", "rust_auth_core", "--release", "--target", "x86_64-unknown-linux-musl", "--target-dir", "target"]
    );
}

#[test]
fn manifest_lists_each_variant() {
    let ts = targets(&["x86_64-swift-linux-musl"]);
    let builds = select_builds(&ts, false);
    let m = artifactbundle_manifest("1.2.3", &builds);
    let expected = "{\n  \"schemaVersion\": \"1.0\",\n  \"artifacts\": {\n    \"rust_auth_coreFFI\": {\n      \"version\": \"1.2.3\",\n      \"type\": \"staticLibrary\",\n      \"variants\": [\n        {\n                  \"path\": \"x86_64-swift-linux-musl/librust_auth_coreFFI.a\",\n                  \"supportedTriples\": [\"x86_64-swift-linux-musl\"],\n                  \"staticLibraryMetadata\": {\n                    \"headerPaths\": [\"x86_64-swift-linux-musl/include\"],\n                    \"moduleMapPath\": \"x86_64-swift-linux-musl/include/module.modulemap\"\n                  }\n                }\n      ]\n    }\n  }\n}";
    assert_eq!(m, expected);
    let two = targets(&["a-t", "b-t"]);
    let m2 = artifactbundle_manifest("0", &select_builds(&two, false));
    assert!(m2.contains("}\n                },\n        {\n"));
}

#[test]
fn zip_entries_of_bundle() {
    let ts = targets(&["x86_64-swift-linux-musl", "aarch64-apple-darwin"]);
    let entries = artifactbundle_zip_entries(&ts);
    assert_eq!(entries.len(), 4);
    assert_eq!(entries[0].name, "rust_auth_coreFFI.artifactbundle/info.json");
    assert_eq!(entries[0].target, None);
    assert_eq!(entries[1].name, "rust_auth_coreFFI.artifactbundle/x86_64-swift-linux-musl/librust_auth_coreFFI.a");
    assert_eq!(entries[1].target, Some("x86_64-swift-linux-musl".to_string()));
    assert_eq!(entries[3].file, "include/module.modulemap");
}

#[test]
fn artifactbundle_plan() {
    let only_mac = plan_artifactbundle(&targets(&["arm64-apple-macosx"]), "1.0.0");
    assert!(only_mac.builds.is_empty());
    assert!(only_mac.manifest.is_none());
    assert!(only_mac.zip_entries.is_empty());
    let linux = plan_artifactbundle(&targets(&["x86_64-swift-linux-musl"]), "1.0.0");
    assert_eq!(linux.builds.len(), 1);
    assert!(linux.manifest.is_some());
    assert_eq!(linux.zip_entries.len(), 4);
}

#[test]
fn xcframework_plan() {
    assert_eq!(plan_xcframework(&targets(&["x86_64-swift-linux-musl"])).combine, CombineStep::Skip);
    assert_eq!(plan_xcframework(&targets(&["arm64-apple-macosx"])).combine, CombineStep::CopySingle);
    let both = plan_xcframework(&targets(&["arm64-apple-macosx", "x86_64-apple-macosx"]));
    assert_eq!(both.combine, CombineStep::Lipo);
    assert_eq!(both.builds.len(), 2);
}

#[test]
fn every_target_is_built_once() {
    let ts = targets(&["x86_64-swift-linux-musl", "arm64-apple-macosx", "wasm32-unknown-wasi", "x86_64-apple-macosx"]);
    let mac = plan_xcframework(&ts).builds.len();
    let other = plan_artifactbundle(&ts, "1").builds.len();
    assert_eq!(mac + other, ts.len());
}

#[test]
fn bundle_archives_only_built_targets() {
    let ts = targets(&["arm64-apple-macosx", "wasm32-unknown-wasi"]);
    let plan = plan_artifactbundle(&ts, "1.0.0");
    assert_eq!(plan.builds.len(), 1);
    assert_eq!(plan.zip_entries.len(), 4);
    assert!(plan.zip_entries.iter().all(|e| e.target.as_deref() != Some("arm64-apple-macosx")));
    assert_eq!(plan.zip_entries[1].target, Some("wasm32-unknown-wasi".to_string()));
}
