use gcloud_observability::packaging::{bindgen_args, generated_paths};

#[test]
fn it_works() {
    let result = gcloud_observability::packaging::add(2, 2);
    assert_eq!(result, 4);
}

#[test]
fn generated_paths_point_at_generated_swift_dir() {
    let p = generated_paths("0.3.1");
    assert_eq!(p.swift_file, "target/generated-swift/rust_auth_core.swift");
    assert_eq!(p.header_file, "target/generated-swift/rust_auth_coreFFI.h");
    assert_eq!(p.module_map, "target/generated-swift/rust_auth_coreFFI.modulemap");
    assert_eq!(p.version, "0.3.1");
}

#[test]
fn bindgen_args_name_library_and_language() {
    let args = bindgen_args("/work/target/release/librust_auth_core.dylib", "swift");
    let expected = vec![
        "run",
        "--package",
        "rust_auth_core_builder",
        "--bin",
        "uniffi-bindgen",
        "generate",
        "--library",
        "/work/target/release/librust_auth_core.dylib",
        "--language",
        "swift",
        "--out-dir",
        "target/generated-swift",
    ];
    assert_eq!(args, expected);
}
