use zvec::build_support::{
    missing_library_warning, rpath_directive, rpath_flags, runtime_lib_file_names,
    staging_failure_warning,
};

#[test]
fn runtime_lib_file_names_per_platform() {
    assert_eq!(runtime_lib_file_names("macos"), &["libzvec_c_api.dylib"]);
    assert_eq!(runtime_lib_file_names("ios"), &["libzvec_c_api.dylib"]);
    assert_eq!(runtime_lib_file_names("windows"), &["zvec_c_api.dll"]);
    assert_eq!(runtime_lib_file_names("linux"), &["libzvec_c_api.so"]);
    assert_eq!(runtime_lib_file_names(""), &["libzvec_c_api.so"]);
}

#[test]
fn rpath_flags_per_platform() {
    assert_eq!(
        rpath_flags("macos", true, Some("/opt/zvec/lib")),
        vec![
            "@executable_path",
            "@executable_path/../lib",
            "@loader_path",
            "@loader_path/../lib"
        ]
    );
    assert_eq!(
        rpath_flags("linux", false, Some("/opt/zvec/lib")),
        vec!["$ORIGIN", "$ORIGIN/../lib", "/opt/zvec/lib"]
    );
    assert_eq!(
        rpath_flags("linux", false, None),
        vec!["$ORIGIN", "$ORIGIN/../lib"]
    );
    assert!(rpath_flags("windows", false, Some("C:/zvec")).is_empty());
}

#[test]
fn build_script_lines() {
    assert_eq!(
        rpath_directive("$ORIGIN"),
        "cargo:rustc-link-arg-bins=-Wl,-rpath,$ORIGIN"
    );
    assert_eq!(
        missing_library_warning("linux"),
        "cargo:warning=zvec-rust-build: shared library not located; `./libzvec_c_api.so` may require DYLD_LIBRARY_PATH/LD_LIBRARY_PATH"
    );
    assert_eq!(
        staging_failure_warning("permission denied"),
        "cargo:warning=zvec-rust-build: failed to stage shared library: permission denied"
    );
}
