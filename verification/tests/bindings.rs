use yara_sys::bindings::{
    generator_request, select_source, BindingSource, BundledRelease, ConflictingReleases,
    BINDINGS_FILE, BUNDLED_DIRECTORY, WRAPPER_HEADER,
};
use yara_sys::scan_flags::{
    SCAN_FLAGS_FAST_MODE, SCAN_FLAGS_NO_TRYCATCH, SCAN_FLAGS_PROCESS_MEMORY,
};

#[test]
fn no_choice_derives_the_declarations() {
    assert_eq!(select_source(false, false), Ok(BindingSource::Generated));
}

#[test]
fn one_choice_takes_that_release() {
    assert_eq!(select_source(true, false), Ok(BindingSource::Bundled(BundledRelease::V3_7)));
    assert_eq!(select_source(false, true), Ok(BindingSource::Bundled(BundledRelease::V3_11)));
}

#[test]
fn two_choices_conflict() {
    assert_eq!(select_source(true, true), Err(ConflictingReleases));
}

#[test]
fn bundled_releases_have_their_files() {
    assert_eq!(BundledRelease::V3_7.file_name(), "yara-3.7.rs");
    assert_eq!(BundledRelease::V3_11.file_name(), "yara-3.11.rs");
    assert_eq!(BUNDLED_DIRECTORY, "bindings");
    assert_eq!(BINDINGS_FILE, "bindings.rs");
}

#[test]
fn request_lists_what_is_taken_from_the_header() {
    let request = generator_request(None);
    assert_eq!(request.header, "wrapper.h");
    assert_eq!(request.header, WRAPPER_HEADER);
    assert_eq!(
        request.variables,
        vec![
            "CALLBACK_.*",
            "ERROR_.*",
            "META_TYPE_.*",
            "STRING_GFLAGS_NULL",
            "YARA_ERROR_LEVEL_.*",
            "SCAN_FLAGS_.*",
            "YR_.*_VERSION",
        ]
    );
    assert_eq!(
        request.functions,
        vec![
            "yr_initialize",
            "yr_finalize",
            "yr_finalize_thread",
            "yr_compiler_.*",
            "yr_rule_.*",
            "yr_rules_.*",
            "yr_get_tidx",
        ]
    );
    assert_eq!(request.types, vec!["YR_EXTERNAL_VARIABLE", "YR_MATCH"]);
    assert_eq!(
        request.opaque_types,
        vec![
            "YR_COMPILER",
            "YR_ARENA",
            "YR_AC_MATCH_TABLE",
            "YR_AC_TRANSITION_TABLE",
            "_YR_EXTERNAL_VARIABLE",
        ]
    );
    assert!(request.clang_args.is_empty());
}

#[test]
fn request_passes_the_include_directory_on() {
    let request = generator_request(Some("/opt/yara/include"));
    assert_eq!(request.clang_args, vec!["-I/opt/yara/include"]);
    let request = generator_request(Some("."));
    assert_eq!(request.clang_args, vec!["-I."]);
}

#[test]
fn request_ignores_an_empty_include_directory() {
    let request = generator_request(Some(""));
    assert!(request.clang_args.is_empty());
}

#[test]
fn include_directory_changes_nothing_else() {
    let plain = generator_request(None);
    let with_directory = generator_request(Some("/x"));
    assert_eq!(plain.header, with_directory.header);
    assert_eq!(plain.variables, with_directory.variables);
    assert_eq!(plain.functions, with_directory.functions);
    assert_eq!(plain.types, with_directory.types);
    assert_eq!(plain.opaque_types, with_directory.opaque_types);
}

#[test]
fn scan_flags_are_the_engine_s_bits() {
    assert_eq!(SCAN_FLAGS_FAST_MODE, 1);
    assert_eq!(SCAN_FLAGS_PROCESS_MEMORY, 2);
    assert_eq!(SCAN_FLAGS_NO_TRYCATCH, 4);
}
