use yara_sys::version::{
    begins_with, detect_major_version, read_version_value, VersionError, VERSION_MARKER,
};

#[test]
fn detects_release_4() {
    let artifact = b"pub const YR_MAJOR_VERSION: u32 = 4;";
    assert_eq!(detect_major_version(artifact), Ok(4));
}

#[test]
fn detects_release_3() {
    let artifact = b"pub const YR_MAJOR_VERSION: u32 = 3;\n";
    assert_eq!(detect_major_version(artifact), Ok(3));
}

#[test]
fn detects_the_release_among_other_declarations() {
    let artifact = b"/* declarations of the engine */\n\n\
pub const META_TYPE_INTEGER: u32 = 1;\n\
pub const YR_MAJOR_VERSION: u32 = 4;\n\
pub const YR_MINOR_VERSION: u32 = 0;\n\
pub const YR_MICRO_VERSION: u32 = 2;\n";
    assert_eq!(detect_major_version(artifact), Ok(4));
}

#[test]
fn line_without_terminator_is_rejected() {
    let artifact = b"pub const YR_MAJOR_VERSION: u32 = 4";
    assert_eq!(detect_major_version(artifact), Err(VersionError::InvalidValue));
    let artifact = b"pub const YR_MAJOR_VERSION: u32 = 4\npub const OTHER: u32 = 1;\n";
    assert_eq!(detect_major_version(artifact), Err(VersionError::InvalidValue));
}

#[test]
fn text_without_the_line_is_rejected() {
    let artifact = b"pub const META_TYPE_INTEGER: u32 = 1;\npub const META_TYPE_STRING: u32 = 2;\n";
    assert_eq!(detect_major_version(artifact), Err(VersionError::MissingLine));
}

#[test]
fn empty_text_is_rejected() {
    assert_eq!(detect_major_version(b""), Err(VersionError::MissingLine));
    assert_eq!(detect_major_version(b"\n"), Err(VersionError::MissingLine));
    assert_eq!(detect_major_version(b"\n\n\n"), Err(VersionError::MissingLine));
}

#[test]
fn the_marker_alone_is_not_enough() {
    let artifact = b"pub const YR_MAJOR_VERSION: u32 = ";
    assert_eq!(detect_major_version(artifact), Err(VersionError::InvalidValue));
    let artifact = b"pub const YR_MAJOR_VERSION: u32 = ;";
    assert_eq!(detect_major_version(artifact), Err(VersionError::InvalidValue));
}

#[test]
fn a_cut_marker_is_no_marker() {
    let artifact = b"pub const YR_MAJOR_VERSION: u32 =";
    assert_eq!(detect_major_version(artifact), Err(VersionError::MissingLine));
    let artifact = b"pub const YR_MAJOR_VERSION: u32 =4;";
    assert_eq!(detect_major_version(artifact), Err(VersionError::MissingLine));
}

#[test]
fn the_marker_has_to_begin_the_line() {
    let artifact = b" pub const YR_MAJOR_VERSION: u32 = 4;\n";
    assert_eq!(detect_major_version(artifact), Err(VersionError::MissingLine));
    let artifact = b"// pub const YR_MAJOR_VERSION: u32 = 4;\n";
    assert_eq!(detect_major_version(artifact), Err(VersionError::MissingLine));
}

#[test]
fn the_first_marked_line_decides() {
    let artifact = b"pub const YR_MAJOR_VERSION: u32 = 3;\npub const YR_MAJOR_VERSION: u32 = 4;\n";
    assert_eq!(detect_major_version(artifact), Ok(3));
    let artifact = b"pub const YR_MAJOR_VERSION: u32 = x;\npub const YR_MAJOR_VERSION: u32 = 4;\n";
    assert_eq!(detect_major_version(artifact), Err(VersionError::InvalidValue));
}

#[test]
fn carriage_return_before_newline_ends_the_line() {
    let artifact = b"pub const A: u32 = 1;\r\npub const YR_MAJOR_VERSION: u32 = 4;\r\n";
    assert_eq!(detect_major_version(artifact), Ok(4));
}

#[test]
fn carriage_return_at_the_end_of_the_text_stays_in_the_line() {
    let artifact = b"pub const YR_MAJOR_VERSION: u32 = 4;\r";
    assert_eq!(detect_major_version(artifact), Err(VersionError::InvalidValue));
}

#[test]
fn only_one_carriage_return_is_taken_off() {
    let artifact = b"pub const YR_MAJOR_VERSION: u32 = 4;\r\r\n";
    assert_eq!(detect_major_version(artifact), Err(VersionError::InvalidValue));
}

#[test]
fn nothing_may_follow_the_terminator() {
    let artifact = b"pub const YR_MAJOR_VERSION: u32 = 4; \n";
    assert_eq!(detect_major_version(artifact), Err(VersionError::InvalidValue));
    let artifact = b"pub const YR_MAJOR_VERSION: u32 = 4;;\n";
    assert_eq!(detect_major_version(artifact), Err(VersionError::InvalidValue));
}

#[test]
fn the_value_has_to_be_digits() {
    for value in ["-4;", "+4;", "4u32;", " 4;", "0x4;", "four;", "4 ;", "4.0;"] {
        let mut artifact = VERSION_MARKER.as_bytes().to_vec();
        artifact.extend_from_slice(value.as_bytes());
        artifact.push(b'\n');
        assert_eq!(detect_major_version(&artifact), Err(VersionError::InvalidValue));
    }
}

#[test]
fn the_value_has_to_fit_32_bits() {
    let artifact = b"pub const YR_MAJOR_VERSION: u32 = 4294967295;\n";
    assert_eq!(detect_major_version(artifact), Ok(4294967295));
    let artifact = b"pub const YR_MAJOR_VERSION: u32 = 4294967296;\n";
    assert_eq!(detect_major_version(artifact), Err(VersionError::InvalidValue));
    let artifact = b"pub const YR_MAJOR_VERSION: u32 = 99999999999999999999999999;\n";
    assert_eq!(detect_major_version(artifact), Err(VersionError::InvalidValue));
}

#[test]
fn leading_zeros_do_not_count() {
    let artifact = b"pub const YR_MAJOR_VERSION: u32 = 004;\n";
    assert_eq!(detect_major_version(artifact), Ok(4));
    let artifact = b"pub const YR_MAJOR_VERSION: u32 = 0;\n";
    assert_eq!(detect_major_version(artifact), Ok(0));
    let artifact = b"pub const YR_MAJOR_VERSION: u32 = 000000000000000000000012;\n";
    assert_eq!(detect_major_version(artifact), Ok(12));
}

#[test]
fn reads_a_value() {
    assert_eq!(read_version_value(b"123;"), Ok(123));
    assert_eq!(read_version_value(b"3;"), Ok(3));
    assert_eq!(read_version_value(b"0;"), Ok(0));
    assert_eq!(read_version_value(b"4294967295;"), Ok(u32::MAX));
    assert_eq!(read_version_value(b"4294967296;"), Err(VersionError::InvalidValue));
    assert_eq!(read_version_value(b"123"), Err(VersionError::InvalidValue));
    assert_eq!(read_version_value(b"b123;"), Err(VersionError::InvalidValue));
    assert_eq!(read_version_value(b"12a3;"), Err(VersionError::InvalidValue));
    assert_eq!(read_version_value(b";"), Err(VersionError::InvalidValue));
    assert_eq!(read_version_value(b""), Err(VersionError::InvalidValue));
    assert_eq!(read_version_value(b"/;"), Err(VersionError::InvalidValue));
    assert_eq!(read_version_value(b":;"), Err(VersionError::InvalidValue));
}

#[test]
fn tells_whether_a_text_begins_with_a_prefix() {
    assert!(begins_with(b"hello world", b"hello"));
    assert!(begins_with(b"hello world", b"hello world"));
    assert!(begins_with(b"world", b""));
    assert!(begins_with(b"", b""));
    assert!(!begins_with(b"worl", b"world"));
    assert!(!begins_with(b"hello world", b"world"));
    assert!(!begins_with(b"hello world", b"hellp"));
    assert!(!begins_with(b"", b"h"));
}
