//! Where the raw declarations of the engine come from.
//!
//! A build either takes a set of declarations that was written out
//! beforehand for one release of the engine, or has them derived from the
//! engine's header. This module holds the choice between the two and what
//! each of them needs to know; copying files and running the tool that reads
//! the header is left to the caller.

use vstd::prelude::*;
use vstd::string::StringExecFns;
use crate::setting::{given, is_given, text_of};

verus! {

/// The name under which the declarations are placed in the build's output
/// directory, whichever way they were obtained.
pub const BINDINGS_FILE: &'static str = "bindings.rs";

/// The directory that holds the declarations written out beforehand.
pub const BUNDLED_DIRECTORY: &'static str = "bindings";

/// The setting that names a directory in which the header's reader is to look
/// for the files that the header includes.
pub const INCLUDE_DIR_VARIABLE: &'static str = "YARA_INCLUDE_DIR";

/// The header from which declarations are derived.
pub const WRAPPER_HEADER: &'static str = "wrapper.h";

/// A release of the engine for which declarations were written out
/// beforehand.
#[derive(Clone, Copy, Debug, PartialEq, Eq, Structural)]
pub enum BundledRelease {
    V3_7,
    V3_11,
}

impl BundledRelease {
    /// The name of the file that holds this release's declarations.
    pub open spec fn file(self) -> Seq<char> {
        match self {
            BundledRelease::V3_7 => "yara-3.7.rs"@,
            BundledRelease::V3_11 => "yara-3.11.rs"@,
        }
    }

    /// The name of the file that holds this release's declarations.
    pub fn file_name(self) -> (name: &'static str)
        ensures
            name@ == self.file(),
    {
        match self {
            BundledRelease::V3_7 => "yara-3.7.rs",
            BundledRelease::V3_11 => "yara-3.11.rs",
        }
    }
}

/// The way a build obtains the declarations.
#[derive(Clone, Copy, Debug, PartialEq, Eq, Structural)]
pub enum BindingSource {
    /// Copy the declarations written out beforehand for a release.
    Bundled(BundledRelease),
    /// Derive the declarations from the engine's header.
    Generated,
}

/// A build asked for the written-out declarations of two releases at once.
#[derive(Clone, Copy, Debug, PartialEq, Eq, Structural)]
pub struct ConflictingReleases;

/// The source that the build's choices select: the written-out declarations
/// of the one release that was asked for, the header if none was, and nothing
/// if both were.
pub open spec fn source_for(bundled_3_7: bool, bundled_3_11: bool) -> Result<
    BindingSource,
    ConflictingReleases,
> {
    if bundled_3_7 && bundled_3_11 {
        Err(ConflictingReleases)
    } else if bundled_3_7 {
        Ok(BindingSource::Bundled(BundledRelease::V3_7))
    } else if bundled_3_11 {
        Ok(BindingSource::Bundled(BundledRelease::V3_11))
    } else {
        Ok(BindingSource::Generated)
    }
}

/// Selects the source of the declarations from the build's choices.
pub fn select_source(bundled_3_7: bool, bundled_3_11: bool) -> (source: Result<
    BindingSource,
    ConflictingReleases,
>)
    ensures
        source == source_for(bundled_3_7, bundled_3_11),
{
    match (bundled_3_7, bundled_3_11) {
        (true, true) => Err(ConflictingReleases),
        (true, false) => Ok(BindingSource::Bundled(BundledRelease::V3_7)),
        (false, true) => Ok(BindingSource::Bundled(BundledRelease::V3_11)),
        (false, false) => Ok(BindingSource::Generated),
    }
}

/// The characters of each of a list of texts.
pub open spec fn texts_of(items: Seq<&'static str>) -> Seq<Seq<char>> {
    Seq::new(items.len(), |i: int| items[i]@)
}

/// The patterns of the constants that are taken from the header: the codes
/// of callbacks, errors, kinds of metadata and error levels, the flag of a
/// string without flags, the options of a scan, and the release numbers.
pub open spec fn allowed_variables() -> Seq<Seq<char>> {
    seq![
        "CALLBACK_.*"@,
        "ERROR_.*"@,
        "META_TYPE_.*"@,
        "STRING_GFLAGS_NULL"@,
        "YARA_ERROR_LEVEL_.*"@,
        "SCAN_FLAGS_.*"@,
        "YR_.*_VERSION"@,
    ]
}

/// The patterns of the functions that are taken from the header: starting
/// and stopping the engine, the compiler, rules and rule sets, and the index
/// of the calling thread.
pub open spec fn allowed_functions() -> Seq<Seq<char>> {
    seq![
        "yr_initialize"@,
        "yr_finalize"@,
        "yr_finalize_thread"@,
        "yr_compiler_.*"@,
        "yr_rule_.*"@,
        "yr_rules_.*"@,
        "yr_get_tidx"@,
    ]
}

/// The structures that are taken from the header by name: external
/// variables and matches.
pub open spec fn allowed_types() -> Seq<Seq<char>> {
    seq!["YR_EXTERNAL_VARIABLE"@, "YR_MATCH"@]
}

/// The structures that are declared without a layout, because nothing here
/// looks inside them.
pub open spec fn opaque_types() -> Seq<Seq<char>> {
    seq![
        "YR_COMPILER"@,
        "YR_ARENA"@,
        "YR_AC_MATCH_TABLE"@,
        "YR_AC_TRANSITION_TABLE"@,
        "_YR_EXTERNAL_VARIABLE"@,
    ]
}

/// The argument that has the header's reader look for included files in
/// `directory`.
pub open spec fn include_argument(directory: Seq<char>) -> Seq<char> {
    "-I"@ + directory
}

/// What the tool that reads the header is asked for.
#[derive(Clone, Debug)]
pub struct GeneratorRequest {
    /// The header to read.
    pub header: &'static str,
    /// Patterns of the constants to declare.
    pub variables: Vec<&'static str>,
    /// Patterns of the functions to declare.
    pub functions: Vec<&'static str>,
    /// Patterns of the structures to declare.
    pub types: Vec<&'static str>,
    /// Patterns of the structures to declare without a layout.
    pub opaque_types: Vec<&'static str>,
    /// Arguments for the reader of the header.
    pub clang_args: Vec<String>,
}

impl GeneratorRequest {
    /// Whether this is the request that this library makes, with the
    /// directory of included files that was given, if any.
    pub open spec fn is_request_for(&self, include_dir: Option<Seq<char>>) -> bool {
        &&& self.header@ == WRAPPER_HEADER@
        &&& texts_of(self.variables@) == allowed_variables()
        &&& texts_of(self.functions@) == allowed_functions()
        &&& texts_of(self.types@) == allowed_types()
        &&& texts_of(self.opaque_types@) == opaque_types()
        &&& if is_given(include_dir) {
            &&& self.clang_args@.len() == 1
            &&& self.clang_args@[0]@ == include_argument(include_dir.unwrap())
        } else {
            self.clang_args@.len() == 0
        }
    }
}

/// Draws up the request to the tool that reads the header. A directory of
/// included files is passed on if one was given and is not empty.
pub fn generator_request(include_dir: Option<&str>) -> (request: GeneratorRequest)
    ensures
        request.is_request_for(text_of(include_dir)),
{
    let variables: Vec<&'static str> = vec![
        "CALLBACK_.*",
        "ERROR_.*",
        "META_TYPE_.*",
        "STRING_GFLAGS_NULL",
        "YARA_ERROR_LEVEL_.*",
        "SCAN_FLAGS_.*",
        "YR_.*_VERSION",
    ];
    let functions: Vec<&'static str> = vec![
        "yr_initialize",
        "yr_finalize",
        "yr_finalize_thread",
        "yr_compiler_.*",
        "yr_rule_.*",
        "yr_rules_.*",
        "yr_get_tidx",
    ];
    let types: Vec<&'static str> = vec!["YR_EXTERNAL_VARIABLE", "YR_MATCH"];
    let opaque: Vec<&'static str> = vec![
        "YR_COMPILER",
        "YR_ARENA",
        "YR_AC_MATCH_TABLE",
        "YR_AC_TRANSITION_TABLE",
        "_YR_EXTERNAL_VARIABLE",
    ];
    let mut clang_args: Vec<String> = Vec::new();
    match given(include_dir) {
        Some(directory) => {
            let mut argument = String::from_str("-I");
            argument.append(directory);
            clang_args.push(argument);
        },
        None => {},
    }
    assert(texts_of(variables@) =~= allowed_variables());
    assert(texts_of(functions@) =~= allowed_functions());
    assert(texts_of(types@) =~= allowed_types());
    assert(texts_of(opaque@) =~= opaque_types());
    GeneratorRequest {
        header: WRAPPER_HEADER,
        variables,
        functions,
        types,
        opaque_types: opaque,
        clang_args,
    }
}

} // verus!
