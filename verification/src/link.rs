//! How the engine's library is linked: statically or dynamically, and where
//! the linker looks for it.
//!
//! The choices come from the environment of the build. This module decides
//! what they mean and words the directives for the build tool; reading the
//! environment and printing the directives is left to the caller.

use vstd::prelude::*;
use vstd::string::StringExecFns;
use vstd::string::StrSliceExecFns;
use crate::setting::{given, is_given, text_of};

verus! {

/// The name of the engine's library.
pub const LIBRARY: &'static str = "yara";

/// The setting that names a directory in which the linker is to look for the
/// library.
pub const LIBRARY_PATH_VARIABLE: &'static str = "YARA_LIBRARY_PATH";

/// The two ways to link the engine's library.
#[derive(Clone, Copy, Debug, PartialEq, Eq, Structural)]
pub enum LinkMode {
    Dynamic,
    Static,
}

impl LinkMode {
    /// The word by which the build tool knows this mode.
    pub open spec fn name(self) -> Seq<char> {
        match self {
            LinkMode::Dynamic => "dylib"@,
            LinkMode::Static => "static"@,
        }
    }

    /// The word by which the build tool knows this mode.
    pub fn as_str(self) -> (name: &'static str)
        ensures
            name@ == self.name(),
    {
        match self {
            LinkMode::Dynamic => "dylib",
            LinkMode::Static => "static",
        }
    }
}

/// The mode that an override asks for: none, or the value `0`, asks for
/// dynamic linking; any other value, the empty one too, for static linking.
pub open spec fn mode_for(value: Option<Seq<char>>) -> LinkMode {
    match value {
        None => LinkMode::Dynamic,
        Some(text) => if text =~= seq!['0'] {
            LinkMode::Dynamic
        } else {
            LinkMode::Static
        },
    }
}

/// Decides how to link from the value of the override, if one was given.
pub fn lib_mode(kind: Option<&str>) -> (mode: LinkMode)
    ensures
        mode == mode_for(text_of(kind)),
{
    match kind {
        None => LinkMode::Dynamic,
        Some(text) => {
            if text.unicode_len() == 1 && text.get_char(0) == '0' {
                assert(text@ =~= seq!['0']);
                LinkMode::Dynamic
            } else {
                LinkMode::Static
            }
        },
    }
}

/// The upper-case form of a text, as `str::to_uppercase` gives it.
pub uninterp spec fn uppercase_of(text: Seq<char>) -> Seq<char>;

/// Calls `str::to_uppercase`. The contract only names the result: the
/// upper-case form that the standard library derives from the characters of
/// `text`, and from nothing else.
#[verifier::external_body]
fn to_uppercase(text: &str) -> (upper: String)
    ensures
        upper@ == uppercase_of(text@),
{
    text.to_uppercase()
}

/// The name of the override for a library whose name in upper case is
/// `upper`.
pub open spec fn override_name(upper: Seq<char>) -> Seq<char> {
    "LIB"@ + upper + "_STATIC"@
}

/// Names the override for a library, given the library's name in upper case.
pub fn override_variable_for(upper: &str) -> (name: String)
    ensures
        name@ == override_name(upper@),
{
    let mut name = String::from_str("LIB");
    name.append(upper);
    name.append("_STATIC");
    name
}

/// Names the variable of the environment that overrides how `lib` is linked.
pub fn override_variable(lib: &str) -> (name: String)
    ensures
        name@ == override_name(uppercase_of(lib@)),
{
    let upper = to_uppercase(lib);
    override_variable_for(upper.as_str())
}

/// The directive that has the build tool link `lib` in the given mode.
pub open spec fn link_line(lib: Seq<char>, mode: LinkMode) -> Seq<char> {
    "cargo:rustc-link-lib="@ + mode.name() + "="@ + lib
}

/// Words the directive that has the build tool link `lib` in the given mode.
pub fn link_directive(lib: &str, mode: LinkMode) -> (line: String)
    ensures
        line@ == link_line(lib@, mode),
{
    let mut line = String::from_str("cargo:rustc-link-lib=");
    line.append(mode.as_str());
    line.append("=");
    line.append(lib);
    line
}

/// The directive that adds `path` to the places where the linker looks for
/// libraries.
pub open spec fn search_line(path: Seq<char>) -> Seq<char> {
    "cargo:rustc-link-search=native="@ + path
}

/// Words the directive for the search path, if a path was given and is not
/// empty.
pub fn search_directive(path: Option<&str>) -> (line: Option<String>)
    ensures
        is_given(text_of(path)) ==> (line matches Some(l) && l@ == search_line(
            text_of(path).unwrap(),
        )),
        !is_given(text_of(path)) ==> line is None,
{
    match given(path) {
        Some(text) => {
            let mut line = String::from_str("cargo:rustc-link-search=native=");
            line.append(text);
            Some(line)
        },
        None => None,
    }
}

/// Words every directive that linking `lib` takes, in the order in which the
/// build tool is to read them: first how to link the library, then, if a
/// search path was given and is not empty, where to look for it.
pub fn link_directives(lib: &str, kind: Option<&str>, path: Option<&str>) -> (lines: Vec<String>)
    ensures
        lines@.len() == if is_given(text_of(path)) {
            2nat
        } else {
            1nat
        },
        lines@[0]@ == link_line(lib@, mode_for(text_of(kind))),
        is_given(text_of(path)) ==> lines@[1]@ == search_line(text_of(path).unwrap()),
{
    let mut lines: Vec<String> = Vec::new();
    lines.push(link_directive(lib, lib_mode(kind)));
    match search_directive(path) {
        Some(line) => {
            lines.push(line);
        },
        None => {},
    }
    lines
}

} // verus!
