//! Settings that the environment of a build may hold. A setting that is
//! absent is `None`; one that is present may still be empty.

use vstd::prelude::*;

verus! {

/// The characters of a setting, if it is present.
pub open spec fn text_of(value: Option<&str>) -> Option<Seq<char>> {
    match value {
        Some(text) => Some(text@),
        None => None,
    }
}

/// Whether a setting is present and not empty.
pub open spec fn is_given(value: Option<Seq<char>>) -> bool {
    value matches Some(text) && text.len() > 0
}

/// Keeps a setting that is present and not empty, and drops any other.
pub fn given<'a>(value: Option<&'a str>) -> (kept: Option<&'a str>)
    ensures
        kept == if is_given(text_of(value)) {
            value
        } else {
            None
        },
{
    match value {
        Some(text) if !text.is_empty() => Some(text),
        _ => None,
    }
}

} // verus!
