//! Major release 4 of the engine: its codes for the kinds of metadata, and
//! the structures that it lays out in its own way.
//!
//! In this release a match list keeps its head and its tail as plain fields,
//! and a string keeps its descriptor in its first union and its identifier in
//! its third. No code stands for a metadata entry without a value any more.

use vstd::prelude::*;

pub use crate::common::{YR_META, YR_NAMESPACE, YR_RULE};

verus! {

pub const META_TYPE_INTEGER: u32 = 1;

pub const META_TYPE_STRING: u32 = 2;

pub const META_TYPE_BOOLEAN: u32 = 3;

/// The kind of value that a metadata entry of a rule holds.
#[derive(Clone, Copy, Debug, PartialEq, Eq, Structural)]
pub enum MetaType {
    Null,
    Integer,
    String,
    Boolean,
}

impl MetaType {
    /// The constant by which the engine names this kind, if this release
    /// defines one for it. Release 4 defines none for `Null`.
    pub open spec fn code(self) -> Option<u32> {
        match self {
            MetaType::Null => None,
            MetaType::Integer => Some(META_TYPE_INTEGER),
            MetaType::String => Some(META_TYPE_STRING),
            MetaType::Boolean => Some(META_TYPE_BOOLEAN),
        }
    }

    /// Whether the engine names this kind by `code`.
    pub open spec fn has_code(self, code: int) -> bool {
        self.code() matches Some(c) && c == code
    }

    /// Whether the engine names any kind by `code`.
    pub open spec fn is_known_code(code: int) -> bool {
        ||| MetaType::Null.has_code(code)
        ||| MetaType::Integer.has_code(code)
        ||| MetaType::String.has_code(code)
        ||| MetaType::Boolean.has_code(code)
    }

    /// Finds the kind that the engine names by `code`. A code that names no
    /// kind is handed back as the error; no code gives `Null`.
    pub fn from_code(code: i32) -> (result: Result<Self, i32>)
        ensures
            match result {
                Ok(kind) => kind.has_code(code as int),
                Err(rejected) => rejected == code && !Self::is_known_code(code as int),
            },
            result != Ok::<Self, i32>(MetaType::Null),
    {
        if code < 0 {
            return Err(code);
        }
        let raw: u32 = code as u32;
        if raw == META_TYPE_INTEGER {
            Ok(MetaType::Integer)
        } else if raw == META_TYPE_STRING {
            Ok(MetaType::String)
        } else if raw == META_TYPE_BOOLEAN {
            Ok(MetaType::Boolean)
        } else {
            Err(code)
        }
    }
}

/// The known codes are the codes of the kinds, and no others.
pub proof fn lemma_known_codes(code: int)
    ensures
        MetaType::is_known_code(code) <==> exists|kind: MetaType| #[trigger] kind.has_code(code),
{
    if MetaType::is_known_code(code) {
        let kind = if MetaType::Integer.has_code(code) {
            MetaType::Integer
        } else if MetaType::String.has_code(code) {
            MetaType::String
        } else {
            MetaType::Boolean
        };
        assert(kind.has_code(code));
    }
}

/// Every kind but `Null` has a code in this release, and `Null` has none.
pub proof fn lemma_every_kind_but_null_has_code(kind: MetaType)
    ensures
        kind.code() is Some <==> kind != MetaType::Null,
        kind != MetaType::Null ==> MetaType::is_known_code(kind.code().unwrap() as int),
{
}

/// Codes and kinds pair off one to one: a code names at most one kind, and a
/// kind is named by at most one code.
pub proof fn lemma_codes_pair_with_kinds(first: MetaType, second: MetaType, a: int, b: int)
    requires
        first.has_code(a),
        second.has_code(b),
    ensures
        first == second <==> a == b,
{
}

/// The matches that a scan found for one string.
#[derive(Clone, Copy, Debug, PartialEq, Eq, Structural)]
pub struct YR_MATCHES {
    pub head: usize,
    pub tail: usize,
}

impl YR_MATCHES {
    /// The address of the first match of the list.
    pub fn get_head(&self) -> (address: usize)
        ensures
            address == self.head,
    {
        self.head
    }

    /// The address of the last match of the list.
    pub fn get_tail(&self) -> (address: usize)
        ensures
            address == self.tail,
    {
        self.tail
    }
}

/// The first union of a string: where its descriptor lies.
#[derive(Clone, Copy, Debug, PartialEq, Eq, Structural)]
pub struct YR_STRING__bindgen_ty_1 {
    pub string: usize,
}

/// The second union of a string: where the string that it is chained to lies.
#[derive(Clone, Copy, Debug, PartialEq, Eq, Structural)]
pub struct YR_STRING__bindgen_ty_2 {
    pub chained_to: usize,
}

/// The third union of a string: where its identifier lies.
#[derive(Clone, Copy, Debug, PartialEq, Eq, Structural)]
pub struct YR_STRING__bindgen_ty_3 {
    pub identifier: usize,
}

/// One string of a rule.
#[derive(Clone, Copy, Debug, PartialEq, Eq, Structural)]
pub struct YR_STRING {
    pub __bindgen_anon_1: YR_STRING__bindgen_ty_1,
    pub __bindgen_anon_2: YR_STRING__bindgen_ty_2,
    pub __bindgen_anon_3: YR_STRING__bindgen_ty_3,
}

impl YR_STRING {
    /// The address of the string's identifier, a C string.
    pub fn get_identifier(&self) -> (address: usize)
        ensures
            address == self.__bindgen_anon_3.identifier,
    {
        self.__bindgen_anon_3.identifier
    }

    /// The address of the string's descriptor, in the engine's own encoding.
    pub fn get_string(&self) -> (address: usize)
        ensures
            address == self.__bindgen_anon_1.string,
    {
        self.__bindgen_anon_1.string
    }
}

} // verus!
