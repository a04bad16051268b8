//! The structures whose unions both releases lay out alike: metadata
//! entries, namespaces and rules.
//!
//! The engine declares each reference inside an anonymous union of its own,
//! and the unions are known by their position in the structure. A union is
//! held here as a structure with the one member that is read through it.

use vstd::prelude::*;

verus! {

/// The first union of a metadata entry: where its identifier lies.
#[derive(Clone, Copy, Debug, PartialEq, Eq, Structural)]
pub struct YR_META__bindgen_ty_1 {
    pub identifier: usize,
}

/// The second union of a metadata entry: where its string value lies.
#[derive(Clone, Copy, Debug, PartialEq, Eq, Structural)]
pub struct YR_META__bindgen_ty_2 {
    pub string: usize,
}

/// One key and value attached to a rule.
#[derive(Clone, Copy, Debug, PartialEq, Eq, Structural)]
pub struct YR_META {
    pub __bindgen_anon_1: YR_META__bindgen_ty_1,
    pub __bindgen_anon_2: YR_META__bindgen_ty_2,
}

impl YR_META {
    /// The address of the entry's identifier, a C string.
    pub fn get_identifier(&self) -> (address: usize)
        ensures
            address == self.__bindgen_anon_1.identifier,
    {
        self.__bindgen_anon_1.identifier
    }

    /// The address of the entry's string value, a C string.
    pub fn get_string(&self) -> (address: usize)
        ensures
            address == self.__bindgen_anon_2.string,
    {
        self.__bindgen_anon_2.string
    }
}

/// The only union of a namespace: where its name lies.
#[derive(Clone, Copy, Debug, PartialEq, Eq, Structural)]
pub struct YR_NAMESPACE__bindgen_ty_1 {
    pub name: usize,
}

/// A container that groups rules.
#[derive(Clone, Copy, Debug, PartialEq, Eq, Structural)]
pub struct YR_NAMESPACE {
    pub __bindgen_anon_1: YR_NAMESPACE__bindgen_ty_1,
}

impl YR_NAMESPACE {
    /// The address of the namespace's name, a C string.
    pub fn get_name(&self) -> (address: usize)
        ensures
            address == self.__bindgen_anon_1.name,
    {
        self.__bindgen_anon_1.name
    }
}

/// The first union of a rule: where its identifier lies.
#[derive(Clone, Copy, Debug, PartialEq, Eq, Structural)]
pub struct YR_RULE__bindgen_ty_1 {
    pub identifier: usize,
}

/// The second union of a rule: where its tag list lies.
#[derive(Clone, Copy, Debug, PartialEq, Eq, Structural)]
pub struct YR_RULE__bindgen_ty_2 {
    pub tags: usize,
}

/// The third union of a rule: where its first metadata entry lies.
#[derive(Clone, Copy, Debug, PartialEq, Eq, Structural)]
pub struct YR_RULE__bindgen_ty_3 {
    pub metas: usize,
}

/// The fourth union of a rule: where its first string lies.
#[derive(Clone, Copy, Debug, PartialEq, Eq, Structural)]
pub struct YR_RULE__bindgen_ty_4 {
    pub strings: usize,
}

/// The fifth union of a rule: where its namespace lies.
#[derive(Clone, Copy, Debug, PartialEq, Eq, Structural)]
pub struct YR_RULE__bindgen_ty_5 {
    pub ns: usize,
}

/// One compiled rule.
#[derive(Clone, Copy, Debug, PartialEq, Eq, Structural)]
pub struct YR_RULE {
    pub __bindgen_anon_1: YR_RULE__bindgen_ty_1,
    pub __bindgen_anon_2: YR_RULE__bindgen_ty_2,
    pub __bindgen_anon_3: YR_RULE__bindgen_ty_3,
    pub __bindgen_anon_4: YR_RULE__bindgen_ty_4,
    pub __bindgen_anon_5: YR_RULE__bindgen_ty_5,
}

impl YR_RULE {
    /// The address of the rule's identifier, a C string.
    pub fn get_identifier(&self) -> (address: usize)
        ensures
            address == self.__bindgen_anon_1.identifier,
    {
        self.__bindgen_anon_1.identifier
    }

    /// The address of the rule's tag list, in the engine's own encoding.
    pub fn get_tags(&self) -> (address: usize)
        ensures
            address == self.__bindgen_anon_2.tags,
    {
        self.__bindgen_anon_2.tags
    }

    /// The address of the rule's first metadata entry.
    pub fn get_metas(&self) -> (address: usize)
        ensures
            address == self.__bindgen_anon_3.metas,
    {
        self.__bindgen_anon_3.metas
    }

    /// The address of the rule's first string.
    pub fn get_strings(&self) -> (address: usize)
        ensures
            address == self.__bindgen_anon_4.strings,
    {
        self.__bindgen_anon_4.strings
    }

    /// The address of the namespace that owns the rule.
    pub fn get_ns(&self) -> (address: usize)
        ensures
            address == self.__bindgen_anon_5.ns,
    {
        self.__bindgen_anon_5.ns
    }
}

} // verus!
