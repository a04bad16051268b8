//! A version-tolerant seam over the result structures of the YARA engine.
//!
//! The engine's public structures changed shape between its major releases
//! 3 and 4: references moved between anonymous unions, and one structure lost
//! its unions altogether. The modules [`v3`] and [`v4`] each describe one
//! release; both offer the same accessors under the same names, so that code
//! written against one reads unchanged against the other. What the two
//! releases lay out alike is in [`common`]. Exactly one of the two fits a
//! given build.
//!
//! Every reference the engine stores is held here as the address it points to.
//! An accessor hands that address out and never follows it.
//!
//! The other modules serve the build. [`link`] decides how the engine's
//! library is linked, [`bindings`] where the raw declarations of the engine
//! come from, [`version`] finds the major release in those declarations, and
//! [`selector`] words the directive that selects the code for that release.
//! None of them reads the environment or touches a file: they take what was
//! read and give back what is to be written.

#![allow(non_camel_case_types)]
#![allow(non_snake_case)]

pub mod bindings;
pub mod common;
pub mod link;
pub mod scan_flags;
pub mod selector;
pub mod setting;
pub mod v3;
pub mod v4;
pub mod version;
