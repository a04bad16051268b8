//! The options of a scan, as the engine numbers them. Each is one bit of the
//! flags that a scan is started with.

use vstd::prelude::*;

verus! {

pub const SCAN_FLAGS_FAST_MODE: u32 = 1;

pub const SCAN_FLAGS_PROCESS_MEMORY: u32 = 2;

pub const SCAN_FLAGS_NO_TRYCATCH: u32 = 4;

} // verus!
