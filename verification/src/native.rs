//! Constants of the native service-discovery interface.
use vstd::prelude::*;

verus! {

/// Native flag word: more replies are queued right behind this one.
pub const FLAGS_MORE_COMING: u32 = 0x1;

/// Native flag word: the reply adds a record (unset: the record went away).
pub const FLAGS_ADD: u32 = 0x2;

/// Native flag word: the query is a long-lived unicast query.
pub const FLAGS_LONG_LIVED_QUERY: u32 = 0x100;

/// Native error code that reports success.
pub const NO_ERROR: i32 = 0;

} // verus!
