//! The fixed-size opaque identifier a well-known directory is named by.

use vstd::prelude::*;

verus! {

/// A 128-bit platform identifier for a well-known directory, laid out as
/// the platform defines it: one 32-bit group, two 16-bit groups, and
/// eight trailing bytes.
///
/// A `Guid` is plain data with no identity beyond its value: two
/// identifiers name the same directory exactly when all four fields are
/// equal.
#[derive(Debug, Clone, Copy)]
pub struct Guid {
    /// The first group: bits 96..128 of the identifier.
    pub data1: u32,
    /// The second group: bits 80..96 of the identifier.
    pub data2: u16,
    /// The third group: bits 64..80 of the identifier.
    pub data3: u16,
    /// The final eight bytes: bits 0..64 of the identifier.
    pub data4: [u8; 8],
}

} // verus!
