//! Descriptor records: the fixed-format metadata a device reports about itself.
//!
//! Every record starts with a length byte and a type byte. The fixed-size
//! records (device, configuration, interface, endpoint) are read field by
//! field from the front of a byte slice; multi-byte fields are little-endian.
use vstd::prelude::*;

pub mod configuration;
pub mod descriptor;
pub mod device;
pub mod endpoint;
pub mod interface;

verus! {

/// The 16-bit value whose low byte is `lo` and whose high byte is `hi`.
pub open spec fn le16(lo: u8, hi: u8) -> u16 {
    (lo as int + 256 * hi as int) as u16
}

/// Joins two bytes, low byte first, into a 16-bit value.
pub fn join_le16(lo: u8, hi: u8) -> (v: u16)
    ensures
        v == le16(lo, hi),
        v as int == lo as int + 256 * hi as int,
{
    assert((lo as u16 | (hi as u16) << 8) == lo as u16 + 256 * (hi as u16)) by (bit_vector);
    lo as u16 | (hi as u16) << 8
}

} // verus!
