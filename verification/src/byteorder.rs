//! Detection of the machine's native byte order.
//!
//! The codec itself never depends on the answer -- every wire value is
//! assembled and taken apart arithmetically in network (big-endian) order --
//! but callers can ask which order the machine stores its words in.

use vstd::prelude::*;

verus! {

/// The byte order of a machine word in memory.
#[derive(Clone, Copy, Debug, PartialEq, Eq, Structural)]
pub enum ByteOrder {
    /// The most significant byte comes first.
    BigEndian,
    /// The least significant byte comes first.
    LittleEndian,
}

/// Relies on std's u16::to_ne_bytes: the native memory form of 0xBEEF starts
/// with 0xBE on a big-endian machine and with 0xEF on a little-endian one.
#[verifier::external_body]
fn native_first_byte_of_beef() -> (r: u8)
    ensures
        r == 0xBE || r == 0xEF,
{
    u16::to_ne_bytes(0xBEEF)[0]
}

/// Detects the machine's native byte order.  The answer depends on the
/// machine, so nothing more can be promised of it.
pub fn byte_order() -> ByteOrder {
    if native_first_byte_of_beef() == 0xEF {
        ByteOrder::LittleEndian
    } else {
        ByteOrder::BigEndian
    }
}

/// Whether the machine stores words most significant byte first.
pub fn is_big_endian() -> bool {
    match byte_order() {
        ByteOrder::BigEndian => true,
        ByteOrder::LittleEndian => false,
    }
}

/// Whether the machine stores words least significant byte first.
pub fn is_little_endian() -> bool {
    match byte_order() {
        ByteOrder::BigEndian => false,
        ByteOrder::LittleEndian => true,
    }
}

} // verus!
