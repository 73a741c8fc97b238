//! Decoding of host-module responses.

use vstd::prelude::*;

verus! {

/// The integer that the first four bytes of `b` hold in little-endian
/// order.
pub open spec fn spec_u32_le(b: Seq<u8>) -> int {
    b[0] + b[1] * 0x100 + b[2] * 0x10000 + b[3] * 0x1000000
}

/// Reads the outbound sequence number from a host response: its first
/// four bytes, in little-endian order.  A shorter response is rejected.
pub fn decode_outbound_sequence(bytes: &[u8]) -> (r: Result<u32, String>)
    ensures
        bytes@.len() >= 4 ==> (r matches Ok(v) && v == spec_u32_le(bytes@)),
        bytes@.len() < 4 ==> r is Err,
{
    if bytes.len() < 4 {
        return Err(String::from_str("outbound sequence response shorter than four bytes"));
    }
    let b0 = bytes[0] as u32;
    let b1 = bytes[1] as u32;
    let b2 = bytes[2] as u32;
    let b3 = bytes[3] as u32;
    Ok(b0 + b1 * 0x100 + b2 * 0x10000 + b3 * 0x1000000)
}

} // verus!
