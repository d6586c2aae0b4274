use vstd::prelude::*;
use byteorder::{ByteOrder, LittleEndian};

verus! {

/// A sixteen-bit number as two bytes, the low one first.
pub open spec fn le16(value: u16) -> Seq<u8> {
    seq![(value % 256) as u8, (value / 256) as u8]
}

/// `LittleEndian::write_u16` of the `byteorder` crate on a buffer of two
/// bytes. Trusted: the buffer then holds the number's low byte, then its
/// high byte.
#[verifier::external_body]
pub(crate) fn u16_le(value: u16) -> (bytes: [u8; 2])
    ensures
        bytes@ == le16(value),
{
    let mut bytes = [0u8; 2];
    LittleEndian::write_u16(&mut bytes, value);
    bytes
}

} // verus!
