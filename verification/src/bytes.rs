//! Little-endian byte order for the 32-bit fields of reports and packets.

use vstd::prelude::*;

verus! {

/// The four bytes of `x`, least significant first.
pub open spec fn le_bytes(x: u32) -> Seq<u8> {
    seq![
        (x % 256) as u8,
        ((x / 256) % 256) as u8,
        ((x / 65536) % 256) as u8,
        (x / 16777216) as u8,
    ]
}

/// The number whose little-endian bytes are the first four of `bytes`.
pub open spec fn le_value(bytes: Seq<u8>) -> int {
    bytes[0] + 256 * bytes[1] + 65536 * bytes[2] + 16777216 * bytes[3]
}

/// The four bytes of `x`, least significant first.
pub fn u32_to_le(x: u32) -> (bytes: [u8; 4])
    ensures
        bytes@ == le_bytes(x),
{
    let bytes: [u8; 4] = [
        (x % 256) as u8,
        ((x / 256) % 256) as u8,
        ((x / 65536) % 256) as u8,
        (x / 16777216) as u8,
    ];
    assert(bytes@ =~= le_bytes(x));
    bytes
}

/// The number that four little-endian bytes spell.
pub fn u32_from_le(b0: u8, b1: u8, b2: u8, b3: u8) -> (x: u32)
    ensures
        x == le_value(seq![b0, b1, b2, b3]),
        le_bytes(x) == seq![b0, b1, b2, b3],
{
    let x: u32 = (b0 as u32) + 256 * (b1 as u32) + 65536 * (b2 as u32) + 16777216 * (b3 as u32);
    assert(le_bytes(x) =~= seq![b0, b1, b2, b3]);
    x
}

} // verus!
