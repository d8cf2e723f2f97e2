//! Little-endian field readers: every multi-byte field of the wire format is
//! stored least-significant byte first, independent of the host byte order.

use vstd::prelude::*;

verus! {

/// The 16-bit value stored little-endian at `off` in `b`.
pub open spec fn le16(b: Seq<u8>, off: int) -> u16 {
    (b[off] + b[off + 1] * 0x100) as u16
}

/// The 32-bit value stored little-endian at `off` in `b`.
pub open spec fn le32(b: Seq<u8>, off: int) -> u32 {
    (b[off] + b[off + 1] * 0x100 + b[off + 2] * 0x1_0000 + b[off + 3] * 0x100_0000) as u32
}

/// The 64-bit value stored little-endian at `off` in `b`.
pub open spec fn le64(b: Seq<u8>, off: int) -> u64 {
    (b[off] + b[off + 1] * 0x100 + b[off + 2] * 0x1_0000 + b[off + 3] * 0x100_0000
        + b[off + 4] * 0x1_0000_0000 + b[off + 5] * 0x100_0000_0000
        + b[off + 6] * 0x1_0000_0000_0000 + b[off + 7] * 0x100_0000_0000_0000) as u64
}

/// Reads the little-endian 16-bit field at `off`.
pub fn read_u16_le(b: &[u8], off: usize) -> (r: u16)
    requires
        off + 2 <= b@.len(),
    ensures
        r == le16(b@, off as int),
{
    b[off] as u16 + b[off + 1] as u16 * 0x100
}

/// Reads the little-endian 32-bit field at `off`.
pub fn read_u32_le(b: &[u8], off: usize) -> (r: u32)
    requires
        off + 4 <= b@.len(),
    ensures
        r == le32(b@, off as int),
{
    b[off] as u32 + b[off + 1] as u32 * 0x100 + b[off + 2] as u32 * 0x1_0000
        + b[off + 3] as u32 * 0x100_0000
}

/// Reads the little-endian 64-bit field at `off`.
pub fn read_u64_le(b: &[u8], off: usize) -> (r: u64)
    requires
        off + 8 <= b@.len(),
    ensures
        r == le64(b@, off as int),
{
    b[off] as u64 + b[off + 1] as u64 * 0x100 + b[off + 2] as u64 * 0x1_0000
        + b[off + 3] as u64 * 0x100_0000 + b[off + 4] as u64 * 0x1_0000_0000
        + b[off + 5] as u64 * 0x100_0000_0000 + b[off + 6] as u64 * 0x1_0000_0000_0000
        + b[off + 7] as u64 * 0x100_0000_0000_0000
}

} // verus!
