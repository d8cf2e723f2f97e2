//! Entry-point descriptors: small fixed-layout structures, located by a known
//! anchor signature, that tell a reader where the record table lives and how
//! large it is.  The 32-bit variant is 31 bytes on the wire, the 64-bit
//! variant 24 bytes.

use vstd::prelude::*;
use crate::bytes::{le16, le32, le64, read_u16_le, read_u32_le, read_u64_le};

verus! {

/// 32-bit entry point.  All fields are read-only once parsed.
#[derive(Clone, Copy, Debug)]
pub struct Smbios {
    pub anchor: [u8; 4],
    pub checksum: u8,
    pub length: u8,
    pub major_version: u8,
    pub minor_version: u8,
    pub max_structure_size: u16,
    pub revision: u8,
    pub formatted: [u8; 5],
    pub inter_anchor: [u8; 5],
    pub inter_checksum: u8,
    pub table_length: u16,
    pub table_address: u32,
    pub structure_count: u16,
    pub bcd_revision: u8,
}

/// The 8-bit wraparound checksum input of a 32-bit entry point: the anchor,
/// the checksum byte itself, the version bytes, the low byte only of the
/// maximum structure size, the revision and the five formatted-area bytes.
/// This is deliberately a fixed 15-byte leading subset of the structure; the
/// secondary anchor, secondary checksum and table fields are not covered.
pub open spec fn spec_checksum_sum(s: Smbios) -> int {
    s.anchor@[0] + s.anchor@[1] + s.anchor@[2] + s.anchor@[3] + s.checksum + s.length
        + s.major_version + s.minor_version + (s.max_structure_size % 0x100) + s.revision
        + s.formatted@[0] + s.formatted@[1] + s.formatted@[2] + s.formatted@[3] + s.formatted@[4]
}

impl Smbios {
    /// True exactly when the 8-bit wraparound sum over the covered field
    /// subset is zero.  A failed checksum is reported as `false`, never as a
    /// fault.
    pub fn is_valid(&self) -> (r: bool)
        ensures
            r <==> spec_checksum_sum(*self) % 0x100 == 0,
    {
        let sum: u16 = self.anchor[0] as u16 + self.anchor[1] as u16 + self.anchor[2] as u16
            + self.anchor[3] as u16 + self.checksum as u16 + self.length as u16
            + self.major_version as u16 + self.minor_version as u16
            + (self.max_structure_size % 0x100) + self.revision as u16 + self.formatted[0] as u16
            + self.formatted[1] as u16 + self.formatted[2] as u16 + self.formatted[3] as u16
            + self.formatted[4] as u16;
        sum % 0x100 == 0
    }
}

impl Smbios {
    /// Parses a 32-bit entry point off the leading 31 bytes of `b`; fields
    /// wider than one byte are read little-endian at their fixed offsets.
    /// Succeeds exactly when `b` is long enough.
    pub fn from_bytes(b: &[u8]) -> (r: Option<Smbios>)
        ensures
            r is Some <==> b@.len() >= 31,
            r matches Some(s) ==> {
                &&& s.anchor@ == b@.subrange(0, 4)
                &&& s.checksum == b@[4]
                &&& s.length == b@[5]
                &&& s.major_version == b@[6]
                &&& s.minor_version == b@[7]
                &&& s.max_structure_size == le16(b@, 8)
                &&& s.revision == b@[10]
                &&& s.formatted@ == b@.subrange(11, 16)
                &&& s.inter_anchor@ == b@.subrange(16, 21)
                &&& s.inter_checksum == b@[21]
                &&& s.table_length == le16(b@, 22)
                &&& s.table_address == le32(b@, 24)
                &&& s.structure_count == le16(b@, 28)
                &&& s.bcd_revision == b@[30]
            },
    {
        if b.len() >= 31 {
            let anchor = [b[0], b[1], b[2], b[3]];
            let formatted = [b[11], b[12], b[13], b[14], b[15]];
            let inter_anchor = [b[16], b[17], b[18], b[19], b[20]];
            proof {
                assert(anchor@ =~= b@.subrange(0, 4));
                assert(formatted@ =~= b@.subrange(11, 16));
                assert(inter_anchor@ =~= b@.subrange(16, 21));
            }
            Some(
                Smbios {
                    anchor,
                    checksum: b[4],
                    length: b[5],
                    major_version: b[6],
                    minor_version: b[7],
                    max_structure_size: read_u16_le(b, 8),
                    revision: b[10],
                    formatted,
                    inter_anchor,
                    inter_checksum: b[21],
                    table_length: read_u16_le(b, 22),
                    table_address: read_u32_le(b, 24),
                    structure_count: read_u16_le(b, 28),
                    bcd_revision: b[30],
                },
            )
        } else {
            None
        }
    }
}

/// For an entry point parsed from a byte sequence, the checksum input is the
/// sum of the 15 covered bytes of the sequence itself: bytes 0 through 8 and
/// 10 through 15.  Byte 9, the high byte of the maximum structure size, is
/// not covered; neither is anything from byte 16 on.  Together with the
/// contract of `Smbios::is_valid`, the parsed entry point is valid exactly
/// when that sum is 0 modulo 256.
pub proof fn lemma_checksum_over_bytes(s: Smbios, b: Seq<u8>)
    requires
        b.len() >= 16,
        s.anchor@ == b.subrange(0, 4),
        s.checksum == b[4],
        s.length == b[5],
        s.major_version == b[6],
        s.minor_version == b[7],
        s.max_structure_size == le16(b, 8),
        s.revision == b[10],
        s.formatted@ == b.subrange(11, 16),
    ensures
        spec_checksum_sum(s) == b[0] + b[1] + b[2] + b[3] + b[4] + b[5] + b[6] + b[7] + b[8]
            + b[10] + b[11] + b[12] + b[13] + b[14] + b[15],
{
    assert(s.anchor@[0] == b[0]);
    assert(s.anchor@[1] == b[1]);
    assert(s.anchor@[2] == b[2]);
    assert(s.anchor@[3] == b[3]);
    assert(s.formatted@[0] == b[11]);
    assert(s.formatted@[1] == b[12]);
    assert(s.formatted@[2] == b[13]);
    assert(s.formatted@[3] == b[14]);
    assert(s.formatted@[4] == b[15]);
    assert(le16(b, 8) % 0x100 == b[8]) by {
        assert(b[8] + b[9] * 0x100 <= 0xffff);
        assert((b[8] + b[9] * 0x100) % 0x100 == b[8]) by (nonlinear_arith)
            requires
                0 <= b[8] < 0x100,
                0 <= b[9],
        ;
    }
}

/// 64-bit entry point.
#[derive(Clone, Copy, Debug)]
pub struct Smbios3 {
    pub anchor: [u8; 5],
    pub checksum: u8,
    pub length: u8,
    pub major_version: u8,
    pub minor_version: u8,
    pub docrev: u8,
    pub revision: u8,
    pub reserved: u8,
    pub table_length: u32,
    pub table_address: u64,
}

impl Smbios3 {
    /// Parses a 64-bit entry point off the leading 24 bytes of `b`; fields
    /// wider than one byte are read little-endian at their fixed offsets.
    /// Succeeds exactly when `b` is long enough.
    pub fn from_bytes(b: &[u8]) -> (r: Option<Smbios3>)
        ensures
            r is Some <==> b@.len() >= 24,
            r matches Some(s) ==> {
                &&& s.anchor@ == b@.subrange(0, 5)
                &&& s.checksum == b@[5]
                &&& s.length == b@[6]
                &&& s.major_version == b@[7]
                &&& s.minor_version == b@[8]
                &&& s.docrev == b@[9]
                &&& s.revision == b@[10]
                &&& s.reserved == b@[11]
                &&& s.table_length == le32(b@, 12)
                &&& s.table_address == le64(b@, 16)
            },
    {
        if b.len() >= 24 {
            let anchor = [b[0], b[1], b[2], b[3], b[4]];
            proof {
                assert(anchor@ =~= b@.subrange(0, 5));
            }
            Some(
                Smbios3 {
                    anchor,
                    checksum: b[5],
                    length: b[6],
                    major_version: b[7],
                    minor_version: b[8],
                    docrev: b[9],
                    revision: b[10],
                    reserved: b[11],
                    table_length: read_u32_le(b, 12),
                    table_address: read_u64_le(b, 16),
                },
            )
        } else {
            None
        }
    }
}

/// The anchor signature of a 64-bit entry point: the five bytes of `_SM3_`.
pub open spec fn spec_anchor3_ok(s: Smbios3) -> bool {
    s.anchor@[0] == 0x5Fu8 && s.anchor@[1] == 0x53u8 && s.anchor@[2] == 0x4Du8
        && s.anchor@[3] == 0x33u8 && s.anchor@[4] == 0x5Fu8
}

impl Smbios3 {
    /// True exactly when the anchor equals the 5-byte signature `_SM3_`.
    /// The checksum field is present but deliberately not verified: this is
    /// documented, partial validation.
    pub fn is_valid(&self) -> (r: bool)
        ensures
            r <==> spec_anchor3_ok(*self),
    {
        self.anchor[0] == 0x5F && self.anchor[1] == 0x53 && self.anchor[2] == 0x4D
            && self.anchor[3] == 0x33 && self.anchor[4] == 0x5F
    }
}

} // verus!
