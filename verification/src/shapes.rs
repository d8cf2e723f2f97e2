//! The known record shapes.  Each declares the type tag it claims and its
//! exact field layout; fields are read little-endian at their fixed byte
//! offsets, matching the wire format bit for bit.  Single-byte fields that
//! name a string hold a 1-based index into the record's string table;
//! 16-bit handle fields reference sibling records.

use vstd::prelude::*;
use crate::bytes::{le16, le32, le64, read_u16_le, read_u32_le, read_u64_le};
use crate::table::TableKind;

verus! {

/// Firmware ("BIOS") information, tag 0.
#[derive(Clone, Copy, Debug)]
pub struct BiosInfo {
    pub vendor: u8,
    pub version: u8,
    pub address: u16,
    pub date: u8,
    pub size: u8,
    pub characteristics: u64,
}

impl TableKind for BiosInfo {
    open spec fn spec_kind() -> u8 {
        0
    }

    open spec fn spec_size() -> nat {
        14
    }

    open spec fn spec_decode(p: Seq<u8>) -> Self {
        BiosInfo {
            vendor: p[0],
            version: p[1],
            address: le16(p, 2),
            date: p[4],
            size: p[5],
            characteristics: le64(p, 6),
        }
    }

    fn kind() -> u8 {
        0
    }

    fn from_payload(p: &[u8]) -> Option<Self> {
        if p.len() >= 14 {
            Some(
                BiosInfo {
                    vendor: p[0],
                    version: p[1],
                    address: read_u16_le(p, 2),
                    date: p[4],
                    size: p[5],
                    characteristics: read_u64_le(p, 6),
                },
            )
        } else {
            None
        }
    }
}

/// System information, tag 1.
#[derive(Clone, Copy, Debug)]
pub struct SystemInfo {
    pub manufacturer: u8,
    pub name: u8,
    pub version: u8,
    pub serial: u8,
}

impl TableKind for SystemInfo {
    open spec fn spec_kind() -> u8 {
        1
    }

    open spec fn spec_size() -> nat {
        4
    }

    open spec fn spec_decode(p: Seq<u8>) -> Self {
        SystemInfo { manufacturer: p[0], name: p[1], version: p[2], serial: p[3] }
    }

    fn kind() -> u8 {
        1
    }

    fn from_payload(p: &[u8]) -> Option<Self> {
        if p.len() >= 4 {
            Some(SystemInfo { manufacturer: p[0], name: p[1], version: p[2], serial: p[3] })
        } else {
            None
        }
    }
}

/// Base-board information, tag 2.
#[derive(Clone, Copy, Debug)]
pub struct BaseBoardInfo {
    pub manufacturer: u8,
    pub product: u8,
    pub version: u8,
    pub serial: u8,
    pub asset_tag: u8,
}

impl TableKind for BaseBoardInfo {
    open spec fn spec_kind() -> u8 {
        2
    }

    open spec fn spec_size() -> nat {
        5
    }

    open spec fn spec_decode(p: Seq<u8>) -> Self {
        BaseBoardInfo { manufacturer: p[0], product: p[1], version: p[2], serial: p[3], asset_tag: p[4] }
    }

    fn kind() -> u8 {
        2
    }

    fn from_payload(p: &[u8]) -> Option<Self> {
        if p.len() >= 5 {
            Some(
                BaseBoardInfo {
                    manufacturer: p[0],
                    product: p[1],
                    version: p[2],
                    serial: p[3],
                    asset_tag: p[4],
                },
            )
        } else {
            None
        }
    }
}

/// Chassis information, tag 3.
#[derive(Clone, Copy, Debug)]
pub struct ChassisInfo {
    pub manufacturer: u8,
    pub kind: u8,
    pub version: u8,
    pub serial: u8,
    pub asset_tag: u8,
}

impl TableKind for ChassisInfo {
    open spec fn spec_kind() -> u8 {
        3
    }

    open spec fn spec_size() -> nat {
        5
    }

    open spec fn spec_decode(p: Seq<u8>) -> Self {
        ChassisInfo { manufacturer: p[0], kind: p[1], version: p[2], serial: p[3], asset_tag: p[4] }
    }

    fn kind() -> u8 {
        3
    }

    fn from_payload(p: &[u8]) -> Option<Self> {
        if p.len() >= 5 {
            Some(
                ChassisInfo {
                    manufacturer: p[0],
                    kind: p[1],
                    version: p[2],
                    serial: p[3],
                    asset_tag: p[4],
                },
            )
        } else {
            None
        }
    }
}

/// Processor information, tag 4.
#[derive(Clone, Copy, Debug)]
pub struct ProcessorInfo {
    pub socket_designation: u8,
    pub processor_kind: u8,
    pub processor_family: u8,
    pub processor_manufacturer: u8,
    pub processor_id: u64,
    pub processor_version: u8,
    pub voltage: u8,
    pub external_clock: u16,
    pub max_speed: u16,
    pub current_speed: u16,
    pub status: u8,
    pub processor_upgrade: u8,
    pub l1_cache_handle: u16,
    pub l2_cache_handle: u16,
    pub l3_cache_handle: u16,
    pub serial_number: u8,
    pub asset_tag: u8,
    pub part_number: u8,
    pub core_count: u8,
    pub core_enabled: u8,
    pub thread_count: u8,
    pub processor_characteristics: u16,
    pub processor_family_2: u16,
}

impl TableKind for ProcessorInfo {
    open spec fn spec_kind() -> u8 {
        4
    }

    open spec fn spec_size() -> nat {
        38
    }

    open spec fn spec_decode(p: Seq<u8>) -> Self {
        ProcessorInfo {
            socket_designation: p[0],
            processor_kind: p[1],
            processor_family: p[2],
            processor_manufacturer: p[3],
            processor_id: le64(p, 4),
            processor_version: p[12],
            voltage: p[13],
            external_clock: le16(p, 14),
            max_speed: le16(p, 16),
            current_speed: le16(p, 18),
            status: p[20],
            processor_upgrade: p[21],
            l1_cache_handle: le16(p, 22),
            l2_cache_handle: le16(p, 24),
            l3_cache_handle: le16(p, 26),
            serial_number: p[28],
            asset_tag: p[29],
            part_number: p[30],
            core_count: p[31],
            core_enabled: p[32],
            thread_count: p[33],
            processor_characteristics: le16(p, 34),
            processor_family_2: le16(p, 36),
        }
    }

    fn kind() -> u8 {
        4
    }

    fn from_payload(p: &[u8]) -> Option<Self> {
        if p.len() >= 38 {
            Some(
                ProcessorInfo {
                    socket_designation: p[0],
                    processor_kind: p[1],
                    processor_family: p[2],
                    processor_manufacturer: p[3],
                    processor_id: read_u64_le(p, 4),
                    processor_version: p[12],
                    voltage: p[13],
                    external_clock: read_u16_le(p, 14),
                    max_speed: read_u16_le(p, 16),
                    current_speed: read_u16_le(p, 18),
                    status: p[20],
                    processor_upgrade: p[21],
                    l1_cache_handle: read_u16_le(p, 22),
                    l2_cache_handle: read_u16_le(p, 24),
                    l3_cache_handle: read_u16_le(p, 26),
                    serial_number: p[28],
                    asset_tag: p[29],
                    part_number: p[30],
                    core_count: p[31],
                    core_enabled: p[32],
                    thread_count: p[33],
                    processor_characteristics: read_u16_le(p, 34),
                    processor_family_2: read_u16_le(p, 36),
                },
            )
        } else {
            None
        }
    }
}

/// Memory device, tag 17.
#[derive(Clone, Copy, Debug)]
pub struct MemoryDevice {
    pub array_handle: u16,
    pub error_information_handle: u16,
    pub total_width: u16,
    pub data_width: u16,
    pub size: u16,
    pub form_factor: u8,
    pub device_set: u8,
    pub device_locator: u8,
    pub bank_locator: u8,
    pub memory_kind: u8,
    pub kind_detail: u16,
    pub speed: u16,
    pub manufacturer: u8,
    pub serial_number: u8,
    pub asset_tag: u8,
    pub part_number: u8,
    pub attributes: u8,
    pub extended_size: u32,
    pub configured_speed: u16,
    pub minimum_voltage: u16,
    pub maximum_voltage: u16,
    pub configured_voltage: u16,
}

impl TableKind for MemoryDevice {
    open spec fn spec_kind() -> u8 {
        17
    }

    open spec fn spec_size() -> nat {
        36
    }

    open spec fn spec_decode(p: Seq<u8>) -> Self {
        MemoryDevice {
            array_handle: le16(p, 0),
            error_information_handle: le16(p, 2),
            total_width: le16(p, 4),
            data_width: le16(p, 6),
            size: le16(p, 8),
            form_factor: p[10],
            device_set: p[11],
            device_locator: p[12],
            bank_locator: p[13],
            memory_kind: p[14],
            kind_detail: le16(p, 15),
            speed: le16(p, 17),
            manufacturer: p[19],
            serial_number: p[20],
            asset_tag: p[21],
            part_number: p[22],
            attributes: p[23],
            extended_size: le32(p, 24),
            configured_speed: le16(p, 28),
            minimum_voltage: le16(p, 30),
            maximum_voltage: le16(p, 32),
            configured_voltage: le16(p, 34),
        }
    }

    fn kind() -> u8 {
        17
    }

    fn from_payload(p: &[u8]) -> Option<Self> {
        if p.len() >= 36 {
            Some(
                MemoryDevice {
                    array_handle: read_u16_le(p, 0),
                    error_information_handle: read_u16_le(p, 2),
                    total_width: read_u16_le(p, 4),
                    data_width: read_u16_le(p, 6),
                    size: read_u16_le(p, 8),
                    form_factor: p[10],
                    device_set: p[11],
                    device_locator: p[12],
                    bank_locator: p[13],
                    memory_kind: p[14],
                    kind_detail: read_u16_le(p, 15),
                    speed: read_u16_le(p, 17),
                    manufacturer: p[19],
                    serial_number: p[20],
                    asset_tag: p[21],
                    part_number: p[22],
                    attributes: p[23],
                    extended_size: read_u32_le(p, 24),
                    configured_speed: read_u16_le(p, 28),
                    minimum_voltage: read_u16_le(p, 30),
                    maximum_voltage: read_u16_le(p, 32),
                    configured_voltage: read_u16_le(p, 34),
                },
            )
        } else {
            None
        }
    }
}

} // verus!
