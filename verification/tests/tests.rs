use dmi::{BaseBoardInfo, BiosInfo, ChassisInfo, MemoryDevice, ProcessorInfo, Smbios, Smbios3, SystemInfo};

#[test]
fn table_checksum_is_valid() {
    let s = Smbios {
        anchor: *b"_SM_",
        checksum: 0xc2,
        length: 0x1f,
        major_version: 0x02,
        minor_version: 0x07,
        max_structure_size: 0xb8,
        revision: 0x00,
        formatted: [0x00, 0x00, 0x00, 0x00, 0x00],
        inter_anchor: *b"_DMI_",
        inter_checksum: 0x3e,
        table_length: 0x0c15,
        table_address: 0x000e92f0,
        structure_count: 0x0052,
        bcd_revision: 27,
    };

    assert!(s.is_valid());
}

#[test]
fn table_checksum_is_invalid() {
    let s = Smbios {
        anchor: *b"_SM_",
        checksum: 0x00,
        length: 0x1f,
        major_version: 0x02,
        minor_version: 0x07,
        max_structure_size: 0xb8,
        revision: 0x00,
        formatted: [0x00, 0x00, 0x00, 0x00, 0x00],
        inter_anchor: *b"_DMI_",
        inter_checksum: 0x3e,
        table_length: 0x0c15,
        table_address: 0x000e92f0,
        structure_count: 0x0052,
        bcd_revision: 27,
    };

    assert!(!s.is_valid());
}

#[test]
fn checksum_covers_only_low_byte_of_max_structure_size() {
    // Changing only the high byte of max_structure_size must not change what
    // is_valid returns: the checksum covers the low byte alone.
    let mut s = Smbios {
        anchor: *b"_SM_",
        checksum: 0xc2,
        length: 0x1f,
        major_version: 0x02,
        minor_version: 0x07,
        max_structure_size: 0xb8,
        revision: 0x00,
        formatted: [0x00, 0x00, 0x00, 0x00, 0x00],
        inter_anchor: *b"_DMI_",
        inter_checksum: 0x3e,
        table_length: 0x0c15,
        table_address: 0x000e92f0,
        structure_count: 0x0052,
        bcd_revision: 27,
    };
    s.max_structure_size = 0xffb8;
    assert!(s.is_valid());
    // Perturbing a covered byte flips the outcome.
    s.revision = 1;
    assert!(!s.is_valid());
}

#[test]
fn entry32_from_bytes_round_trip() {
    let mut raw = Vec::new();
    raw.extend_from_slice(b"_SM_");
    raw.push(0xc2); // checksum
    raw.push(0x1f); // length
    raw.push(0x02); // major
    raw.push(0x07); // minor
    raw.extend_from_slice(&[0xb8, 0x00]); // max_structure_size
    raw.push(0x00); // revision
    raw.extend_from_slice(&[0, 0, 0, 0, 0]); // formatted
    raw.extend_from_slice(b"_DMI_");
    raw.push(0x3e); // inter_checksum
    raw.extend_from_slice(&[0x15, 0x0c]); // table_length
    raw.extend_from_slice(&[0xf0, 0x92, 0x0e, 0x00]); // table_address
    raw.extend_from_slice(&[0x52, 0x00]); // structure_count
    raw.push(27); // bcd_revision
    assert_eq!(raw.len(), 31);

    let s = Smbios::from_bytes(&raw).unwrap();
    assert_eq!(&s.anchor, b"_SM_");
    assert_eq!(s.checksum, 0xc2);
    assert_eq!(s.length, 0x1f);
    assert_eq!(s.major_version, 0x02);
    assert_eq!(s.minor_version, 0x07);
    assert_eq!(s.max_structure_size, 0x00b8);
    assert_eq!(s.revision, 0x00);
    assert_eq!(&s.inter_anchor, b"_DMI_");
    assert_eq!(s.inter_checksum, 0x3e);
    assert_eq!(s.table_length, 0x0c15);
    assert_eq!(s.table_address, 0x000e92f0);
    assert_eq!(s.structure_count, 0x0052);
    assert_eq!(s.bcd_revision, 27);
    assert!(s.is_valid());

    // One byte short: no entry point.
    assert!(Smbios::from_bytes(&raw[..30]).is_none());
}

#[test]
fn entry64_anchor_check() {
    let mut raw = Vec::new();
    raw.extend_from_slice(b"_SM3_");
    raw.push(0x86); // checksum (present, deliberately unchecked)
    raw.push(0x18); // length
    raw.push(3); // major
    raw.push(2); // minor
    raw.push(1); // docrev
    raw.push(1); // revision
    raw.push(0); // reserved
    raw.extend_from_slice(&[0x15, 0x0c, 0x00, 0x00]); // table_length
    raw.extend_from_slice(&[0xf0, 0x92, 0x0e, 0, 0, 0, 0, 0]); // table_address
    assert_eq!(raw.len(), 24);

    let s = Smbios3::from_bytes(&raw).unwrap();
    assert_eq!(&s.anchor, b"_SM3_");
    assert_eq!(s.table_length, 0x0c15);
    assert_eq!(s.table_address, 0x000e92f0);
    assert!(s.is_valid());

    // A wrong anchor yields false, never a fault.
    let mut bad = raw.clone();
    bad[4] = b'X';
    let s = Smbios3::from_bytes(&bad).unwrap();
    assert!(!s.is_valid());

    // One byte short: no entry point.
    assert!(Smbios3::from_bytes(&raw[..23]).is_none());
}

#[test]
fn decode_empty_buffer() {
    let tables = dmi::tables(&[]);
    assert!(tables.is_empty());
}

#[test]
fn decode_stops_at_end_marker() {
    // One record (tag 1, no payload, no strings), then the 127 end marker.
    let data = [1u8, 4, 0, 0, 0, 0, 127, 4, 0, 0];
    let tables = dmi::tables(&data);
    assert_eq!(tables.len(), 1);
    assert_eq!(tables[0].header.kind, 1);
}

#[test]
fn decode_zero_payload_double_null() {
    // Payload length 0 and an immediately double-null-terminated string
    // section: exactly one record whose string table is one empty entry,
    // not an empty sequence.
    let data = [5u8, 4, 0, 0, 0, 0];
    let tables = dmi::tables(&data);
    assert_eq!(tables.len(), 1);
    assert_eq!(tables[0].header.kind, 5);
    assert_eq!(tables[0].header.len, 4);
    assert!(tables[0].data.is_empty());
    assert_eq!(tables[0].strings, vec![String::new()]);
}

#[test]
fn decode_strings_dell_xps() {
    // The string section "Dell\0XPS\0\0" yields exactly ["Dell", "XPS"],
    // and the cursor moves past both terminating nulls: the next record is
    // still decoded.
    let mut data = vec![1u8, 4, 0x34, 0x12];
    data.extend_from_slice(b"Dell\0XPS\0\0");
    data.extend_from_slice(&[2, 4, 0, 0, 0, 0]);
    let tables = dmi::tables(&data);
    assert_eq!(tables.len(), 2);
    assert_eq!(tables[0].header.handle, 0x1234);
    assert_eq!(tables[0].strings, vec!["Dell".to_string(), "XPS".to_string()]);
    assert_eq!(tables[1].header.kind, 2);
}

#[test]
fn decode_widens_high_bytes_losslessly() {
    // A byte above 127 widens to the character of the same code point.
    let data = [9u8, 4, 0, 0, 0xc3, 0xa9, 0, 0, 0];
    let tables = dmi::tables(&data);
    assert_eq!(tables.len(), 1);
    assert_eq!(tables[0].strings, vec!["\u{c3}\u{a9}".to_string()]);
}

#[test]
fn decode_truncated_mid_payload() {
    // Declared payload of 6 bytes, but only 3 remain: the record keeps the
    // 3 available bytes, its string table is empty, and the walk stops.
    let data = [1u8, 10, 0, 0, 7, 8, 9];
    let tables = dmi::tables(&data);
    assert_eq!(tables.len(), 1);
    assert_eq!(tables[0].data, vec![7, 8, 9]);
    assert!(tables[0].data.len() < 10 - 4);
    assert!(tables[0].strings.is_empty());
}

#[test]
fn decode_stops_before_partial_header() {
    // After the first record fewer than 4 bytes remain: they are ignored.
    let data = [1u8, 4, 0, 0, 0, 0, 9, 9];
    let tables = dmi::tables(&data);
    assert_eq!(tables.len(), 1);
}

#[test]
fn decode_stops_at_malformed_length() {
    // A declared length below the 4 header bytes is malformed: the walk
    // stops, keeping the records decoded so far.
    let data = [1u8, 4, 0, 0, 0, 0, 2, 3, 0, 0];
    let tables = dmi::tables(&data);
    assert_eq!(tables.len(), 1);
    assert_eq!(tables[0].header.kind, 1);
    assert!(dmi::tables(&[1u8, 3, 0, 0]).is_empty());
}

#[test]
fn decode_emits_unknown_kinds() {
    // An unknown type tag is not an error: the record is still emitted.
    let data = [200u8, 5, 0, 0, 42, 0, 0];
    let tables = dmi::tables(&data);
    assert_eq!(tables.len(), 1);
    assert_eq!(tables[0].header.kind, 200);
    assert_eq!(tables[0].data, vec![42]);
    assert!(tables[0].get::<BiosInfo>().is_none());
    assert!(tables[0].get::<SystemInfo>().is_none());
}

fn record_of(kind: u8, payload: &[u8]) -> dmi::Table {
    let mut data = vec![kind, (payload.len() + 4) as u8, 0, 0];
    data.extend_from_slice(payload);
    data.extend_from_slice(&[0, 0]);
    let mut tables = dmi::tables(&data);
    assert_eq!(tables.len(), 1);
    tables.remove(0)
}

#[test]
fn project_bios_info() {
    let payload = [
        1u8, 2, // vendor, version
        0xe0, 0xf8, // address
        3, 0x40, // date, size
        0x11, 0x22, 0x33, 0x44, 0x55, 0x66, 0x77, 0x88, // characteristics
    ];
    let t = record_of(0, &payload);
    let info = t.get::<BiosInfo>().unwrap();
    assert_eq!(info.vendor, 1);
    assert_eq!(info.version, 2);
    assert_eq!(info.address, 0xf8e0);
    assert_eq!(info.date, 3);
    assert_eq!(info.size, 0x40);
    assert_eq!(info.characteristics, 0x8877665544332211);
    // A matching tag with a payload one byte short of the layout: no match.
    let short = record_of(0, &payload[..13]);
    assert!(short.get::<BiosInfo>().is_none());
    // Only the tag changed: no match for this shape.
    let other = record_of(1, &payload);
    assert!(other.get::<BiosInfo>().is_none());
}

#[test]
fn project_system_info() {
    let t = record_of(1, &[10, 11, 12, 13]);
    let info = t.get::<SystemInfo>().unwrap();
    assert_eq!(info.manufacturer, 10);
    assert_eq!(info.name, 11);
    assert_eq!(info.version, 12);
    assert_eq!(info.serial, 13);
    assert!(t.get::<BiosInfo>().is_none());
    assert!(record_of(2, &[10, 11, 12, 13]).get::<SystemInfo>().is_none());
}

#[test]
fn project_base_board_info() {
    let t = record_of(2, &[1, 2, 3, 4, 5]);
    let info = t.get::<BaseBoardInfo>().unwrap();
    assert_eq!(info.manufacturer, 1);
    assert_eq!(info.product, 2);
    assert_eq!(info.version, 3);
    assert_eq!(info.serial, 4);
    assert_eq!(info.asset_tag, 5);
    assert!(record_of(3, &[1, 2, 3, 4, 5]).get::<BaseBoardInfo>().is_none());
}

#[test]
fn project_chassis_info() {
    let t = record_of(3, &[1, 2, 3, 4, 5]);
    let info = t.get::<ChassisInfo>().unwrap();
    assert_eq!(info.manufacturer, 1);
    assert_eq!(info.kind, 2);
    assert_eq!(info.version, 3);
    assert_eq!(info.serial, 4);
    assert_eq!(info.asset_tag, 5);
    assert!(record_of(4, &[1, 2, 3, 4, 5]).get::<ChassisInfo>().is_none());
}

#[test]
fn project_processor_info() {
    let mut payload = vec![
        1u8, 3, 0xc6, 2, // socket, kind, family, manufacturer
        0xef, 0xcd, 0xab, 0x89, 0x67, 0x45, 0x23, 0x01, // processor_id
        4, 0x8e, // version, voltage
        0x64, 0x00, // external_clock
        0x10, 0x0e, // max_speed
        0x08, 0x07, // current_speed
        0x41, 0x01, // status, upgrade
        0x01, 0x00, // l1_cache_handle
        0x02, 0x00, // l2_cache_handle
        0x03, 0x00, // l3_cache_handle
        5, 6, 7, // serial, asset_tag, part_number
        8, 6, 16, // core_count, core_enabled, thread_count
        0xfc, 0x00, // characteristics
        0xc6, 0x00, // family_2
    ];
    assert_eq!(payload.len(), 38);
    let t = record_of(4, &payload);
    let info = t.get::<ProcessorInfo>().unwrap();
    assert_eq!(info.socket_designation, 1);
    assert_eq!(info.processor_kind, 3);
    assert_eq!(info.processor_family, 0xc6);
    assert_eq!(info.processor_id, 0x0123456789abcdef);
    assert_eq!(info.external_clock, 100);
    assert_eq!(info.max_speed, 0x0e10);
    assert_eq!(info.current_speed, 0x0708);
    assert_eq!(info.l3_cache_handle, 3);
    assert_eq!(info.thread_count, 16);
    assert_eq!(info.processor_family_2, 0xc6);
    // One byte short: no match.
    payload.pop();
    assert!(record_of(4, &payload).get::<ProcessorInfo>().is_none());
}

#[test]
fn project_memory_device() {
    let payload = [
        0x3eu8, 0x00, // array_handle
        0xfe, 0xff, // error_information_handle
        0x48, 0x00, // total_width
        0x40, 0x00, // data_width
        0x00, 0x20, // size
        0x09, 0x01, // form_factor, device_set
        1, 2, // device_locator, bank_locator
        0x1a, // memory_kind
        0x80, 0x21, // kind_detail
        0xaa, 0x0a, // speed
        3, 4, 5, 6, // manufacturer, serial, asset_tag, part_number
        0x02, // attributes
        0x78, 0x56, 0x34, 0x12, // extended_size
        0x66, 0x0a, // configured_speed
        0xb0, 0x04, // minimum_voltage
        0xb0, 0x04, // maximum_voltage
        0xb0, 0x04, // configured_voltage
    ];
    assert_eq!(payload.len(), 36);
    let t = record_of(17, &payload);
    let info = t.get::<MemoryDevice>().unwrap();
    assert_eq!(info.array_handle, 0x003e);
    assert_eq!(info.error_information_handle, 0xfffe);
    assert_eq!(info.total_width, 72);
    assert_eq!(info.data_width, 64);
    assert_eq!(info.size, 0x2000);
    assert_eq!(info.form_factor, 9);
    assert_eq!(info.memory_kind, 0x1a);
    assert_eq!(info.kind_detail, 0x2180);
    assert_eq!(info.speed, 0x0aaa);
    assert_eq!(info.extended_size, 0x12345678);
    assert_eq!(info.configured_voltage, 0x04b0);
    assert!(record_of(16, &payload).get::<MemoryDevice>().is_none());
}

#[test]
fn get_str_is_one_based() {
    let mut data = vec![1u8, 4, 0, 0];
    data.extend_from_slice(b"Dell\0XPS\0\0");
    let tables = dmi::tables(&data);
    let t = &tables[0];
    // Index 0 always means "no string present".
    assert!(t.get_str(0).is_none());
    assert_eq!(t.get_str(1), Some(&"Dell".to_string()));
    assert_eq!(t.get_str(2), Some(&"XPS".to_string()));
    // One past the last entry: absent.
    assert!(t.get_str(3).is_none());
    assert!(t.get_str(255).is_none());
}
