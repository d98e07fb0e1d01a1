use samp_sdk::consts::{DEFAULT_SUPPORTS, SUPPORTS_AMX_NATIVES, SUPPORTS_PROCESS_TICK, SUPPORTS_VERSION, UNLIMITED, UNPACKEDMAX, AMX_FLAG_RELOC};
use samp_sdk::helpers::{entry_name_offset, entry_offset, get_params_count, num_entries, push_address_offset, status_result, use_name_table};
use samp_sdk::component::ComponentVersion;
use samp_sdk::error::AmxError;
use samp_sdk::types::AmxHeader;

fn header(defsize: i16) -> AmxHeader {
    AmxHeader {
        size: 1024,
        magic: 0xF1E0,
        file_version: 8,
        amx_version: 8,
        flags: 0,
        defsize,
        cod: 0x100,
        dat: 0x200,
        hea: 0x300,
        stp: 0x400,
        cip: -1,
        publics: 56,
        natives: 72,
        libraries: 96,
        pubvars: 96,
        tags: 96,
        nametable: 96,
    }
}

#[test]
fn name_table_is_used_for_eight_byte_records() {
    assert!(use_name_table(&header(8)));
    assert!(!use_name_table(&header(24)));
    assert!(!use_name_table(&header(0)));
    assert!(!use_name_table(&header(-8)));
}

#[test]
fn num_entries_counts_records() {
    let h = header(8);
    assert_eq!(num_entries(&h, h.natives, h.libraries), 3);
    assert_eq!(num_entries(&h, h.publics, h.natives), 2);
    assert_eq!(num_entries(&h, 10, 10), 0);
    assert_eq!(num_entries(&header(24), 0, 100), 4);
}

#[test]
fn num_entries_with_zero_record_size_is_zero() {
    assert_eq!(num_entries(&header(0), 0, 800), 0);
}

#[test]
fn num_entries_wraps_a_negative_distance() {
    assert_eq!(num_entries(&header(8), 16, 8), (-8i32 as usize) / 8);
}

#[test]
fn entry_offsets() {
    let h = header(8);
    assert_eq!(entry_offset(&h, h.natives, 0), 72);
    assert_eq!(entry_offset(&h, h.natives, 2), 88);
    assert_eq!(entry_name_offset(&h, 88, 500), 500);
    let old = header(24);
    assert_eq!(entry_offset(&old, 56, 1), 80);
    assert_eq!(entry_name_offset(&old, 80, 500), 84);
}

#[test]
fn params_count_divides_by_cell_size() {
    assert_eq!(get_params_count(12), 3);
    assert_eq!(get_params_count(0), 0);
    assert_eq!(get_params_count(7), 1);
    assert_eq!(get_params_count(-5), -1);
}

#[test]
fn push_address_relative_to_separate_data() {
    let h = header(8);
    assert_eq!(push_address_offset(0x5010, 0x1000, 0x5000, &h, 0x100), Ok(0x10));
    assert_eq!(push_address_offset(0x5100, 0x1000, 0x5000, &h, 0x100), Err(AmxError::MemAccess));
}

#[test]
fn push_address_relative_to_base_plus_dat() {
    let h = header(8);
    // data segment starts at base + dat = 0x1200
    assert_eq!(push_address_offset(0x1208, 0x1000, 0, &h, 0x100), Ok(8));
    assert_eq!(push_address_offset(0x1400, 0x1000, 0, &h, 0x100), Err(AmxError::MemAccess));
}

#[test]
fn push_address_below_data_wraps() {
    let h = header(8);
    assert_eq!(push_address_offset(0x4ffc, 0x1000, 0x5000, &h, 0x100), Err(AmxError::MemAccess));
    assert_eq!(push_address_offset(0x4ffc, 0x1000, 0x5000, &h, -1), Ok(-4));
}

#[test]
fn status_codes() {
    assert_eq!(status_result(0), Ok(()));
    assert_eq!(status_result(5), Err(AmxError::MemAccess));
    assert_eq!(status_result(99), Err(AmxError::General));
}

#[test]
fn constants() {
    assert_eq!(DEFAULT_SUPPORTS, SUPPORTS_VERSION | SUPPORTS_AMX_NATIVES);
    assert_eq!(DEFAULT_SUPPORTS, 0x10200);
    assert_eq!(SUPPORTS_PROCESS_TICK, 0x20000);
    assert_eq!(UNPACKEDMAX, (1i32 << 24) - 1);
    assert_eq!(UNLIMITED, !1u32 >> 1);
    assert_eq!(AMX_FLAG_RELOC, 0x8000_u32 as i32);
}

#[test]
fn component_version() {
    let v = ComponentVersion::new(0, 1, 0);
    assert_eq!((v.major, v.minor, v.patch, v.prerel), (0, 1, 0, 0));
    let w = ComponentVersion::new(2, 5, 9);
    assert_eq!((w.major, w.minor, w.patch, w.prerel), (2, 5, 9, 0));
}

#[test]
fn num_entries_zero_record_size_ignores_offsets() {
    assert_eq!(num_entries(&header(0), i32::MIN, i32::MAX), 0);
}

#[test]
fn num_entries_grows_with_the_next_offset() {
    let h = header(8);
    assert!(num_entries(&h, 72, 80) <= num_entries(&h, 72, 96));
    assert_eq!(num_entries(&h, 72, 80), 1);
}
