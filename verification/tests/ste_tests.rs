//! Tests for the Stream Table Entry encoders and the linear table.

use memory_addr::PhysAddr;
use smmuv3::stream_table::{extract_bits, LinearStreamTable, StreamTableEntry};

#[test]
fn extract_bits_values() {
    assert_eq!(extract_bits(0xdead_beef, 0, 16), 0xbeef);
    assert_eq!(extract_bits(0xdead_beef, 16, 16), 0xdead);
    assert_eq!(extract_bits(0x8000_0000_0000, 4, 48), 0x800_0000_0000);
}

#[test]
fn bypass_entry_words() {
    let e = StreamTableEntry::bypass_entry();
    // V = 1, Config = 0b100.
    assert_eq!(e.0[0], 0x9);
    assert_eq!(e.0[1], 0b01 << 44);
    for j in 2..8 {
        assert_eq!(e.0[j], 0);
    }
}

#[test]
fn s2_translated_entry_words() {
    let e = StreamTableEntry::s2_translated_entry(0x42, PhysAddr::from_usize(0x8000_0000_0000));
    // V = 1, Config = 0b110.
    assert_eq!(e.0[0], 0xd);
    assert_eq!(e.0[1], 0b01 << 44);
    // VMID 0x42, the fixed VTCR word 0x23550 at bit 32, S2AA64, S2PTW, S2R.
    let vtcr: u64 = (0b010 << 16) | (0b11 << 12) | (0b01 << 10) | (0b01 << 8) | (0b01 << 6) | 16;
    assert_eq!(vtcr, 0x23550);
    assert_eq!(e.0[2], 0x42 | (vtcr << 32) | (1 << 51) | (1 << 54) | (1 << 58));
    // S2S stays clear.
    assert_eq!(e.0[2] & (1 << 57), 0);
    // The table base, bits [51:4] kept in place.
    assert_eq!(e.0[3], 0x8000_0000_0000);
    for j in 4..8 {
        assert_eq!(e.0[j], 0);
    }
}

/// Round trip: the VMID comes back out of word 2 and an aligned base below
/// `2^52` comes back out of word 3.
#[test]
fn ste_round_trip() {
    for &(vmid, base) in
        &[(0u64, 0usize), (0x42, 0x8000_0000_0000), (0xffff, 0xffff_ffff_fff0), (1, 16)]
    {
        let e = StreamTableEntry::s2_translated_entry(vmid, PhysAddr::from_usize(base));
        assert_eq!(e.0[2] & 0xffff, vmid);
        assert_eq!(e.0[3], base as u64);
    }
}

/// Config disjointness: bypass entries decode to `0b100`, stage-2 entries
/// to `0b110`, and both are valid.
#[test]
fn config_disjointness() {
    let bypass = StreamTableEntry::bypass_entry();
    let s2 = StreamTableEntry::s2_translated_entry(1, PhysAddr::from_usize(0x1000));
    assert_eq!(bypass.0[0] & 1, 1);
    assert_eq!((bypass.0[0] >> 1) & 0x7, 0b100);
    assert_eq!(s2.0[0] & 1, 1);
    assert_eq!((s2.0[0] >> 1) & 0x7, 0b110);
}

#[test]
fn table_init_seeds_bypass() {
    let mut table = LinearStreamTable::uninit();
    // 2^4 entries, base aligned to 16 * 64 bytes.
    table.init(4, 0x4000);
    assert_eq!(table.entry_count(), 16);
    assert_eq!(table.base_addr().as_usize(), 0x4000);
    for sid in 0..16 {
        assert_eq!(table.entries[8 * sid], 0x9);
        assert_eq!(table.entries[8 * sid + 1], 0b01 << 44);
        for j in 2..8 {
            assert_eq!(table.entries[8 * sid + j], 0);
        }
    }
}

#[test]
fn table_set_s2_touches_one_entry() {
    let mut table = LinearStreamTable::uninit();
    table.init(4, 0x4000);
    table.set_s2_translated_ste(5, 0x42, PhysAddr::from_usize(0x10000));
    assert_eq!(table.entries[8 * 5], 0xd);
    assert_eq!(table.entries[8 * 5 + 2] & 0xffff, 0x42);
    assert_eq!(table.entries[8 * 5 + 3], 0x10000);
    for sid in 0..16 {
        if sid != 5 {
            assert_eq!(table.entries[8 * sid], 0x9);
        }
    }
}
