use idgen::layout::{
    compact_hash, compact_random, compact_serial, compose_compact, compose_sortable,
    fold_timestamp, mask_timestamp, pack_compact, sortable_serial, sortable_timestamp,
    TIMESTAMP_MASK,
};

#[test]
fn mask_keeps_the_low_thirty_six_bits() {
    assert_eq!(TIMESTAMP_MASK, 0x0000_000f_ffff_ffff);
    assert_eq!(mask_timestamp(0), 0);
    assert_eq!(mask_timestamp(1_700_000_000), 1_700_000_000);
    assert_eq!(mask_timestamp(0x0000_000f_ffff_ffff), 0x0000_000f_ffff_ffff);
    assert_eq!(mask_timestamp(0x0000_0010_0000_0005), 5);
    assert_eq!(mask_timestamp(u64::MAX), 0x0000_000f_ffff_ffff);
}

#[test]
fn sortable_identifier_has_the_expected_bits() {
    assert_eq!(compose_sortable(1_700_000_000, 42), 111_411_200_000_042);
    assert_eq!(compose_sortable(1_700_000_000, 42), (1_700_000_000u64 << 16) | 42);
    assert_eq!(compose_sortable(0, 0), 0);
    assert_eq!(compose_sortable(1, 0), 65_536);
    assert_eq!(compose_sortable(0, u16::MAX), 65_535);
    assert_eq!(compose_sortable(u64::MAX, u16::MAX), 0x000f_ffff_ffff_ffff);
    assert_eq!(compose_sortable(0x0000_0010_0000_0005, 1), 327_681);
}

#[test]
fn sortable_fields_round_trip() {
    let cases: [(u64, u16); 6] = [
        (0, 0),
        (1, 1),
        (1_700_000_000, 42),
        (0x0000_000f_ffff_ffff, u16::MAX),
        (0x0000_0010_0000_0005, 7),
        (u64::MAX, 65_534),
    ];
    for (timestamp, serial) in cases {
        let id = compose_sortable(timestamp, serial);
        assert_eq!(sortable_timestamp(id), timestamp & 0x0000_000f_ffff_ffff);
        assert_eq!(sortable_serial(id), serial);
    }
}

#[test]
fn sortable_identifiers_order_by_timestamp_then_serial() {
    assert!(compose_sortable(10, u16::MAX) < compose_sortable(11, 0));
    assert!(compose_sortable(10, 3) < compose_sortable(10, 4));
    assert_ne!(compose_sortable(10, 3), compose_sortable(3, 10));
}

#[test]
fn folding_xors_the_four_words() {
    assert_eq!(fold_timestamp(0), 0);
    assert_eq!(fold_timestamp(0x0001_0002_0004_0008), 0x000f);
    assert_eq!(fold_timestamp(0xdead_beef_cafe_f00d), 0x5ab1);
    assert_eq!(fold_timestamp(1_700_000_000), 0x9453);
    assert_eq!(fold_timestamp(0xffff_0000_0000_0000), 0xffff);
    assert_eq!(fold_timestamp(u64::MAX), 0);
}

#[test]
fn compact_identifier_has_the_expected_bits() {
    assert_eq!(pack_compact(0x1234, 0x56, 0x78), 0x1234_5678);
    assert_eq!(pack_compact(0, 0, 0), 0);
    assert_eq!(pack_compact(u16::MAX, u8::MAX, u8::MAX), u32::MAX);
    assert_eq!(compose_compact(1_700_000_000, 0xa5a5, 7, 0x3c), 0x31f6_073c);
    assert_eq!(compose_compact(1_700_000_000, 0xa5a5, 7, 0x3c), 838_207_292);
    assert_eq!(compose_compact(0x0001_0002_0004_0008, 0, 0, 0), 0x000f_0000);
}

#[test]
fn compact_fields_round_trip() {
    let cases: [(u16, u8, u8); 5] =
        [(0, 0, 0), (1, 2, 3), (0x1234, 0x56, 0x78), (u16::MAX, 0, u8::MAX), (0x8000, u8::MAX, 0)];
    for (hash, serial, random) in cases {
        let id = pack_compact(hash, serial, random);
        assert_eq!(compact_hash(id), hash);
        assert_eq!(compact_serial(id), serial);
        assert_eq!(compact_random(id), random);
    }
    let id = compose_compact(0xdead_beef_cafe_f00d, 0x00ff, 200, 100);
    assert_eq!(compact_hash(id), 0x5ab1 ^ 0x00ff);
    assert_eq!(compact_serial(id), 200);
    assert_eq!(compact_random(id), 100);
}
