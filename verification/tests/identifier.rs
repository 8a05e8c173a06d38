//! Tests of the identifier type: packing, projections, arithmetic and the
//! binary round-trips.

use core::str::FromStr;
use sulid::Sulid;
use sulid::ULID_LEN;

#[test]
fn test_static() {
    let mut s = [0u8; ULID_LEN];
    let s = Sulid::from_u128(0x41414141414141414141414141414141).array_to_str(&mut s);
    let u = Sulid::from_string(&s).unwrap();
    assert_eq!(s, "21850M2GA1850M2GA1850M2GA1");
    assert_eq!(u.u128(), 0x41414141414141414141414141414141);
}

#[test]
fn test_increment() {
    let mut s = [0u8; ULID_LEN];

    let sulid = Sulid::from_string("01BX5ZZKBKAZZZZZZZZZZZZZZZ").unwrap();
    let sulid = sulid.increment().unwrap();
    assert_eq!("01BX5ZZKBKB0000000000000ZZ", sulid.array_to_str(&mut s));

    let sulid = Sulid::from_string("01BX5ZZKBKZZZZZZZZZZZZZXZX").unwrap();
    let sulid = sulid.increment().unwrap();
    s.fill(0);
    assert_eq!("01BX5ZZKBKZZZZZZZZZZZZZYZX", sulid.array_to_str(&mut s));

    let sulid = sulid.increment().unwrap();
    s.fill(0);
    assert_eq!("01BX5ZZKBKZZZZZZZZZZZZZZZX", sulid.array_to_str(&mut s));
    assert!(sulid.increment().is_none());
}

#[test]
fn test_increment_overflow() {
    let sulid = Sulid::from_u128(u128::max_value());
    assert!(sulid.increment().is_none());
}

#[test]
fn can_into_thing() {
    let sulid = Sulid::from_str("01FKMG6GAG0PJANMWFN84TNXCD").unwrap();
    let u: u128 = sulid.into();
    let uu: (u64, u128, u8, u8) = sulid.into();
    let bytes: [u8; 16] = sulid.into();
    assert_eq!(Sulid::from(u), sulid);
    assert_eq!(Sulid::from(uu), sulid);
    assert_eq!(Sulid::from(bytes), sulid);

    let s: String = sulid.into();
    assert_eq!(Sulid::from_str(&s).unwrap(), sulid);
}

#[test]
fn default_is_nil() {
    assert_eq!(Sulid::default(), Sulid::nil());
}

#[test]
fn sulid_default_is_nil() {
    assert_eq!(Sulid::default(), Sulid::nil());
}

#[test]
fn parts_roundtrip() {
    let sulid = Sulid::from_parts(1_469_918_176_385, 0x2F_BC34_5678_9ABC_DEF0, 21, 9);
    let rebuilt = Sulid::from_parts(
        sulid.timestamp_ms(),
        sulid.random(),
        sulid.data_center_id(),
        sulid.machine_id(),
    );
    assert_eq!(sulid, rebuilt);
    assert_eq!(sulid.timestamp_ms(), 1_469_918_176_385);
    assert_eq!(sulid.random(), 0x2F_BC34_5678_9ABC_DEF0);
    assert_eq!(sulid.data_center_id(), 21);
    assert_eq!(sulid.machine_id(), 9);
}

#[test]
fn v2_parts_roundtrip() {
    let sulid = Sulid::v2_from_parts(1_469_918_176_385, 0x2F_BC34_5678_9ABC_DEF0, 677);
    let rebuilt = Sulid::v2_from_parts(sulid.timestamp_ms(), sulid.random(), sulid.worker_id());
    assert_eq!(sulid, rebuilt);
    assert_eq!(sulid.timestamp_ms(), 1_469_918_176_385);
    assert_eq!(sulid.random(), 0x2F_BC34_5678_9ABC_DEF0);
    assert_eq!(sulid.worker_id(), 677);
}

#[test]
fn bytes_roundtrip() {
    let sulid = Sulid::from_u128(0x0123_4567_89AB_CDEF_1122_3344_5566_7788);
    let bytes = sulid.to_bytes();
    assert_eq!(
        bytes,
        [0x01, 0x23, 0x45, 0x67, 0x89, 0xAB, 0xCD, 0xEF, 0x11, 0x22, 0x33, 0x44, 0x55, 0x66,
            0x77, 0x88],
    );
    assert_eq!(Sulid::from_bytes(bytes), sulid);
}

#[test]
fn masking_discards_high_bits() {
    // A data-center id of 32 overflows the 5-bit field: in the default
    // (masking) mode it packs the same as 0.
    assert_eq!(Sulid::from_parts(7, 9, 32, 1), Sulid::from_parts(7, 9, 0, 1));
    assert_eq!(Sulid::from_parts(7, 9, 1, 32), Sulid::from_parts(7, 9, 1, 0));
    assert_eq!(
        Sulid::from_parts(0xFFFF_FFFF_FFFF_FFFF, 0, 0, 0),
        Sulid::from_parts(0xFFFF_FFFF_FFFF, 0, 0, 0),
    );
    assert_eq!(Sulid::v2_from_parts(7, 9, 1024), Sulid::v2_from_parts(7, 9, 0));
}

#[test]
fn increment_touches_only_the_random_field() {
    let sulid = Sulid::from_parts(123_456_789, 41, 13, 27);
    let next = sulid.increment().unwrap();
    assert_eq!(next.random(), sulid.random() + 1);
    assert_eq!(next.timestamp_ms(), sulid.timestamp_ms());
    assert_eq!(next.data_center_id(), sulid.data_center_id());
    assert_eq!(next.machine_id(), sulid.machine_id());
    let again = next.increment().unwrap();
    assert_eq!(again.random(), sulid.random() + 2);
    assert_eq!(again.timestamp_ms(), sulid.timestamp_ms());
    assert_eq!(again.data_center_id(), sulid.data_center_id());
    assert_eq!(again.machine_id(), sulid.machine_id());
}

#[test]
fn increment_exhaustion() {
    // All 70 random bits set, with ordinary timestamp and identity fields.
    let max_random: u128 = 0x3F_FFFF_FFFF_FFFF_FFFF;
    let sulid = Sulid::from_parts(123_456_789, max_random, 3, 4);
    assert_eq!(sulid.random(), max_random);
    assert!(sulid.increment().is_none());
    let below = Sulid::from_parts(123_456_789, max_random - 1, 3, 4);
    assert!(below.increment().is_some());
}

#[test]
fn nil_is_zero() {
    assert!(Sulid::nil().is_nil());
    assert_eq!(Sulid::nil().u128(), 0);
    assert!(!Sulid::from_u128(1).is_nil());
}

#[test]
fn strict_construction_matches_default_on_in_range_fields() {
    assert_eq!(
        Sulid::from_parts_strict(1_469_918_176_385, 42, 21, 9),
        Sulid::from_parts(1_469_918_176_385, 42, 21, 9),
    );
    assert_eq!(
        Sulid::v2_from_parts_strict(1_469_918_176_385, 42, 677),
        Sulid::v2_from_parts(1_469_918_176_385, 42, 677),
    );
}
