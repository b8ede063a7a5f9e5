use actix::ident::{ArbiterId, RANDOM_V4_BITS, VERSION_VARIANT_MASK};

#[test]
fn simple_is_thirty_two_hex_digits() {
    let id = ArbiterId::from_u128(0xa1a2a3a4b1b2c1c2d1d2d3d4d5d6d7d8);
    assert_eq!(id.simple(), "a1a2a3a4b1b2c1c2d1d2d3d4d5d6d7d8");
}

#[test]
fn simple_is_zero_padded() {
    assert_eq!(ArbiterId::from_u128(0x1f).simple(), "0000000000000000000000000000001f");
    assert_eq!(ArbiterId::from_u128(0).simple(), "00000000000000000000000000000000");
}

#[test]
fn simple_of_largest_value() {
    assert_eq!(ArbiterId::from_u128(u128::MAX).simple(), "ffffffffffffffffffffffffffffffff");
}

#[test]
fn hyphenated_groups_the_digits() {
    let id = ArbiterId::from_u128(0xa1a2a3a4b1b2c1c2d1d2d3d4d5d6d7d8);
    assert_eq!(id.hyphenated(), "a1a2a3a4-b1b2-c1c2-d1d2-d3d4d5d6d7d8");
}

#[test]
fn hyphenated_is_zero_padded() {
    assert_eq!(ArbiterId::from_u128(0xabc).hyphenated(), "00000000-0000-0000-0000-000000000abc");
}

#[test]
fn hyphenated_is_simple_with_hyphens() {
    let id = ArbiterId::from_u128(0x0123456789abcdef0011223344556677);
    let simple = id.simple();
    let grouped = format!(
        "{}-{}-{}-{}-{}",
        &simple[0..8],
        &simple[8..12],
        &simple[12..16],
        &simple[16..20],
        &simple[20..32]
    );
    assert_eq!(id.hyphenated(), grouped);
}

#[test]
fn generated_identifier_is_a_random_uuid() {
    for _ in 0..64 {
        let id = ArbiterId::generate();
        assert_eq!(id.as_u128() & VERSION_VARIANT_MASK, RANDOM_V4_BITS);
        let text = id.hyphenated();
        assert_eq!(text.len(), 36);
        assert_eq!(&text[14..15], "4");
        assert!(matches!(&text[19..20], "8" | "9" | "a" | "b"));
    }
}

#[test]
fn value_round_trips() {
    let id = ArbiterId::from_u128(42);
    assert_eq!(id.as_u128(), 42);
    assert_eq!(id, ArbiterId::from_u128(42));
    assert_ne!(id, ArbiterId::from_u128(43));
}

#[test]
fn same_compares_values() {
    let a = ArbiterId::from_u128(7);
    assert!(a.same(&ArbiterId::from_u128(7)));
    assert!(!a.same(&ArbiterId::from_u128(8)));
}
