use zero2prod::identity::Id;

#[test]
fn an_identifier_is_written_in_five_groups() {
    let id = Id::from_u128(0xa1a2a3a4b1b2c1c2d1d2d3d4d5d6d7d8);

    assert_eq!(id.hyphenated(), "a1a2a3a4-b1b2-c1c2-d1d2-d3d4d5d6d7d8");
}

#[test]
fn leading_zeros_of_an_identifier_are_written() {
    assert_eq!(Id::from_u128(0).hyphenated(), "00000000-0000-0000-0000-000000000000");
    assert_eq!(Id::from_u128(0x1f).hyphenated(), "00000000-0000-0000-0000-00000000001f");
    assert_eq!(Id::from_u128(u128::MAX).hyphenated(), "ffffffff-ffff-ffff-ffff-ffffffffffff");
}

#[test]
fn the_text_of_an_identifier_is_that_of_a_uuid() {
    let values = vec![
        0u128,
        1,
        0x0123456789abcdef_fedcba9876543210,
        0x67e55044_10b1_426f_9247_bb680e5fe0c8,
        u128::MAX,
    ];

    for value in values {
        assert_eq!(Id::from_u128(value).hyphenated(), uuid::Uuid::from_u128(value).to_string());
    }
}

#[test]
fn the_form_of_a_random_identifier_is_told_by_six_bits() {
    assert!(Id::from_u128(0x00000000_0000_4000_8000_000000000000).is_random());
    assert!(Id::from_u128(0xffffffff_ffff_4fff_bfff_ffffffffffff).is_random());
    assert!(!Id::from_u128(0).is_random());
    assert!(!Id::from_u128(0x00000000_0000_1000_8000_000000000000).is_random());
    assert!(!Id::from_u128(0x00000000_0000_4000_c000_000000000000).is_random());
    assert!(!Id::from_u128(0x00000000_0000_4000_0000_000000000000).is_random());
}

#[test]
fn an_identifier_gives_back_its_bits() {
    assert_eq!(Id::from_u128(42).as_u128(), 42);
    assert_eq!(Id::from_u128(42), Id { value: 42 });
}
