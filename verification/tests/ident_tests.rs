use pessoas_api::ident::Id;

#[test]
fn canonical_text_is_lower_case_hex_in_five_groups() {
    let id = Id { bits: 0x67e55044_10b1_426f_9247_bb680e5fe0c8u128 };
    assert_eq!(id.to_text(), "67e55044-10b1-426f-9247-bb680e5fe0c8");
    assert_eq!(Id { bits: 0 }.to_text(), "00000000-0000-0000-0000-000000000000");
    assert_eq!(Id { bits: u128::MAX }.to_text(), "ffffffff-ffff-ffff-ffff-ffffffffffff");
    assert_eq!(Id { bits: 0xabcdef }.to_text(), "00000000-0000-0000-0000-000000abcdef");
    assert_eq!(Id { bits: 1u128 << 124 }.to_text(), "10000000-0000-0000-0000-000000000000");
}

#[test]
fn canonical_text_has_36_characters() {
    let id = Id::generate();
    let text = id.to_text();
    assert!(!text.is_empty());
    assert_eq!(text.chars().count(), 36);
}

#[test]
fn canonical_text_reads_back() {
    let fixed = Id { bits: 0x0102030411122122_3132414243444546u128 };
    assert_eq!(Id::parse(&fixed.to_text()), Some(fixed));
    let fresh = Id::generate();
    assert_eq!(Id::parse(&fresh.to_text()), Some(fresh));
}

#[test]
fn reads_the_value_that_the_text_writes() {
    let want = Some(Id { bits: 0x67e55044_10b1_426f_9247_bb680e5fe0c8u128 });
    assert_eq!(Id::parse("67e55044-10b1-426f-9247-bb680e5fe0c8"), want);
    assert_eq!(Id::parse("67e5504410b1426f9247bb680e5fe0c8"), want);
    assert_eq!(Id::parse("urn:uuid:67e55044-10b1-426f-9247-bb680e5fe0c8"), want);
    assert_eq!(Id::parse("{67e55044-10b1-426f-9247-bb680e5fe0c8}"), want);
    assert_eq!(Id::parse("67E55044-10B1-426F-9247-BB680E5FE0C8"), want);
}

#[test]
fn turns_down_what_is_no_identifier() {
    assert_eq!(Id::parse(""), None);
    assert_eq!(Id::parse("!"), None);
    assert_eq!(Id::parse("not-an-id"), None);
    assert_eq!(Id::parse("F9168C5E-CEB2-4faa-BGBF-329BF39FA1E4"), None);
    assert_eq!(Id::parse("F9168C5E-CEB2-4faa-B6BF-329BF39FA1E45"), None);
    assert_eq!(Id::parse("67e55044-10b1-426f-9247-bb680e5fe0c"), None);
}

#[test]
fn fresh_identifier_is_random_version_4() {
    for _ in 0..64 {
        let id = Id::generate();
        assert_eq!((id.bits >> 76) & 0xf, 4);
        assert_eq!((id.bits >> 62) & 0x3, 2);
        let text = id.to_text();
        assert_eq!(text.as_bytes()[14], b'4');
        assert!(matches!(text.as_bytes()[19], b'8' | b'9' | b'a' | b'b'));
    }
}

#[test]
fn fresh_identifiers_differ() {
    let a = Id::generate();
    let b = Id::generate();
    assert_ne!(a, b);
}
