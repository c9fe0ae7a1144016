use hitman_commons::reference_flags::{ReferenceFlags, ReferenceType};

#[test]
fn flags_default_is_install_for_all_languages() {
    let f = ReferenceFlags::default();
    assert_eq!(f.reference_type, ReferenceType::Install);
    assert!(!f.acquired);
    assert_eq!(f.language_code, 0x1F);
    assert!(f.is_default());
}

#[test]
fn flags_modern_round_trip_for_every_byte() {
    for b in 0..=255u8 {
        let f = ReferenceFlags::from_modern(b);
        assert_eq!(ReferenceFlags::from_modern(f.as_modern()), f, "byte {b:#04x}");
    }
}

#[test]
fn flags_legacy_round_trip_for_modern_kinds() {
    for kind in [ReferenceType::Install, ReferenceType::Normal, ReferenceType::Weak] {
        for acquired in [false, true] {
            let f = ReferenceFlags { reference_type: kind, acquired, language_code: 0x1F };
            assert_eq!(ReferenceFlags::from_legacy(f.as_legacy()), f);
        }
    }
}

#[test]
fn flags_modern_kind_bits_decode() {
    assert_eq!(ReferenceFlags::from_modern(0x00).reference_type, ReferenceType::Install);
    assert_eq!(ReferenceFlags::from_modern(0x40).reference_type, ReferenceType::Normal);
    assert_eq!(ReferenceFlags::from_modern(0x80).reference_type, ReferenceType::Weak);
    assert_eq!(ReferenceFlags::from_modern(0xC0).reference_type, ReferenceType::Weak);
    assert_eq!(ReferenceFlags::from_modern(0x3F).language_code, 0x1F);
    assert!(ReferenceFlags::from_modern(0x20).acquired);
}

#[test]
fn flags_legacy_bits_decode() {
    let f = ReferenceFlags::from_legacy(0x80);
    assert_eq!(f.reference_type, ReferenceType::Install);
    assert_eq!(f.language_code, 0x1F);
    assert_eq!(ReferenceFlags::from_legacy(0x40).reference_type, ReferenceType::Media);
    assert_eq!(ReferenceFlags::from_legacy(0x20).reference_type, ReferenceType::State);
    assert_eq!(ReferenceFlags::from_legacy(0x10).reference_type, ReferenceType::EntityType);
    assert_eq!(ReferenceFlags::from_legacy(0x90).reference_type, ReferenceType::EntityType);
    assert_eq!(ReferenceFlags::from_legacy(0x04).reference_type, ReferenceType::Weak);
    assert_eq!(ReferenceFlags::from_legacy(0x00).reference_type, ReferenceType::Normal);
    assert!(ReferenceFlags::from_legacy(0x02).acquired);
}

#[test]
fn flags_from_any_reads_clean_legacy_bytes_as_legacy() {
    // Install dependency plus runtime-acquired: no padding bit, no
    // contradictory combination.
    let f = ReferenceFlags::from_any(0b1000_0010);
    assert_eq!(f.reference_type, ReferenceType::Install);
    assert!(f.acquired);
    assert_eq!(f.language_code, 0x1F);
}

#[test]
fn flags_from_any_reads_contradictory_bytes_as_modern() {
    // Two streaming kinds at once cannot be legacy: media and state
    // together reinterpret as modern (kind bits 01, acquired set).
    let f = ReferenceFlags::from_any(0b0110_0000);
    assert_eq!(f.reference_type, ReferenceType::Normal);
    assert!(f.acquired);
    assert_eq!(f.language_code, 0);
    // So do install-dependency and weak together (modern kind bits 10).
    let g = ReferenceFlags::from_any(0b1000_0100);
    assert_eq!(g.reference_type, ReferenceType::Weak);
    assert!(!g.acquired);
    assert_eq!(g.language_code, 4);
}

#[test]
fn flags_from_any_install_beats_media_in_a_legacy_byte() {
    // Install-dependency plus media-streamed is not in the contradiction
    // list: the byte stays legacy, and the install bit outranks media.
    let f = ReferenceFlags::from_any(0b1100_0000);
    assert_eq!(f.reference_type, ReferenceType::Install);
    assert!(!f.acquired);
    assert_eq!(f.language_code, 0x1F);
}

#[test]
fn flags_from_any_reads_padding_bits_as_modern() {
    // Bit 0 is legacy padding, so this byte must be modern.
    let f = ReferenceFlags::from_any(0b0000_0001);
    assert_eq!(f.reference_type, ReferenceType::Install);
    assert!(!f.acquired);
    assert_eq!(f.language_code, 1);
    // Bit 3 likewise.
    let g = ReferenceFlags::from_any(0b0000_1000);
    assert_eq!(g.language_code, 0b0_1000);
}

#[test]
fn flags_as_modern_packs_the_fields() {
    let f = ReferenceFlags { reference_type: ReferenceType::Weak, acquired: true, language_code: 5 };
    assert_eq!(f.as_modern(), 0b1010_0101);
    let g = ReferenceFlags { reference_type: ReferenceType::Media, acquired: false, language_code: 0 };
    assert_eq!(g.as_modern(), 0b1000_0000);
    let h = ReferenceFlags { reference_type: ReferenceType::State, acquired: false, language_code: 0 };
    assert_eq!(h.as_modern(), 0b0100_0000);
    let e = ReferenceFlags { reference_type: ReferenceType::EntityType, acquired: false, language_code: 0 };
    assert_eq!(e.as_modern(), 0);
}

#[test]
fn flags_as_legacy_drops_the_language_code() {
    let f = ReferenceFlags { reference_type: ReferenceType::Weak, acquired: true, language_code: 7 };
    assert_eq!(f.as_legacy(), 0b0000_0110);
    let e = ReferenceFlags { reference_type: ReferenceType::EntityType, acquired: false, language_code: 0x1F };
    assert_eq!(e.as_legacy(), 0b1001_0000);
}
