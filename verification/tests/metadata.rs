use hitman_commons::game::GameVersion;
use hitman_commons::metadata::{
    ExtendedResourceMetadata, MetadataCalculationError, ResourceMetadata, ResourceReference,
    ResourceReferenceProxy,
};
use hitman_commons::reference_flags::{ReferenceFlags, ReferenceType};
use hitman_commons::resource_type::ResourceType;
use hitman_commons::rpkg_tool::{RpkgResourceMeta, RpkgResourceReference};
use hitman_commons::runtime_id::RuntimeID;

fn rt(tag: &str) -> ResourceType {
    ResourceType::from_str(tag).unwrap()
}

#[test]
fn infer_scrambled_spares_only_two_types() {
    assert!(!ResourceMetadata::infer_scrambled(rt("GFXV")));
    assert!(!ResourceMetadata::infer_scrambled(rt("TEXD")));
    assert!(ResourceMetadata::infer_scrambled(rt("TEMP")));
    assert!(ResourceMetadata::infer_scrambled(rt("ZZZZ")));
}

#[test]
fn infer_compressed_follows_the_type_table() {
    assert!(ResourceMetadata::infer_compressed(rt("REPO")));
    assert!(ResourceMetadata::infer_compressed(rt("ALOC")));
    assert!(!ResourceMetadata::infer_compressed(rt("LINE")));
    assert!(!ResourceMetadata::infer_compressed(rt("TEXT")));
    // Unknown types default conservatively to compressed.
    assert!(ResourceMetadata::infer_compressed(rt("ZZZZ")));
}

#[test]
fn system_memory_sentinel_for_unknowable_types() {
    assert_eq!(
        ResourceMetadata::calculate_system_memory_requirement(rt("TEXT"), &[]).unwrap(),
        0xFFFFFFFF
    );
    assert_eq!(
        ResourceMetadata::calculate_system_memory_requirement(rt("REPO"), &[1, 2, 3]).unwrap(),
        0xFFFFFFFF
    );
}

#[test]
fn system_memory_reads_the_stream_size_word() {
    let mut data = vec![0u8; 8];
    data.extend([0x00, 0x01, 0x02, 0x03]); // big-endian word at offset 8
    assert_eq!(
        ResourceMetadata::calculate_system_memory_requirement(rt("TEMP"), &data).unwrap(),
        0x00010203
    );
}

#[test]
fn system_memory_stream_read_fails_on_short_payloads() {
    assert!(matches!(
        ResourceMetadata::calculate_system_memory_requirement(rt("TBLU"), &[0u8; 11]),
        Err(MetadataCalculationError::Seek)
    ));
}

#[test]
fn system_memory_scales_and_offsets_by_type() {
    let data = vec![0u8; 100];
    assert_eq!(
        ResourceMetadata::calculate_system_memory_requirement(rt("ALOC"), &data).unwrap(),
        175
    );
    assert_eq!(
        ResourceMetadata::calculate_system_memory_requirement(rt("YSHP"), &data).unwrap(),
        150
    );
    assert_eq!(
        ResourceMetadata::calculate_system_memory_requirement(rt("MJBA"), &data).unwrap(),
        100
    );
    assert_eq!(
        ResourceMetadata::calculate_system_memory_requirement(rt("PREL"), &data).unwrap(),
        84
    );
}

#[test]
fn system_memory_unknown_type_is_a_hard_error() {
    match ResourceMetadata::calculate_system_memory_requirement(rt("ZZZZ"), &[]) {
        Err(MetadataCalculationError::UnknownResourceType(t)) => assert_eq!(t, rt("ZZZZ")),
        other => panic!("expected UnknownResourceType, got {other:?}"),
    }
}

#[test]
fn video_memory_sentinel_zero_and_error_cases() {
    assert_eq!(
        ResourceMetadata::calculate_video_memory_requirement(rt("REPO"), &[], GameVersion::H3)
            .unwrap(),
        0xFFFFFFFF
    );
    assert_eq!(
        ResourceMetadata::calculate_video_memory_requirement(rt("ALOC"), &[], GameVersion::H3)
            .unwrap(),
        0
    );
    assert!(matches!(
        ResourceMetadata::calculate_video_memory_requirement(rt("ZZZZ"), &[], GameVersion::H3),
        Err(MetadataCalculationError::UnknownResourceType(_))
    ));
}

#[test]
fn video_memory_rejects_garbage_textures() {
    // The texture decoder, not this crate, decides: bytes this short are
    // rejected and surface as a texture error.
    assert!(matches!(
        ResourceMetadata::calculate_video_memory_requirement(rt("TEXT"), &[1, 2, 3], GameVersion::H2),
        Err(MetadataCalculationError::TextureMapError)
    ));
    assert!(matches!(
        ResourceMetadata::calculate_video_memory_requirement(rt("TEXD"), &[1, 2, 3], GameVersion::H1),
        Err(MetadataCalculationError::TextureMapError)
    ));
    // The newest version family keeps a mip block headerless, so the decoder
    // accepts the bytes and reports no separate cost.
    assert_eq!(
        ResourceMetadata::calculate_video_memory_requirement(rt("TEXD"), &[1, 2, 3], GameVersion::H3)
            .unwrap(),
        0
    );
}

#[test]
fn to_extended_combines_both_costs() {
    let meta = ResourceMetadata {
        id: RuntimeID::try_from(0x11).unwrap(),
        resource_type: rt("REPO"),
        compressed: true,
        scrambled: true,
        references: vec![],
    };
    let extended = meta.clone().to_extended(&[], GameVersion::H3).unwrap();
    assert_eq!(extended.core_info, meta);
    assert_eq!(extended.system_memory_requirement, 0xFFFFFFFF);
    assert_eq!(extended.video_memory_requirement, 0xFFFFFFFF);
}

#[test]
fn to_extended_fails_when_a_cost_fails() {
    let meta = ResourceMetadata {
        id: RuntimeID::try_from(0x11).unwrap(),
        resource_type: rt("ZZZZ"),
        compressed: true,
        scrambled: true,
        references: vec![],
    };
    assert!(matches!(
        meta.to_extended(&[], GameVersion::H1),
        Err(MetadataCalculationError::UnknownResourceType(_))
    ));
}

#[test]
fn methods_delegate_to_the_type_rules() {
    let meta = ResourceMetadata {
        id: RuntimeID::try_from(0x11).unwrap(),
        resource_type: rt("MJBA"),
        compressed: true,
        scrambled: true,
        references: vec![],
    };
    assert_eq!(meta.system_memory_requirement(&[0u8; 9]).unwrap(), 9);
    assert_eq!(
        meta.video_memory_requirement(&[0u8; 9], GameVersion::H1).unwrap(),
        0
    );
}

#[test]
fn proxy_omits_fields_matching_the_inferred_defaults() {
    let meta = ResourceMetadata {
        id: RuntimeID::try_from(0x21).unwrap(),
        resource_type: rt("REPO"), // inferred: compressed, scrambled
        compressed: true,
        scrambled: true,
        references: vec![],
    };
    let proxy = meta.to_proxy();
    assert!(proxy.compressed.is_none());
    assert!(proxy.scrambled.is_none());
    assert_eq!(ResourceMetadata::from_proxy(&proxy), meta);
}

#[test]
fn proxy_keeps_fields_that_override_the_defaults() {
    let meta = ResourceMetadata {
        id: RuntimeID::try_from(0x21).unwrap(),
        resource_type: rt("REPO"),
        compressed: false, // overrides the inferred default
        scrambled: true,
        references: vec![],
    };
    let proxy = meta.to_proxy();
    assert_eq!(proxy.compressed, Some(false));
    assert!(proxy.scrambled.is_none());
    assert_eq!(ResourceMetadata::from_proxy(&proxy), meta);
}

#[test]
fn proxy_collapses_default_reference_flags() {
    let default_ref = ResourceReference {
        resource: RuntimeID::try_from(0x31).unwrap(),
        flags: ReferenceFlags::default(),
    };
    let odd_ref = ResourceReference {
        resource: RuntimeID::try_from(0x32).unwrap(),
        flags: ReferenceFlags {
            reference_type: ReferenceType::Weak,
            acquired: false,
            language_code: 0x1F,
        },
    };
    let meta = ResourceMetadata {
        id: RuntimeID::try_from(0x21).unwrap(),
        resource_type: rt("TEMP"),
        compressed: true,
        scrambled: true,
        references: vec![default_ref, odd_ref],
    };
    let proxy = meta.to_proxy();
    assert!(matches!(proxy.references[0], ResourceReferenceProxy::RuntimeID(_)));
    assert!(matches!(
        proxy.references[1],
        ResourceReferenceProxy::ReferenceWithFlags { .. }
    ));
    assert_eq!(ResourceMetadata::from_proxy(&proxy), meta);
}

#[test]
fn metadata_adopts_a_codec_record() {
    let mut raw = RpkgResourceMeta::new(
        RuntimeID::try_from(0x51).unwrap(),
        rt("TEMP"),
    );
    raw.hash_size = 0x8000_0000 | 0x123;
    raw.hash_size_in_memory = 77;
    raw.hash_size_in_video_memory = 88;
    raw.hash_reference_data.push(RpkgResourceReference {
        hash: RuntimeID::try_from(0x52).unwrap(),
        flag: "82".to_string(),
    });
    let adopted = ResourceMetadata::try_from(raw.clone()).unwrap();
    assert_eq!(adopted.id.as_u64(), 0x51);
    assert!(adopted.compressed);
    assert!(adopted.scrambled);
    assert_eq!(adopted.references.len(), 1);
    assert_eq!(adopted.references[0].resource.as_u64(), 0x52);
    // 0x82 is a clean legacy byte: install dependency, runtime-acquired.
    assert_eq!(adopted.references[0].flags.reference_type, ReferenceType::Install);
    assert!(adopted.references[0].flags.acquired);

    let extended = ExtendedResourceMetadata::try_from(raw).unwrap();
    assert_eq!(extended.core_info, adopted);
    assert_eq!(extended.system_memory_requirement, 77);
    assert_eq!(extended.video_memory_requirement, 88);
}

#[test]
fn metadata_adoption_rejects_bad_flag_strings() {
    let mut raw = RpkgResourceMeta::new(RuntimeID::try_from(0x51).unwrap(), rt("TEMP"));
    raw.hash_reference_data.push(RpkgResourceReference {
        hash: RuntimeID::try_from(0x52).unwrap(),
        flag: "nope".to_string(),
    });
    assert!(ResourceMetadata::try_from(raw.clone()).is_err());
    assert!(ExtendedResourceMetadata::try_from(raw).is_err());
}

#[test]
fn metadata_uncompressed_unscrambled_size_word() {
    let raw = RpkgResourceMeta::new(RuntimeID::try_from(0x51).unwrap(), rt("TEMP"));
    let adopted = ResourceMetadata::try_from(raw).unwrap();
    assert!(!adopted.compressed);
    assert!(!adopted.scrambled);
}

#[test]
fn resource_type_round_trips_text() {
    let t = rt("WSGB");
    assert_eq!(t.as_str(), "WSGB");
    assert_eq!(t.as_string(), "WSGB");
    assert_eq!(t.to_bytes(), *b"WSGB");
    assert!(ResourceType::from_str("TOOLONG").is_err());
    assert!(ResourceType::from_bytes([0xFF, 0x41, 0x42, 0x43]).is_err());
    assert_eq!(ResourceType::from_bytes(*b"TEMP").unwrap(), rt("TEMP"));
}
