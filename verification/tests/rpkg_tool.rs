use hitman_commons::metadata::{
    ExtendedResourceMetadata, ResourceMetadata, ResourceReference,
};
use hitman_commons::reference_flags::{ReferenceFlags, ReferenceType};
use hitman_commons::resource_type::{ResourceType, ResourceTypeError};
use hitman_commons::rpkg_tool::{RpkgInteropError, RpkgResourceMeta, RpkgResourceReference};
use hitman_commons::runtime_id::{FromU64Error, RuntimeID};

fn header_44() -> Vec<u8> {
    let mut data = Vec::new();
    data.extend(0x42u64.to_le_bytes()); // hash_value
    data.extend(0x1_2345_6789u64.to_le_bytes()); // hash_offset
    data.extend(0x8000_0400u32.to_le_bytes()); // hash_size: scrambled, size 0x400
    data.extend(b"TEMP"); // resource type
    data.extend(0u32.to_le_bytes()); // reference table size
    data.extend(7u32.to_le_bytes()); // reference table dummy
    data.extend(0x1000u32.to_le_bytes()); // size final
    data.extend(0x2000u32.to_le_bytes()); // system memory
    data.extend(0x3000u32.to_le_bytes()); // video memory
    data
}

#[test]
fn codec_decodes_a_headerless_record() {
    let data = header_44();
    assert_eq!(data.len(), 44);
    let meta = RpkgResourceMeta::from_binary(&data).unwrap();
    assert_eq!(meta.hash_value.as_u64(), 0x42);
    assert_eq!(meta.hash_offset, 0x1_2345_6789);
    assert_eq!(meta.hash_size, 0x8000_0400);
    assert_eq!(meta.hash_resource_type, ResourceType::from_str("TEMP").unwrap());
    assert_eq!(meta.hash_reference_table_size, 0);
    assert_eq!(meta.hash_reference_table_dummy, 7);
    assert_eq!(meta.hash_size_final, 0x1000);
    assert_eq!(meta.hash_size_in_memory, 0x2000);
    assert_eq!(meta.hash_size_in_video_memory, 0x3000);
    assert!(meta.hash_reference_data.is_empty());
    assert!(meta.hash_path.is_none());
}

#[test]
fn codec_decodes_a_reference_table() {
    let mut data = header_44();
    data[24..28].copy_from_slice(&(4u32 + 9 * 2).to_le_bytes());
    data.extend((2u32 | 0xC000_0000).to_le_bytes());
    data.push(0x9F); // flags precede all identifiers
    data.push(0x05);
    data.extend(0xABu64.to_le_bytes());
    data.extend(0xCDu64.to_le_bytes());
    let meta = RpkgResourceMeta::from_binary(&data).unwrap();
    assert_eq!(meta.hash_reference_table_size, 22);
    assert_eq!(meta.hash_reference_data.len(), 2);
    assert_eq!(meta.hash_reference_data[0].hash.as_u64(), 0xAB);
    assert_eq!(meta.hash_reference_data[0].flag, "9F");
    assert_eq!(meta.hash_reference_data[1].hash.as_u64(), 0xCD);
    assert_eq!(meta.hash_reference_data[1].flag, "5");
}

#[test]
fn codec_rejects_short_buffers() {
    assert!(matches!(
        RpkgResourceMeta::from_binary(&[0u8; 43]),
        Err(RpkgInteropError::Seek)
    ));
    let mut data = header_44();
    data[24..28].copy_from_slice(&22u32.to_le_bytes());
    // Table promised but the count word is missing.
    assert!(matches!(
        RpkgResourceMeta::from_binary(&data),
        Err(RpkgInteropError::Seek)
    ));
    data.extend((2u32 | 0xC000_0000).to_le_bytes());
    data.push(0x9F);
    // Still short of two flags and two identifiers.
    assert!(matches!(
        RpkgResourceMeta::from_binary(&data),
        Err(RpkgInteropError::Seek)
    ));
}

#[test]
fn codec_tolerates_trailing_bytes() {
    // The decoder consumes exactly the bytes the table size implies; what
    // follows is not read.
    let mut data = header_44();
    data[24..28].copy_from_slice(&13u32.to_le_bytes());
    data.extend((1u32 | 0xC000_0000).to_le_bytes());
    data.push(0x9F);
    data.extend(0xABu64.to_le_bytes());
    let meta = RpkgResourceMeta::from_binary(&data).unwrap();
    data.extend([0xEE; 7]);
    let again = RpkgResourceMeta::from_binary(&data).unwrap();
    assert_eq!(meta, again);
}

#[test]
fn codec_rejects_an_out_of_range_identifier() {
    let mut data = header_44();
    data[0..8].copy_from_slice(&u64::MAX.to_le_bytes());
    assert!(matches!(
        RpkgResourceMeta::from_binary(&data),
        Err(RpkgInteropError::InvalidRuntimeID(FromU64Error::TooHigh))
    ));
}

#[test]
fn codec_rejects_an_out_of_range_reference() {
    let mut data = header_44();
    data[24..28].copy_from_slice(&13u32.to_le_bytes());
    data.extend((1u32 | 0xC000_0000).to_le_bytes());
    data.push(0x00);
    data.extend(u64::MAX.to_le_bytes());
    assert!(matches!(
        RpkgResourceMeta::from_binary(&data),
        Err(RpkgInteropError::InvalidRuntimeID(FromU64Error::TooHigh))
    ));
}

#[test]
fn codec_rejects_an_invalid_type_tag() {
    let mut data = header_44();
    data[20..24].copy_from_slice(&[0xFF, 0xFF, 0xFF, 0xFF]);
    assert!(matches!(
        RpkgResourceMeta::from_binary(&data),
        Err(RpkgInteropError::InvalidResourceType(ResourceTypeError::InvalidString))
    ));
}

fn sample_meta(flags: Vec<&str>) -> RpkgResourceMeta {
    let mut meta = RpkgResourceMeta::new(
        RuntimeID::try_from(0x00AA00BB00CC00DD).unwrap(),
        ResourceType::from_str("TBLU").unwrap(),
    );
    meta.hash_offset = 0x10;
    meta.hash_size = 0x200;
    meta.hash_reference_table_dummy = 3;
    meta.hash_size_final = 0x300;
    meta.hash_size_in_memory = 0x400;
    meta.hash_size_in_video_memory = 0x500;
    for (i, flag) in flags.into_iter().enumerate() {
        meta.hash_reference_data.push(RpkgResourceReference {
            hash: RuntimeID::try_from(0x1000 + i as u64).unwrap(),
            flag: flag.to_string(),
        });
    }
    meta
}

fn assert_roundtrips(meta: &RpkgResourceMeta) {
    let bytes = meta.to_binary().unwrap();
    let back = RpkgResourceMeta::from_binary(&bytes).unwrap();
    let n = meta.hash_reference_data.len() as u32;
    let mut expected = meta.clone();
    expected.hash_reference_table_size = if n == 0 { 0 } else { 4 + 9 * n };
    expected.hash_path = None;
    assert_eq!(back, expected);
}

#[test]
fn codec_round_trips_without_references() {
    assert_roundtrips(&sample_meta(vec![]));
}

#[test]
fn codec_round_trips_one_reference() {
    assert_roundtrips(&sample_meta(vec!["9F"]));
}

#[test]
fn codec_round_trips_many_references() {
    // A stored table size word is also overwritten by the recomputed one.
    let mut meta = sample_meta(vec!["9F", "5", "E2"]);
    meta.hash_reference_table_size = 9999;
    assert_roundtrips(&meta);
}

#[test]
fn codec_reference_table_size_formula() {
    for n in [0usize, 1, 2, 5] {
        let meta = sample_meta(vec!["1A"; 5][..n].to_vec());
        let bytes = meta.to_binary().unwrap();
        let word = u32::from_le_bytes(bytes[24..28].try_into().unwrap());
        if n == 0 {
            assert_eq!(word, 0);
            assert_eq!(bytes.len(), 44);
        } else {
            assert_eq!(word, 4 + 9 * n as u32);
            assert_eq!(bytes.len(), 44 + 4 + 9 * n);
        }
    }
}

#[test]
fn codec_encode_rejects_a_bad_flag_string() {
    let meta = sample_meta(vec!["ZZ"]);
    assert!(matches!(meta.to_binary(), Err(RpkgInteropError::InvalidHex)));
    let empty_flag = sample_meta(vec![""]);
    assert!(matches!(empty_flag.to_binary(), Err(RpkgInteropError::InvalidHex)));
    let too_big = sample_meta(vec!["100"]);
    assert!(matches!(too_big.to_binary(), Err(RpkgInteropError::InvalidHex)));
}

#[test]
fn codec_encode_accepts_leading_zero_flags() {
    let meta = sample_meta(vec!["0A"]);
    let bytes = meta.to_binary().unwrap();
    assert_eq!(bytes[48], 0x0A);
}

#[test]
fn codec_from_resource_metadata_exports_both_flag_formats() {
    let core = ResourceMetadata {
        id: RuntimeID::try_from(0x77).unwrap(),
        resource_type: ResourceType::from_str("TEMP").unwrap(),
        compressed: true,
        scrambled: true,
        references: vec![ResourceReference {
            resource: RuntimeID::try_from(0x88).unwrap(),
            flags: ReferenceFlags {
                reference_type: ReferenceType::Weak,
                acquired: true,
                language_code: 5,
            },
        }],
    };
    let extended = ExtendedResourceMetadata {
        core_info: core,
        system_memory_requirement: 0x1111,
        video_memory_requirement: 0x2222,
    };
    let modern = RpkgResourceMeta::from_resource_metadata(extended.clone(), false);
    assert_eq!(modern.hash_size, 1000 | 0x8000_0000);
    assert_eq!(modern.hash_size_final, 1000);
    assert_eq!(modern.hash_offset, 0);
    assert_eq!(modern.hash_reference_table_size, 13);
    assert_eq!(modern.hash_reference_table_dummy, 0);
    assert_eq!(modern.hash_size_in_memory, 0x1111);
    assert_eq!(modern.hash_size_in_video_memory, 0x2222);
    assert_eq!(modern.hash_reference_data[0].flag, "A5");

    let legacy = RpkgResourceMeta::from_resource_metadata(extended, true);
    assert_eq!(legacy.hash_reference_data[0].flag, "06");
}

#[test]
fn codec_from_resource_metadata_uncompressed_size_is_zero() {
    let core = ResourceMetadata {
        id: RuntimeID::try_from(0x77).unwrap(),
        resource_type: ResourceType::from_str("TEXT").unwrap(),
        compressed: false,
        scrambled: false,
        references: vec![],
    };
    let extended = ExtendedResourceMetadata {
        core_info: core,
        system_memory_requirement: 0,
        video_memory_requirement: 0,
    };
    let meta = RpkgResourceMeta::from_resource_metadata(extended, false);
    assert_eq!(meta.hash_size, 0);
    assert_eq!(meta.hash_reference_table_size, 0);
}
