use hitman_commons::hash_list::{HashCatalogue, HashList, HashListEntry};
use hitman_commons::runtime_id::{FromU64Error, RuntimeID, RuntimeIDFromHashError};

#[test]
fn id_try_from_accepts_values_below_the_bound() {
    assert_eq!(RuntimeID::try_from(0).unwrap().as_u64(), 0);
    assert_eq!(
        RuntimeID::try_from(0x00FFFFFFFFFFFFFE).unwrap().as_u64(),
        0x00FFFFFFFFFFFFFE
    );
}

#[test]
fn id_try_from_rejects_the_bound_and_above() {
    assert!(matches!(
        RuntimeID::try_from(0x00FFFFFFFFFFFFFF),
        Err(FromU64Error::TooHigh)
    ));
    assert!(matches!(
        RuntimeID::try_from(u64::MAX),
        Err(FromU64Error::TooHigh)
    ));
}

#[test]
fn id_from_hash_parses_sixteen_hex_digits() {
    let id = RuntimeID::from_hash("00123456789ABCDE").unwrap();
    assert_eq!(id.as_u64(), 0x00123456789ABCDE);
}

#[test]
fn id_from_hash_accepts_lower_case() {
    let id = RuntimeID::from_hash("00abcdef01234567").unwrap();
    assert_eq!(id.as_u64(), 0x00ABCDEF01234567);
}

#[test]
fn id_hex_round_trip_upper_cases() {
    let s = "00abcdef01234567";
    assert_eq!(
        RuntimeID::from_hash(s).unwrap().to_hash(),
        s.to_uppercase()
    );
    let t = "0012300045600789";
    assert_eq!(RuntimeID::from_hash(t).unwrap().to_hash(), t.to_string());
}

#[test]
fn id_from_hash_rejects_wrong_length() {
    assert!(matches!(
        RuntimeID::from_hash("0012"),
        Err(RuntimeIDFromHashError::InvalidLength)
    ));
    assert!(matches!(
        RuntimeID::from_hash(""),
        Err(RuntimeIDFromHashError::InvalidLength)
    ));
    assert!(matches!(
        RuntimeID::from_hash("00123456789ABCDEF"),
        Err(RuntimeIDFromHashError::InvalidLength)
    ));
}

#[test]
fn id_from_hash_rejects_non_hex() {
    assert!(matches!(
        RuntimeID::from_hash("00123456789ABCDG"),
        Err(RuntimeIDFromHashError::InvalidNumber)
    ));
}

#[test]
fn id_from_hash_rejects_out_of_range() {
    assert!(matches!(
        RuntimeID::from_hash("FFFFFFFFFFFFFFFF"),
        Err(RuntimeIDFromHashError::InvalidID(FromU64Error::TooHigh))
    ));
    assert!(matches!(
        RuntimeID::from_hash("00FFFFFFFFFFFFFF"),
        Err(RuntimeIDFromHashError::InvalidID(FromU64Error::TooHigh))
    ));
}

#[test]
fn id_to_hash_pads_to_sixteen_digits() {
    assert_eq!(RuntimeID::try_from(0xAB).unwrap().to_hash(), "00000000000000AB");
}

#[test]
fn path_hash_matches_truncated_md5_of_empty_string() {
    // MD5("") = d41d8cd98f00b204e9800998ecf8427e; bytes 1..7 big-endian.
    let id = RuntimeID::path_hash("");
    assert_eq!(id.to_hash(), "001D8CD98F00B204");
}

#[test]
fn path_hash_agrees_with_the_real_md5() {
    let path = "[assembly:/Some/Path.brick].pc_entitytype";
    let digest = md5::compute(path.to_ascii_lowercase());
    let mut expected = 0u64;
    for i in 1..8 {
        expected |= u64::from(digest[i]) << (8 * (7 - i));
    }
    assert_eq!(RuntimeID::path_hash(path).as_u64(), expected);
}

#[test]
fn path_hash_is_case_insensitive() {
    let mut catalogue = HashCatalogue::new();
    let a = RuntimeID::from_path("[assembly:/A/B.brick].pc_entitytype", &mut catalogue);
    let b = RuntimeID::from_path("[ASSEMBLY:/a/b.BRICK].PC_entitytype", &mut catalogue);
    assert_eq!(a, b);
}

#[test]
fn from_path_records_novel_paths_in_the_cache() {
    let mut catalogue = HashCatalogue::new();
    let path = "[assembly:/only/here.brick].pc_entitytype";
    let id = RuntimeID::from_path(path, &mut catalogue);
    assert_eq!(id.get_path(&catalogue).as_deref(), Some(path));
}

#[test]
fn from_path_does_not_replace_a_cached_path() {
    let mut catalogue = HashCatalogue::new();
    let path = "[assembly:/kept/path.brick].pc_entitytype";
    let id = RuntimeID::from_path(path, &mut catalogue);
    // The same identifier arrives with different casing: the first path wins.
    let id2 = RuntimeID::from_path("[ASSEMBLY:/kept/path.brick].pc_entitytype", &mut catalogue);
    assert_eq!(id, id2);
    assert_eq!(id.get_path(&catalogue).as_deref(), Some(path));
}

#[test]
fn catalogue_snapshot_and_cache_resolve_paths() {
    // A snapshot with one known entry, then a runtime-discovered path.
    let mut catalogue = HashCatalogue::new();
    let entries = vec![HashListEntry {
        resource_type: "TEMP".to_string(),
        hash: "0000000000000001".to_string(),
        path: "[assembly:/x.ext].pc_entitytype".to_string(),
        hint: String::new(),
        game_flags: 0,
    }];
    catalogue.hash_list.load_entries(7, &entries).unwrap();

    let known = RuntimeID::from_hash("0000000000000001").unwrap();
    assert_eq!(
        known.get_path(&catalogue).as_deref(),
        Some("[assembly:/x.ext].pc_entitytype")
    );

    let novel = RuntimeID::from_path("[assembly:/y.ext].pc_entitytype", &mut catalogue);
    assert_eq!(
        novel.get_path(&catalogue).as_deref(),
        Some("[assembly:/y.ext].pc_entitytype")
    );
}

#[test]
fn display_falls_back_to_hex() {
    let catalogue = HashCatalogue::new();
    let id = RuntimeID::from_hash("00123456789ABCDE").unwrap();
    assert_eq!(id.display(&catalogue), "00123456789ABCDE");
}

#[test]
fn display_prefers_the_resolved_path() {
    let mut catalogue = HashCatalogue::new();
    let path = "[assembly:/shown.brick].pc_entitytype";
    let id = RuntimeID::from_path(path, &mut catalogue);
    assert_eq!(id.display(&catalogue), path);
}

#[test]
fn from_str_dispatches_on_the_leading_bracket() {
    let mut catalogue = HashCatalogue::new();
    let by_path = RuntimeID::from_str("[assembly:/z.ext].pc_entitytype", &mut catalogue).unwrap();
    assert_eq!(
        by_path,
        RuntimeID::path_hash("[assembly:/z.ext].pc_entitytype")
    );
    let by_hash = RuntimeID::from_str("00000000000000AB", &mut catalogue).unwrap();
    assert_eq!(by_hash.as_u64(), 0xAB);
    assert!(RuntimeID::from_str("not hex", &mut catalogue).is_err());
}

#[test]
fn hash_list_new_is_empty() {
    let list = HashList::new();
    assert_eq!(list.version, 0);
    assert!(list.get(&RuntimeID::try_from(1).unwrap()).is_none());
}
