use hitman_commons::hash_list::{DeserialisationError, HashList, HashListEntry};
use hitman_commons::resource_type::{ResourceType, ResourceTypeError};
use hitman_commons::runtime_id::{RuntimeID, RuntimeIDFromHashError};

fn entry(hash: &str, path: &str, hint: &str) -> HashListEntry {
    HashListEntry {
        resource_type: "TEMP".to_string(),
        hash: hash.to_string(),
        path: path.to_string(),
        hint: hint.to_string(),
        game_flags: 0,
    }
}

#[test]
fn catalogue_loads_entries_and_collapses_empty_strings() {
    let entries = vec![
        entry("0000000000000001", "[assembly:/x.ext].pc_entitytype", ""),
        entry("0000000000000002", "", "a hint"),
    ];
    let list = HashList::from_entries(9, &entries).unwrap();
    assert_eq!(list.version, 9);

    let one = list.get(&RuntimeID::try_from(1).unwrap()).unwrap();
    assert_eq!(one.resource_type, ResourceType::from_str("TEMP").unwrap());
    assert_eq!(one.path.as_deref(), Some("[assembly:/x.ext].pc_entitytype"));
    assert!(one.hint.is_none());

    let two = list.get(&RuntimeID::try_from(2).unwrap()).unwrap();
    assert!(two.path.is_none());
    assert_eq!(two.hint.as_deref(), Some("a hint"));

    assert!(list.get(&RuntimeID::try_from(3).unwrap()).is_none());
}

#[test]
fn catalogue_last_entry_wins_for_a_duplicated_hash() {
    let entries = vec![
        entry("0000000000000005", "[assembly:/old.ext].pc_entitytype", ""),
        entry("0000000000000005", "[assembly:/new.ext].pc_entitytype", ""),
    ];
    let list = HashList::from_entries(1, &entries).unwrap();
    let data = list.get(&RuntimeID::try_from(5).unwrap()).unwrap();
    assert_eq!(data.path.as_deref(), Some("[assembly:/new.ext].pc_entitytype"));
}

#[test]
fn catalogue_rejects_a_bad_hash() {
    let entries = vec![entry("xyz", "", "")];
    assert!(matches!(
        HashList::from_entries(1, &entries),
        Err(DeserialisationError::InvalidHash(RuntimeIDFromHashError::InvalidLength))
    ));
    let entries = vec![entry("000000000000000G", "", "")];
    assert!(matches!(
        HashList::from_entries(1, &entries),
        Err(DeserialisationError::InvalidHash(RuntimeIDFromHashError::InvalidNumber))
    ));
}

#[test]
fn catalogue_rejects_a_bad_type_tag() {
    let mut bad = entry("0000000000000001", "", "");
    bad.resource_type = "TOOLONG".to_string();
    assert!(matches!(
        HashList::from_entries(1, &vec![bad]),
        Err(DeserialisationError::InvalidResourceType(ResourceTypeError::InvalidLength))
    ));
}

#[test]
fn catalogue_reload_replaces_the_whole_snapshot() {
    let mut list = HashList::from_entries(1, &vec![entry("0000000000000001", "p", "")]).unwrap();
    list.load_entries(2, &vec![entry("0000000000000002", "q", "")]).unwrap();
    assert_eq!(list.version, 2);
    assert!(list.get(&RuntimeID::try_from(1).unwrap()).is_none());
    assert!(list.get(&RuntimeID::try_from(2).unwrap()).is_some());
}

#[test]
fn catalogue_failed_reload_changes_nothing() {
    let mut list = HashList::from_entries(1, &vec![entry("0000000000000001", "p", "")]).unwrap();
    let bad = vec![entry("0000000000000002", "q", ""), entry("bad", "", "")];
    assert!(list.load_entries(2, &bad).is_err());
    assert_eq!(list.version, 1);
    assert!(list.get(&RuntimeID::try_from(1).unwrap()).is_some());
    assert!(list.get(&RuntimeID::try_from(2).unwrap()).is_none());
}
