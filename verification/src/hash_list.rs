//! The hash catalogue: a versioned snapshot mapping identifiers to known
//! paths, plus a session cache of paths discovered at runtime.

use std::collections::HashMap;

use vstd::prelude::*;
use vstd::string::{StrSliceExecFns, StringSliceAdditionalSpecFns};
use vstd::utf8::encode_utf8;

use crate::resource_type::{ResourceType, ResourceTypeError};
use crate::runtime_id::{hash_str_ok, FromU64Error, RuntimeID, RuntimeIDFromHashError};
use crate::hex::all_hex_digits;

verus! {

broadcast use vstd::std_specs::hash::group_hash_axioms;

/// What the catalogue knows about one identifier.
#[derive(Debug, PartialEq, Eq, Clone, Hash)]
pub struct HashData {
    pub resource_type: ResourceType,
    pub path: Option<String>,
    pub hint: Option<String>,
}

/// One record of a catalogue snapshot document, as it stands on the wire:
/// the hash still in its 16-hex-digit form, empty strings not yet collapsed.
#[derive(Debug, PartialEq, Eq, Clone, Hash)]
pub struct HashListEntry {
    pub resource_type: String,
    pub hash: String,
    pub path: String,
    pub hint: String,
    pub game_flags: u8,
}

/// A catalogue snapshot: an advisory revision counter and the full map,
/// replaced as a whole on reload.
#[derive(Debug, Clone)]
pub struct HashList {
    pub version: u32,
    pub entries: HashMap<u64, HashData>,
}

/// The two-tier catalogue service: the snapshot, and the insert-only cache of
/// paths first seen during this session.
#[derive(Debug, Clone)]
pub struct HashCatalogue {
    pub hash_list: HashList,
    pub custom_paths: HashMap<u64, String>,
}

/// Failure to accept a snapshot document.
#[derive(Debug, PartialEq, Eq, Structural, Clone, Copy)]
pub enum DeserialisationError {
    /// An entry's hash field is not a valid 16-hex-digit identifier.
    InvalidHash(RuntimeIDFromHashError),
    /// An entry's resource type field is not a valid 4-byte tag.
    InvalidResourceType(ResourceTypeError),
}

/// The identifier an entry's hash field denotes.
pub open spec fn entry_id(e: HashListEntry) -> u64 {
    crate::hex::parse_hex_u64_16(e.hash@)
}

/// An entry the catalogue accepts: a valid hash and a 4-byte type tag.
pub open spec fn entry_ok(e: HashListEntry) -> bool {
    &&& hash_str_ok(e.hash@)
    &&& encode_utf8(e.resource_type@).len() == 4
}

/// All entries of a snapshot document are acceptable.
pub open spec fn entries_ok(s: Seq<HashListEntry>) -> bool {
    forall|j: int| 0 <= j < s.len() ==> entry_ok(#[trigger] s[j])
}

/// Some entry of the document names this identifier.
pub open spec fn key_in_entries(s: Seq<HashListEntry>, id: u64) -> bool {
    exists|j: int| 0 <= j < s.len() && entry_id(#[trigger] s[j]) == id
}

/// No later entry shares this entry's identifier, so this one's data wins.
pub open spec fn last_for_id(s: Seq<HashListEntry>, j: int) -> bool {
    forall|k: int| j < k < s.len() ==> entry_id(#[trigger] s[k]) != entry_id(s[j])
}

/// The catalogue data an entry loads to: same type tag, and empty path and
/// hint strings collapsed to `None`.
pub open spec fn entry_matches(e: HashListEntry, d: HashData) -> bool {
    &&& d.resource_type.tag@ == encode_utf8(e.resource_type@)
    &&& if e.path@.len() == 0 {
        d.path is None
    } else {
        d.path is Some && d.path->0@ == e.path@
    }
    &&& if e.hint@.len() == 0 {
        d.hint is None
    } else {
        d.hint is Some && d.hint->0@ == e.hint@
    }
}

/// The map a snapshot document builds: exactly the documented identifiers,
/// each carrying the data of its last entry.
pub open spec fn catalogue_map_ok(s: Seq<HashListEntry>, m: Map<u64, HashData>) -> bool {
    &&& forall|id: u64| #[trigger] m.contains_key(id) <==> key_in_entries(s, id)
    &&& forall|j: int|
        0 <= j < s.len() && last_for_id(s, j) ==> m.contains_key(entry_id(#[trigger] s[j]))
            && entry_matches(s[j], m[entry_id(s[j])])
}

/// The error the first unacceptable entry raises.
pub open spec fn entry_err(e: HashListEntry) -> DeserialisationError {
    if !hash_str_ok(e.hash@) {
        DeserialisationError::InvalidHash(hash_parse_err(e.hash@))
    } else {
        DeserialisationError::InvalidResourceType(ResourceTypeError::InvalidLength)
    }
}

/// The error a hash string fails to parse with.
pub open spec fn hash_parse_err(s: Seq<char>) -> RuntimeIDFromHashError {
    if s.len() != 16 {
        RuntimeIDFromHashError::InvalidLength
    } else if !all_hex_digits(s) {
        RuntimeIDFromHashError::InvalidNumber
    } else {
        RuntimeIDFromHashError::InvalidID(FromU64Error::TooHigh)
    }
}

/// A snapshot loaded from a document: the given revision and the document's
/// map.
pub open spec fn loaded_from(s: Seq<HashListEntry>, version: u32, h: HashList) -> bool {
    &&& h.version == version
    &&& catalogue_map_ok(s, h.entries@)
}

impl HashList {
    /// The empty catalogue every process starts from.
    pub fn new() -> (r: HashList)
        ensures
            r.version == 0,
            r.entries@ == Map::<u64, HashData>::empty(),
    {
        HashList { version: 0, entries: HashMap::new() }
    }

    /// Build a fresh snapshot from a decoded document.
    ///
    /// All entries are validated before anything is kept: the first bad
    /// entry fails the whole load and nothing partial is returned.
    pub fn from_entries(version: u32, entries: &Vec<HashListEntry>) -> (r: Result<
        HashList,
        DeserialisationError,
    >)
        ensures
            r is Ok <==> entries_ok(entries@),
            r is Ok ==> loaded_from(entries@, version, r->Ok_0),
            r is Err ==> exists|j: int|
                0 <= j < entries@.len() && !entry_ok(#[trigger] entries@[j]) && (forall|k: int|
                    0 <= k < j ==> entry_ok(#[trigger] entries@[k])) && r->Err_0 == entry_err(
                    entries@[j],
                ),
    {
        let mut map: HashMap<u64, HashData> = HashMap::new();
        let n = entries.len();
        let mut j: usize = 0;
        while j < n
            invariant
                n == entries@.len(),
                0 <= j <= n,
                forall|k: int| 0 <= k < j ==> entry_ok(#[trigger] entries@[k]),
                catalogue_map_ok(entries@.subrange(0, j as int), map@),
            decreases n - j,
        {
            let entry = &entries[j];
            let id = match RuntimeID::from_hash(entry.hash.as_str()) {
                Ok(id) => id,
                Err(e) => {
                    proof {
                        assert(!entry_ok(entries@[j as int]));
                    }
                    return Err(DeserialisationError::InvalidHash(e));
                },
            };
            let resource_type = match ResourceType::from_str(entry.resource_type.as_str()) {
                Ok(t) => t,
                Err(e) => {
                    proof {
                        assert(!entry_ok(entries@[j as int]));
                    }
                    return Err(DeserialisationError::InvalidResourceType(e));
                },
            };
            let path = if entry.path.as_str().unicode_len() == 0 {
                None
            } else {
                Some(entry.path.clone())
            };
            let hint = if entry.hint.as_str().unicode_len() == 0 {
                None
            } else {
                Some(entry.hint.clone())
            };
            let data = HashData { resource_type, path, hint };
            let ghost prefix = entries@.subrange(0, j as int);
            let ghost old_map = map@;
            map.insert(id.0, data);
            proof {
                let prefix2 = entries@.subrange(0, j as int + 1);
                assert(prefix2.drop_last() =~= prefix);
                assert(prefix2[j as int] == entries@[j as int]);
                assert(entry_matches(entries@[j as int], map@[entry_id(entries@[j as int])]));
                assert forall|id2: u64| #[trigger] map@.contains_key(id2) <==> key_in_entries(
                    prefix2,
                    id2,
                ) by {
                    if map@.contains_key(id2) {
                        if id2 == id.0 {
                            assert(entry_id(prefix2[j as int]) == id2);
                        } else {
                            assert(old_map.contains_key(id2));
                            let w = choose|w: int|
                                0 <= w < prefix.len() && entry_id(#[trigger] prefix[w]) == id2;
                            assert(entry_id(prefix2[w]) == id2);
                        }
                    }
                    if key_in_entries(prefix2, id2) {
                        let w = choose|w: int|
                            0 <= w < prefix2.len() && entry_id(#[trigger] prefix2[w]) == id2;
                        if w < j {
                            assert(entry_id(prefix[w]) == id2);
                            assert(old_map.contains_key(id2));
                        }
                        assert(map@.contains_key(id2));
                    }
                }
                assert forall|j2: int|
                    0 <= j2 < prefix2.len() && last_for_id(prefix2, j2) implies map@.contains_key(
                    entry_id(#[trigger] prefix2[j2]),
                ) && entry_matches(prefix2[j2], map@[entry_id(prefix2[j2])]) by {
                    if j2 == j {
                        assert(entry_id(prefix2[j2]) == id.0);
                    } else {
                        assert(prefix2[j2] == prefix[j2]);
                        assert forall|k: int|
                            j2 < k < prefix.len() implies entry_id(#[trigger] prefix[k])
                            != entry_id(prefix[j2]) by {
                            assert(prefix[k] == prefix2[k]);
                        }
                        assert(last_for_id(prefix, j2));
                        assert(old_map.contains_key(entry_id(prefix[j2])));
                        assert(entry_id(prefix2[j2]) != id.0) by {
                            assert(entry_id(prefix2[j as int]) == id.0);
                        }
                        assert(map@[entry_id(prefix2[j2])] == old_map[entry_id(prefix[j2])]);
                    }
                }
            }
            j += 1;
        }
        proof {
            assert(entries@.subrange(0, n as int) =~= entries@);
        }
        Ok(HashList { version, entries: map })
    }

    /// Replace this snapshot with one loaded from a decoded document.
    ///
    /// All-or-nothing: on a bad document the snapshot is left untouched.
    pub fn load_entries(&mut self, version: u32, entries: &Vec<HashListEntry>) -> (r: Result<
        (),
        DeserialisationError,
    >)
        ensures
            r is Ok <==> entries_ok(entries@),
            r is Ok ==> loaded_from(entries@, version, *final(self)),
            r is Err ==> *final(self) == *old(self) && exists|j: int|
                0 <= j < entries@.len() && !entry_ok(#[trigger] entries@[j]) && (forall|k: int|
                    0 <= k < j ==> entry_ok(#[trigger] entries@[k])) && r->Err_0 == entry_err(
                    entries@[j],
                ),
    {
        match Self::from_entries(version, entries) {
            Ok(fresh) => {
                *self = fresh;
                Ok(())
            },
            Err(e) => Err(e),
        }
    }

    /// Look an identifier up in the snapshot.
    pub fn get<'a>(&'a self, id: &RuntimeID) -> (r: Option<&'a HashData>)
        ensures
            r is Some <==> self.entries@.contains_key(id.0),
            r is Some ==> *r->0 == self.entries@[id.0],
    {
        self.entries.get(&id.0)
    }
}

/// How `from_path` may touch the session cache: the snapshot shadows it, a
/// hit leaves it alone, and a novel identifier is recorded with its path.
pub open spec fn cache_after_from_path(
    old_cat: HashCatalogue,
    new_cat: HashCatalogue,
    id: u64,
    path: Seq<char>,
) -> bool {
    &&& new_cat.hash_list == old_cat.hash_list
    &&& if old_cat.hash_list.entries@.contains_key(id) || old_cat.custom_paths@.contains_key(id) {
        new_cat.custom_paths@ == old_cat.custom_paths@
    } else {
        &&& new_cat.custom_paths@.dom() == old_cat.custom_paths@.dom().insert(id)
        &&& new_cat.custom_paths@[id]@ == path
        &&& forall|k: u64|
            old_cat.custom_paths@.contains_key(k) ==> #[trigger] new_cat.custom_paths@[k]
                == old_cat.custom_paths@[k]
    }
}

/// The path an identifier resolves to: the snapshot's entry wins, the
/// session cache backs it up, and an unknown identifier resolves to nothing.
pub open spec fn resolved_path(cat: HashCatalogue, id: u64) -> Option<Seq<char>> {
    if cat.hash_list.entries@.contains_key(id) && cat.hash_list.entries@[id].path is Some {
        Some(cat.hash_list.entries@[id].path->0@)
    } else if cat.custom_paths@.contains_key(id) {
        Some(cat.custom_paths@[id]@)
    } else {
        None
    }
}

impl HashCatalogue {
    /// A catalogue with an empty snapshot and an empty session cache.
    pub fn new() -> (r: HashCatalogue)
        ensures
            r.hash_list.version == 0,
            r.hash_list.entries@ == Map::<u64, HashData>::empty(),
            r.custom_paths@ == Map::<u64, String>::empty(),
    {
        HashCatalogue { hash_list: HashList::new(), custom_paths: HashMap::new() }
    }
}

} // verus!
