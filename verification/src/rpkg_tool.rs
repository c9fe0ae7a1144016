//! The binary `.meta` sidecar record codec.
//!
//! The on-disk layout is little-endian: a fixed 44-byte prefix (identifier,
//! data offset, size word, type tag, reference table size, dummy, final
//! size, two memory requirements), then, exactly when the reference table
//! size word is non-zero, a marker-tagged reference count, the per-reference
//! flag bytes, and the per-reference identifiers — the two arrays are not
//! interleaved.

use vstd::bytes::{
    spec_u32_from_le_bytes, spec_u32_to_le_bytes, spec_u64_from_le_bytes, spec_u64_to_le_bytes,
    u32_from_le_bytes, u32_to_le_bytes, u64_from_le_bytes, u64_to_le_bytes,
};
use vstd::prelude::*;
use vstd::slice::slice_subrange;

use crate::hex::{flag_byte, flag_str_ok, parse_hex_flag, u8_hex_upper, u8_hex_upper_2, u8_to_hex, u8_to_hex_2};
use crate::metadata::ExtendedResourceMetadata;
use crate::reference_flags::{as_legacy_spec, as_modern_spec};
use crate::resource_type::{ResourceType, ResourceTypeError};
use crate::runtime_id::{FromU64Error, RuntimeID, RuntimeIDFromHashError, RUNTIME_ID_BOUND};

verus! {

broadcast use vstd::slice::group_slice_axioms;

/// One outgoing reference as the record stores it: the target identifier
/// and the flag byte, kept in its hex string form.
#[derive(Debug, Clone, PartialEq, Eq, Hash)]
pub struct RpkgResourceReference {
    pub hash: RuntimeID,
    pub flag: String,
}

/// A decoded `.meta` record, field for field as it stands on disk.
#[derive(Debug, Clone, PartialEq, Eq, Hash)]
pub struct RpkgResourceMeta {
    pub hash_offset: u64,
    pub hash_reference_data: Vec<RpkgResourceReference>,
    pub hash_reference_table_dummy: u32,
    pub hash_reference_table_size: u32,
    pub hash_resource_type: ResourceType,
    pub hash_size: u32,
    pub hash_size_final: u32,
    pub hash_size_in_memory: u32,
    pub hash_size_in_video_memory: u32,
    pub hash_value: RuntimeID,
    /// Never serialized; carried only between tools.
    pub hash_path: Option<RuntimeID>,
}

/// Failure to decode or encode a record.
#[derive(Debug, PartialEq, Eq, Structural, Clone, Copy)]
pub enum RpkgInteropError {
    /// A read ran past the end of the record: no partial record is
    /// tolerated.
    Seek,
    /// The reference table would not fit in its 32-bit size word.
    InvalidNumber,
    /// A reference's flag string is not a hex byte.
    InvalidHex,
    /// An identifier's text form is invalid.
    InvalidHash(RuntimeIDFromHashError),
    /// An embedded identifier is out of range.
    InvalidRuntimeID(FromU64Error),
    /// The embedded type tag is invalid.
    InvalidResourceType(ResourceTypeError),
}

/// The 32-bit word at a byte offset.
pub open spec fn le32_at(s: Seq<u8>, off: int) -> u32 {
    spec_u32_from_le_bytes(s.subrange(off, off + 4))
}

/// The 64-bit word at a byte offset.
pub open spec fn le64_at(s: Seq<u8>, off: int) -> u64 {
    spec_u64_from_le_bytes(s.subrange(off, off + 8))
}

/// The record's reference table size word.
pub open spec fn wire_table_size(s: Seq<u8>) -> u32 {
    le32_at(s, 24)
}

/// The reference count, once the format marker in the top two bits is
/// masked off.
pub open spec fn wire_ref_count(s: Seq<u8>) -> int {
    (le32_at(s, 44) & 0x3FFFFFFF) as int
}

/// The number of references the record decodes with: none unless the table
/// size word says a table follows.
pub open spec fn spec_ref_count(s: Seq<u8>) -> int {
    if wire_table_size(s) == 0 {
        0
    } else {
        wire_ref_count(s)
    }
}

/// Every read the decoder makes stays inside the buffer. Reads are strict:
/// anything short of this is a fatal `Seek` error.
pub open spec fn decode_reads_ok(s: Seq<u8>) -> bool {
    &&& s.len() >= 44
    &&& wire_table_size(s) != 0 ==> s.len() >= 48 && s.len() >= 48 + 9 * wire_ref_count(s)
}

/// The flag byte of reference `i`.
pub open spec fn wire_ref_flag(s: Seq<u8>, i: int) -> u8 {
    s[48 + i]
}

/// The identifier of reference `i`; the identifiers follow all the flag
/// bytes.
pub open spec fn wire_ref_id(s: Seq<u8>, i: int) -> u64 {
    le64_at(s, 48 + spec_ref_count(s) + 8 * i)
}

/// Every embedded reference identifier is in range.
pub open spec fn decode_refs_ok(s: Seq<u8>) -> bool {
    forall|i: int| 0 <= i < spec_ref_count(s) ==> #[trigger] wire_ref_id(s, i) < RUNTIME_ID_BOUND
}

/// The embedded type tag is valid UTF-8.
pub open spec fn decode_type_ok(s: Seq<u8>) -> bool {
    vstd::utf8::valid_utf8(s.subrange(20, 24))
}

/// The record's own identifier is in range.
pub open spec fn decode_id_ok(s: Seq<u8>) -> bool {
    le64_at(s, 0) < RUNTIME_ID_BOUND
}

/// A buffer the decoder accepts.
pub open spec fn decode_ok(s: Seq<u8>) -> bool {
    &&& decode_reads_ok(s)
    &&& decode_refs_ok(s)
    &&& decode_type_ok(s)
    &&& decode_id_ok(s)
}

/// What decoding yields: each scalar field from its fixed offset, the table
/// size word as stored, and one reference per counted entry with its flag
/// byte rendered in hex.
pub open spec fn decodes_to(s: Seq<u8>, m: RpkgResourceMeta) -> bool {
    &&& m.hash_value.0 == le64_at(s, 0)
    &&& m.hash_offset == le64_at(s, 8)
    &&& m.hash_size == le32_at(s, 16)
    &&& m.hash_resource_type.tag@ == s.subrange(20, 24)
    &&& m.hash_reference_table_size == wire_table_size(s)
    &&& m.hash_reference_table_dummy == le32_at(s, 28)
    &&& m.hash_size_final == le32_at(s, 32)
    &&& m.hash_size_in_memory == le32_at(s, 36)
    &&& m.hash_size_in_video_memory == le32_at(s, 40)
    &&& m.hash_reference_data@.len() == spec_ref_count(s)
    &&& forall|i: int|
        0 <= i < spec_ref_count(s) ==> (#[trigger] m.hash_reference_data@[i]).flag@ == u8_hex_upper(
            wire_ref_flag(s, i),
        ) && m.hash_reference_data@[i].hash.0 == wire_ref_id(s, i)
    &&& m.hash_path is None
}

/// All flag strings of a reference list are encodable hex bytes.
pub open spec fn refs_encode_ok(rs: Seq<RpkgResourceReference>) -> bool {
    forall|i: int| 0 <= i < rs.len() ==> flag_str_ok((#[trigger] rs[i]).flag@)
}

/// A record the encoder accepts: the table fits its 32-bit size word and
/// every flag string parses.
pub open spec fn encode_ok(m: RpkgResourceMeta) -> bool {
    &&& 9 * m.hash_reference_data@.len() + 4 <= 0xFFFFFFFF
    &&& refs_encode_ok(m.hash_reference_data@)
}

/// The size the encoder recomputes for a reference table of `n` entries.
pub open spec fn table_size_for(n: int) -> int {
    if n == 0 {
        0
    } else {
        9 * n + 4
    }
}

/// The encoded flag bytes, one per reference.
pub open spec fn flags_bytes(rs: Seq<RpkgResourceReference>) -> Seq<u8> {
    Seq::new(rs.len(), |i: int| flag_byte(rs[i].flag@))
}

/// The encoded reference identifiers, eight bytes each.
pub open spec fn ids_bytes(rs: Seq<RpkgResourceReference>) -> Seq<u8> {
    Seq::new((8 * rs.len()) as nat, |k: int| spec_u64_to_le_bytes(rs[k / 8].hash.0)[k % 8])
}

/// The encoded form of a record. The table size word is recomputed from the
/// reference list; the stored one is only meaningful right after a decode.
/// `hash_path` is never serialized.
pub open spec fn meta_bytes(m: RpkgResourceMeta) -> Seq<u8> {
    let rs = m.hash_reference_data@;
    spec_u64_to_le_bytes(m.hash_value.0) + spec_u64_to_le_bytes(m.hash_offset)
        + spec_u32_to_le_bytes(m.hash_size) + m.hash_resource_type.tag@ + spec_u32_to_le_bytes(
        table_size_for(rs.len() as int) as u32,
    ) + spec_u32_to_le_bytes(m.hash_reference_table_dummy) + spec_u32_to_le_bytes(
        m.hash_size_final,
    ) + spec_u32_to_le_bytes(m.hash_size_in_memory) + spec_u32_to_le_bytes(
        m.hash_size_in_video_memory,
    ) + if rs.len() == 0 {
        Seq::<u8>::empty()
    } else {
        spec_u32_to_le_bytes((rs.len() as u32) | 0xC0000000) + flags_bytes(rs) + ids_bytes(rs)
    }
}

/// Read the 64-bit word at an offset.
fn read_u64(content: &[u8], off: usize) -> (r: u64)
    requires
        off + 8 <= content@.len(),
    ensures
        r == le64_at(content@, off as int),
{
    proof {
        vstd::slice::axiom_spec_len(content);
    }
    u64_from_le_bytes(slice_subrange(content, off, off + 8))
}

/// Read the 32-bit word at an offset.
fn read_u32(content: &[u8], off: usize) -> (r: u32)
    requires
        off + 4 <= content@.len(),
    ensures
        r == le32_at(content@, off as int),
{
    proof {
        vstd::slice::axiom_spec_len(content);
    }
    u32_from_le_bytes(slice_subrange(content, off, off + 4))
}

impl RpkgResourceMeta {
    /// A blank record for a resource of the given identity and type.
    pub fn new(id: RuntimeID, resource_type: ResourceType) -> (r: Self)
        ensures
            r.hash_value == id,
            r.hash_resource_type == resource_type,
            r.hash_offset == 0,
            r.hash_reference_data@.len() == 0,
            r.hash_reference_table_dummy == 0,
            r.hash_reference_table_size == 0,
            r.hash_size == 0,
            r.hash_size_final == 0,
            r.hash_size_in_memory == 0,
            r.hash_size_in_video_memory == 0,
            r.hash_path is None,
    {
        RpkgResourceMeta {
            hash_offset: 0,
            hash_reference_data: Vec::new(),
            hash_reference_table_dummy: 0,
            hash_reference_table_size: 0,
            hash_resource_type: resource_type,
            hash_size: 0,
            hash_size_final: 0,
            hash_size_in_memory: 0,
            hash_size_in_video_memory: 0,
            hash_value: id,
            hash_path: None,
        }
    }

    /// Decode a record from its binary form.
    ///
    /// Reads are strict: a buffer too short for any read fails with `Seek`.
    /// The reference table is present exactly when the table size word is
    /// non-zero. Embedded identifiers and the type tag pass through their
    /// constructors' validation, and the first invalid one fails the whole
    /// decode.
    pub fn from_binary(content: &[u8]) -> (r: Result<Self, RpkgInteropError>)
        ensures
            r is Ok <==> decode_ok(content@),
            r is Ok ==> decodes_to(content@, r->Ok_0),
            r == Err::<Self, _>(RpkgInteropError::Seek) <==> !decode_reads_ok(content@),
            r == Err::<Self, _>(
                RpkgInteropError::InvalidRuntimeID(FromU64Error::TooHigh),
            ) <==> decode_reads_ok(content@) && (!decode_refs_ok(content@) || (decode_type_ok(
                content@,
            ) && !decode_id_ok(content@))),
            r == Err::<Self, _>(
                RpkgInteropError::InvalidResourceType(ResourceTypeError::InvalidString),
            ) <==> decode_reads_ok(content@) && decode_refs_ok(content@) && !decode_type_ok(
                content@,
            ),
    {
        let ghost s = content@;
        let len = content.len();
        if len < 44 {
            return Err(RpkgInteropError::Seek);
        }
        let table_size = read_u32(content, 24);
        let mut refs: Vec<RpkgResourceReference> = Vec::new();
        let mut count: usize = 0;
        if table_size != 0 {
            if len < 48 {
                return Err(RpkgInteropError::Seek);
            }
            let raw = read_u32(content, 44);
            let masked = raw & 0x3FFFFFFF;
            proof {
                assert(raw & 0x3FFFFFFF < 0x40000000) by (bit_vector);
            }
            count = masked as usize;
            if (len as u64) < 48u64 + 9u64 * (masked as u64) {
                return Err(RpkgInteropError::Seek);
            }
            assert(spec_ref_count(s) == count);
            let mut i: usize = 0;
            while i < count
                invariant
                    s == content@,
                    len == s.len(),
                    0 <= i <= count,
                    count == spec_ref_count(s),
                    len >= 48 + 9 * count,
                    refs@.len() == i,
                    forall|k: int|
                        0 <= k < i ==> (#[trigger] refs@[k]).flag@ == u8_hex_upper(
                            wire_ref_flag(s, k),
                        ) && refs@[k].hash.0 == wire_ref_id(s, k) && wire_ref_id(s, k)
                            < RUNTIME_ID_BOUND,
                decreases count - i,
            {
                let flag_b = content[48 + i];
                let id_off = 48 + count + 8 * i;
                let idv = read_u64(content, id_off);
                if idv >= RUNTIME_ID_BOUND {
                    proof {
                        assert(wire_ref_id(s, i as int) == idv);
                    }
                    return Err(RpkgInteropError::InvalidRuntimeID(FromU64Error::TooHigh));
                }
                let flag = u8_to_hex(flag_b);
                let ghost before = refs@;
                refs.push(RpkgResourceReference { hash: RuntimeID(idv), flag });
                proof {
                    assert forall|k: int|
                        0 <= k < i + 1 implies (#[trigger] refs@[k]).flag@ == u8_hex_upper(
                        wire_ref_flag(s, k),
                    ) && refs@[k].hash.0 == wire_ref_id(s, k) && wire_ref_id(s, k)
                        < RUNTIME_ID_BOUND by {
                        if k < i {
                            assert(refs@[k] == before[k]);
                        } else {
                            assert(refs@[k] == (RpkgResourceReference {
                                hash: RuntimeID(idv),
                                flag,
                            }));
                        }
                    }
                }
                i += 1;
            }
        }
        proof {
            assert forall|k: int| 0 <= k < spec_ref_count(s) implies #[trigger] wire_ref_id(s, k)
                < RUNTIME_ID_BOUND by {
                assert(refs@[k].hash.0 == wire_ref_id(s, k));
            }
            assert(decode_refs_ok(s));
        }
        let t20 = content[20];
        let t21 = content[21];
        let t22 = content[22];
        let t23 = content[23];
        let tag = [t20, t21, t22, t23];
        proof {
            assert(tag@ =~= s.subrange(20, 24));
        }
        let resource_type = match ResourceType::from_bytes(tag) {
            Ok(t) => t,
            Err(e) => {
                return Err(RpkgInteropError::InvalidResourceType(e));
            },
        };
        let idv = read_u64(content, 0);
        if idv >= RUNTIME_ID_BOUND {
            return Err(RpkgInteropError::InvalidRuntimeID(FromU64Error::TooHigh));
        }

        Ok(
            RpkgResourceMeta {
                hash_offset: read_u64(content, 8),
                hash_reference_data: refs,
                hash_reference_table_dummy: read_u32(content, 28),
                hash_reference_table_size: table_size,
                hash_resource_type: resource_type,
                hash_size: read_u32(content, 16),
                hash_size_final: read_u32(content, 32),
                hash_size_in_memory: read_u32(content, 36),
                hash_size_in_video_memory: read_u32(content, 40),
                hash_value: RuntimeID(idv),
                hash_path: None,
            },
        )
    }

    /// Encode a record to its binary form.
    ///
    /// The reference table size word is recomputed from the reference list,
    /// so a decode, mutate, encode round trip stays size-consistent;
    /// `hash_path` is not written.
    pub fn to_binary(&self) -> (r: Result<Vec<u8>, RpkgInteropError>)
        ensures
            r is Ok <==> encode_ok(*self),
            r is Ok ==> r->Ok_0@ == meta_bytes(*self),
            r == Err::<Vec<u8>, _>(RpkgInteropError::InvalidNumber) <==> 9
                * self.hash_reference_data@.len() + 4 > 0xFFFFFFFF,
            r == Err::<Vec<u8>, _>(RpkgInteropError::InvalidHex) <==> 9
                * self.hash_reference_data@.len() + 4 <= 0xFFFFFFFF && !refs_encode_ok(
                self.hash_reference_data@,
            ),
    {
        let n = self.hash_reference_data.len();
        let table_size: u32 = if n == 0 {
            0
        } else {
            let wide = (n as u128) * 9 + 4;
            if wide > 0xFFFFFFFFu128 {
                return Err(RpkgInteropError::InvalidNumber);
            }
            wide as u32
        };
        let mut out: Vec<u8> = Vec::new();
        let mut piece = u64_to_le_bytes(self.hash_value.as_u64());
        out.append(&mut piece);
        let mut piece = u64_to_le_bytes(self.hash_offset);
        out.append(&mut piece);
        let mut piece = u32_to_le_bytes(self.hash_size);
        out.append(&mut piece);
        let tag = self.hash_resource_type.to_bytes();
        out.push(tag[0]);
        out.push(tag[1]);
        out.push(tag[2]);
        out.push(tag[3]);
        let mut piece = u32_to_le_bytes(table_size);
        out.append(&mut piece);
        let mut piece = u32_to_le_bytes(self.hash_reference_table_dummy);
        out.append(&mut piece);
        let mut piece = u32_to_le_bytes(self.hash_size_final);
        out.append(&mut piece);
        let mut piece = u32_to_le_bytes(self.hash_size_in_memory);
        out.append(&mut piece);
        let mut piece = u32_to_le_bytes(self.hash_size_in_video_memory);
        out.append(&mut piece);
        let ghost header = spec_u64_to_le_bytes(self.hash_value.0) + spec_u64_to_le_bytes(
            self.hash_offset,
        ) + spec_u32_to_le_bytes(self.hash_size) + self.hash_resource_type.tag@
            + spec_u32_to_le_bytes(table_size_for(self.hash_reference_data@.len() as int) as u32) + spec_u32_to_le_bytes(
            self.hash_reference_table_dummy,
        ) + spec_u32_to_le_bytes(self.hash_size_final) + spec_u32_to_le_bytes(
            self.hash_size_in_memory,
        ) + spec_u32_to_le_bytes(self.hash_size_in_video_memory);
        proof {
            assert(table_size == table_size_for(self.hash_reference_data@.len() as int) as u32);
            assert(out@ =~= header);
        }
        if n == 0 {
            proof {
                assert(meta_bytes(*self) =~= header);
            }
            return Ok(out);
        }
        let count_word: u32 = (n as u32) | 0xC0000000;
        let mut piece = u32_to_le_bytes(count_word);
        out.append(&mut piece);
        let ghost with_count = header + spec_u32_to_le_bytes((self.hash_reference_data@.len() as u32) | 0xC0000000);
        proof {
            assert(out@ =~= with_count);
        }
        let mut i: usize = 0;
        while i < n
            invariant
                n == self.hash_reference_data@.len(),
                0 <= i <= n,
                forall|k: int| 0 <= k < i ==> flag_str_ok((#[trigger] self.hash_reference_data@[k]).flag@),
                out@ == with_count + Seq::new(i as nat, |k: int| flag_byte(self.hash_reference_data@[k].flag@)),
                9 * n + 4 <= 0xFFFFFFFF,
            decreases n - i,
        {
            let b = match parse_hex_flag(self.hash_reference_data[i].flag.as_str()) {
                Some(b) => b,
                None => {
                    proof {
                        assert(!flag_str_ok(self.hash_reference_data@[i as int].flag@));
                        assert(!refs_encode_ok(self.hash_reference_data@));
                    }
                    return Err(RpkgInteropError::InvalidHex);
                },
            };
            out.push(b);
            proof {
                assert(out@ =~= with_count + Seq::new(
                    (i + 1) as nat,
                    |k: int| flag_byte(self.hash_reference_data@[k].flag@),
                ));
            }
            i += 1;
        }
        proof {
            assert(Seq::new(n as nat, |k: int| flag_byte(self.hash_reference_data@[k].flag@)) =~= flags_bytes(self.hash_reference_data@));
        }
        let ghost with_flags = with_count + flags_bytes(self.hash_reference_data@);
        let mut i: usize = 0;
        while i < n
            invariant
                n == self.hash_reference_data@.len(),
                0 <= i <= n,
                out@ == with_flags + Seq::new(
                    (8 * i) as nat,
                    |k: int| spec_u64_to_le_bytes(self.hash_reference_data@[k / 8].hash.0)[k % 8],
                ),
            decreases n - i,
        {
            let mut piece = u64_to_le_bytes(self.hash_reference_data[i].hash.as_u64());
            out.append(&mut piece);
            proof {
                let f = |k: int| spec_u64_to_le_bytes(self.hash_reference_data@[k / 8].hash.0)[k % 8];
                vstd::bytes::lemma_auto_spec_u64_to_from_le_bytes();
                assert forall|k: int| 0 <= k < 8 * (i + 1) implies (#[trigger] Seq::new(
                    (8 * (i + 1)) as nat,
                    f,
                )[k]) == (Seq::new((8 * i) as nat, f) + spec_u64_to_le_bytes(
                    self.hash_reference_data@[i as int].hash.0,
                ))[k] by {
                    if k >= 8 * i {
                        assert(k / 8 == i && k % 8 == k - 8 * i) by (nonlinear_arith)
                            requires
                                8 * i <= k < 8 * i + 8,
                        ;
                    }
                }
                assert(Seq::new((8 * (i + 1)) as nat, f) =~= Seq::new((8 * i) as nat, f)
                    + spec_u64_to_le_bytes(self.hash_reference_data@[i as int].hash.0));
                assert(out@ =~= with_flags + Seq::new((8 * (i + 1)) as nat, f));
            }
            i += 1;
        }
        proof {
            assert(Seq::new((8 * n) as nat, |k: int| spec_u64_to_le_bytes(self.hash_reference_data@[k / 8].hash.0)[k % 8])
                =~= ids_bytes(self.hash_reference_data@));
            assert(out@ =~= meta_bytes(*self));
        }
        Ok(out)
    }
}

/// Where each piece of an encoded record lands: every scalar field at its
/// fixed offset, and, when references exist, the marked count word, the flag
/// bytes and the identifiers after the 44-byte prefix.
proof fn lemma_meta_bytes_fields(m: RpkgResourceMeta)
    requires
        encode_ok(m),
    ensures
        ({
            let bytes = meta_bytes(m);
            let rs = m.hash_reference_data@;
            let n = rs.len() as int;
            &&& bytes.len() == 44 + table_size_for(n)
            &&& le64_at(bytes, 0) == m.hash_value.0
            &&& le64_at(bytes, 8) == m.hash_offset
            &&& le32_at(bytes, 16) == m.hash_size
            &&& bytes.subrange(20, 24) == m.hash_resource_type.tag@
            &&& le32_at(bytes, 24) == table_size_for(n) as u32
            &&& le32_at(bytes, 28) == m.hash_reference_table_dummy
            &&& le32_at(bytes, 32) == m.hash_size_final
            &&& le32_at(bytes, 36) == m.hash_size_in_memory
            &&& le32_at(bytes, 40) == m.hash_size_in_video_memory
            &&& n > 0 ==> le32_at(bytes, 44) == ((n as u32) | 0xC0000000)
            &&& n > 0 ==> forall|i: int|
                0 <= i < n ==> #[trigger] bytes[48 + i] == flag_byte(rs[i].flag@)
            &&& n > 0 ==> forall|i: int|
                0 <= i < n ==> #[trigger] bytes.subrange(48 + n + 8 * i, 48 + n + 8 * i + 8)
                    == spec_u64_to_le_bytes(rs[i].hash.0)
        }),
{
    let bytes = meta_bytes(m);
    let rs = m.hash_reference_data@;
    let n = rs.len() as int;
    vstd::bytes::lemma_auto_spec_u64_to_from_le_bytes();
    vstd::bytes::lemma_auto_spec_u32_to_from_le_bytes();
    broadcast use vstd::array::group_array_axioms;

    assert(m.hash_resource_type.tag@.len() == 4);
    assert(bytes.subrange(0, 8) =~= spec_u64_to_le_bytes(m.hash_value.0));
    assert(bytes.subrange(8, 16) =~= spec_u64_to_le_bytes(m.hash_offset));
    assert(bytes.subrange(16, 20) =~= spec_u32_to_le_bytes(m.hash_size));
    assert(bytes.subrange(20, 24) =~= m.hash_resource_type.tag@);
    assert(bytes.subrange(24, 28) =~= spec_u32_to_le_bytes(table_size_for(n) as u32));
    assert(bytes.subrange(28, 32) =~= spec_u32_to_le_bytes(m.hash_reference_table_dummy));
    assert(bytes.subrange(32, 36) =~= spec_u32_to_le_bytes(m.hash_size_final));
    assert(bytes.subrange(36, 40) =~= spec_u32_to_le_bytes(m.hash_size_in_memory));
    assert(bytes.subrange(40, 44) =~= spec_u32_to_le_bytes(m.hash_size_in_video_memory));
    if n > 0 {
        assert(bytes.subrange(44, 48) =~= spec_u32_to_le_bytes((n as u32) | 0xC0000000));
        assert forall|i: int| 0 <= i < n implies #[trigger] bytes[48 + i] == flag_byte(
            rs[i].flag@,
        ) by {
            assert(bytes[48 + i] == flags_bytes(rs)[i]);
        }
        assert forall|i: int| 0 <= i < n implies #[trigger] bytes.subrange(
            48 + n + 8 * i,
            48 + n + 8 * i + 8,
        ) == spec_u64_to_le_bytes(rs[i].hash.0) by {
            assert forall|j: int|
                0 <= j < 8 implies bytes.subrange(48 + n + 8 * i, 48 + n + 8 * i + 8)[j]
                == spec_u64_to_le_bytes(rs[i].hash.0)[j] by {
                assert((8 * i + j) / 8 == i && (8 * i + j) % 8 == j) by (nonlinear_arith)
                    requires
                        0 <= j < 8,
                        0 <= i,
                ;
                assert(bytes[48 + n + 8 * i + j] == ids_bytes(rs)[8 * i + j]);
            }
            assert(bytes.subrange(48 + n + 8 * i, 48 + n + 8 * i + 8) =~= spec_u64_to_le_bytes(
                rs[i].hash.0,
            ));
        }
    }
}

/// Reference-table size law: an encoded record's size word is `4 + 9 * N`
/// for `N` references and `0` for none, and the whole encoding occupies
/// exactly the 44-byte prefix plus that table.
pub proof fn lemma_reference_table_size(m: RpkgResourceMeta)
    requires
        encode_ok(m),
    ensures
        le32_at(meta_bytes(m), 24) == table_size_for(m.hash_reference_data@.len() as int) as u32,
        table_size_for(m.hash_reference_data@.len() as int) <= 0xFFFFFFFF,
        meta_bytes(m).len() == 44 + table_size_for(m.hash_reference_data@.len() as int),
{
    lemma_meta_bytes_fields(m);
}

/// Codec round-trip law: a record the encoder accepts, whose identifiers
/// are in range, whose type tag is valid and whose flag strings are in the
/// decoder's canonical hex form, decodes from its own encoding back to
/// itself — except that the table size word has been recomputed and
/// `hash_path`, never serialized, comes back empty.
pub proof fn lemma_codec_roundtrip(m: RpkgResourceMeta, m2: RpkgResourceMeta)
    requires
        encode_ok(m),
        m.hash_value.0 < RUNTIME_ID_BOUND,
        vstd::utf8::valid_utf8(m.hash_resource_type.tag@),
        forall|i: int|
            0 <= i < m.hash_reference_data@.len() ==> (#[trigger] m.hash_reference_data@[i]).hash.0
                < RUNTIME_ID_BOUND,
        forall|i: int|
            0 <= i < m.hash_reference_data@.len() ==> (#[trigger] m.hash_reference_data@[i]).flag@
                == u8_hex_upper(flag_byte(m.hash_reference_data@[i].flag@)),
        decodes_to(meta_bytes(m), m2),
    ensures
        decode_ok(meta_bytes(m)),
        m2.hash_value == m.hash_value,
        m2.hash_offset == m.hash_offset,
        m2.hash_size == m.hash_size,
        m2.hash_resource_type.tag@ == m.hash_resource_type.tag@,
        m2.hash_reference_table_size == table_size_for(
            m.hash_reference_data@.len() as int,
        ) as u32,
        m2.hash_reference_table_dummy == m.hash_reference_table_dummy,
        m2.hash_size_final == m.hash_size_final,
        m2.hash_size_in_memory == m.hash_size_in_memory,
        m2.hash_size_in_video_memory == m.hash_size_in_video_memory,
        m2.hash_reference_data@.len() == m.hash_reference_data@.len(),
        forall|i: int|
            0 <= i < m.hash_reference_data@.len() ==> (#[trigger] m2.hash_reference_data@[i]).flag@
                == m.hash_reference_data@[i].flag@ && m2.hash_reference_data@[i].hash
                == m.hash_reference_data@[i].hash,
        m2.hash_path is None,
{
    let bytes = meta_bytes(m);
    let rs = m.hash_reference_data@;
    let n = rs.len() as int;
    lemma_meta_bytes_fields(m);
    if n > 0 {
        assert(n < 0x40000000);
        let nu = n as u32;
        let w = nu | 0xC0000000;
        assert(w & 0x3FFFFFFF == nu && w != 0) by (bit_vector)
            requires
                w == nu | 0xC0000000,
                nu < 0x40000000,
        ;
        assert(nu == n);
        assert(table_size_for(n) as u32 != 0);
        assert(spec_ref_count(bytes) == n);
    } else {
        assert(le32_at(bytes, 24) == 0);
        assert(spec_ref_count(bytes) == 0);
    }
    assert(decode_reads_ok(bytes));
    assert forall|i: int| 0 <= i < spec_ref_count(bytes) implies #[trigger] wire_ref_id(bytes, i)
        < RUNTIME_ID_BOUND by {
        assert(bytes.subrange(48 + n + 8 * i, 48 + n + 8 * i + 8) == spec_u64_to_le_bytes(
            rs[i].hash.0,
        ));
        vstd::bytes::lemma_auto_spec_u64_to_from_le_bytes();
        assert(wire_ref_id(bytes, i) == rs[i].hash.0);
    }
    assert forall|i: int|
        0 <= i < n implies (#[trigger] m2.hash_reference_data@[i]).flag@ == rs[i].flag@
        && m2.hash_reference_data@[i].hash == rs[i].hash by {
        assert(m2.hash_reference_data@[i].flag@ == u8_hex_upper(wire_ref_flag(bytes, i)));
        assert(wire_ref_flag(bytes, i) == flag_byte(rs[i].flag@));
        assert(m2.hash_reference_data@[i].hash.0 == wire_ref_id(bytes, i));
        assert(wire_ref_id(bytes, i) == rs[i].hash.0) by {
            assert(bytes.subrange(48 + n + 8 * i, 48 + n + 8 * i + 8) == spec_u64_to_le_bytes(
                rs[i].hash.0,
            ));
            vstd::bytes::lemma_auto_spec_u64_to_from_le_bytes();
        }
    }
}


/// A decoded record is fit for re-encoding: its flag strings are canonical
/// hex bytes, its identifiers are in range and its type tag is valid, so a
/// decode, mutate, encode round trip (see [`lemma_codec_roundtrip`]) stays
/// size-consistent.
pub proof fn lemma_decoded_record_reencodes(bytes: Seq<u8>, m: RpkgResourceMeta)
    requires
        decode_ok(bytes),
        decodes_to(bytes, m),
        9 * spec_ref_count(bytes) + 4 <= 0xFFFFFFFF,
    ensures
        encode_ok(m),
        m.hash_value.0 < RUNTIME_ID_BOUND,
        vstd::utf8::valid_utf8(m.hash_resource_type.tag@),
        forall|i: int|
            0 <= i < m.hash_reference_data@.len() ==> (#[trigger] m.hash_reference_data@[i]).hash.0
                < RUNTIME_ID_BOUND,
        forall|i: int|
            0 <= i < m.hash_reference_data@.len() ==> (#[trigger] m.hash_reference_data@[i]).flag@
                == u8_hex_upper(flag_byte(m.hash_reference_data@[i].flag@)),
{
    assert forall|i: int|
        0 <= i < m.hash_reference_data@.len() implies flag_str_ok(
        (#[trigger] m.hash_reference_data@[i]).flag@,
    ) && m.hash_reference_data@[i].flag@ == u8_hex_upper(
        flag_byte(m.hash_reference_data@[i].flag@),
    ) && m.hash_reference_data@[i].hash.0 < RUNTIME_ID_BOUND by {
        let b = wire_ref_flag(bytes, i);
        crate::hex::lemma_u8_hex_roundtrip(b);
        assert(m.hash_reference_data@[i].flag@ == u8_hex_upper(b));
        assert(flag_byte(u8_hex_upper(b)) == b);
        assert(wire_ref_id(bytes, i) < RUNTIME_ID_BOUND);
    }
}

/// The flag string `from_resource_metadata` writes for one reference: the
/// chosen encoding's byte, as two upper-case hex digits.
pub open spec fn exported_flag(f: crate::reference_flags::ReferenceFlags, use_legacy_flags: bool) -> Seq<char> {
    if use_legacy_flags {
        u8_hex_upper_2(as_legacy_spec(f))
    } else {
        u8_hex_upper_2(as_modern_spec(f))
    }
}

/// An exported flag string is an encodable hex byte that parses back to
/// the chosen encoding's byte, so a record built by
/// `from_resource_metadata` is always accepted by the encoder.
pub proof fn lemma_exported_flag_parses(f: crate::reference_flags::ReferenceFlags, use_legacy_flags: bool)
    ensures
        flag_str_ok(exported_flag(f, use_legacy_flags)),
        flag_byte(exported_flag(f, use_legacy_flags)) == (if use_legacy_flags {
            as_legacy_spec(f)
        } else {
            as_modern_spec(f)
        }),
{
    if use_legacy_flags {
        crate::hex::lemma_u8_hex_2_roundtrip(as_legacy_spec(f));
    } else {
        crate::hex::lemma_u8_hex_2_roundtrip(as_modern_spec(f));
    }
}

impl RpkgResourceMeta {
    /// Build a raw codec record from extended metadata, re-encoding each
    /// reference's flags in the requested format. The size words are fixed
    /// placeholders (compressed resources report a nominal size of 1000),
    /// the data offset is zero, and the reference table size is computed
    /// from the reference list.
    pub fn from_resource_metadata(metadata: ExtendedResourceMetadata, use_legacy_flags: bool) -> (r:
        Self)
        requires
            9 * metadata.core_info.references@.len() + 4 <= 0xFFFFFFFF,
        ensures
            r.hash_offset == 0,
            r.hash_size == ((if metadata.core_info.compressed {
                1000u32
            } else {
                0u32
            }) | (if metadata.core_info.scrambled {
                0x80000000u32
            } else {
                0u32
            })),
            r.hash_size_final == 1000,
            r.hash_value == metadata.core_info.id,
            r.hash_path is None,
            r.hash_size_in_memory == metadata.system_memory_requirement,
            r.hash_size_in_video_memory == metadata.video_memory_requirement,
            r.hash_resource_type == metadata.core_info.resource_type,
            r.hash_reference_data@.len() == metadata.core_info.references@.len(),
            forall|i: int|
                0 <= i < metadata.core_info.references@.len() ==> (
                #[trigger] r.hash_reference_data@[i]).hash
                    == metadata.core_info.references@[i].resource
                    && r.hash_reference_data@[i].flag@ == exported_flag(
                    metadata.core_info.references@[i].flags,
                    use_legacy_flags,
                ),
            r.hash_reference_table_size == table_size_for(
                metadata.core_info.references@.len() as int,
            ) as u32,
            r.hash_reference_table_dummy == 0,
    {
        let n = metadata.core_info.references.len();
        let mut refs: Vec<RpkgResourceReference> = Vec::new();
        let mut i: usize = 0;
        while i < n
            invariant
                n == metadata.core_info.references@.len(),
                0 <= i <= n,
                refs@.len() == i,
                forall|k: int|
                    0 <= k < i ==> (#[trigger] refs@[k]).hash
                        == metadata.core_info.references@[k].resource && refs@[k].flag@
                        == exported_flag(metadata.core_info.references@[k].flags, use_legacy_flags),
            decreases n - i,
        {
            let reference = &metadata.core_info.references[i];
            let byte = if use_legacy_flags {
                reference.flags.as_legacy()
            } else {
                reference.flags.as_modern()
            };
            let converted = RpkgResourceReference { hash: reference.resource, flag: u8_to_hex_2(byte) };
            let ghost before = refs@;
            refs.push(converted);
            proof {
                assert forall|k: int|
                    0 <= k < i + 1 implies (#[trigger] refs@[k]).hash
                    == metadata.core_info.references@[k].resource && refs@[k].flag@
                    == exported_flag(
                    metadata.core_info.references@[k].flags,
                    use_legacy_flags,
                ) by {
                    if k < i {
                        assert(refs@[k] == before[k]);
                    } else {
                        assert(refs@[k] == converted);
                    }
                }
            }
            i += 1;
        }
        let table_size: u32 = if n == 0 {
            0
        } else {
            (n as u32) * 9 + 4
        };
        RpkgResourceMeta {
            hash_offset: 0,
            hash_size: (if metadata.core_info.compressed {
                1000u32
            } else {
                0u32
            }) | (if metadata.core_info.scrambled {
                0x80000000u32
            } else {
                0u32
            }),
            hash_size_final: 1000,
            hash_value: metadata.core_info.id,
            hash_path: None,
            hash_size_in_memory: metadata.system_memory_requirement,
            hash_size_in_video_memory: metadata.video_memory_requirement,
            hash_resource_type: metadata.core_info.resource_type,
            hash_reference_data: refs,
            hash_reference_table_size: table_size,
            hash_reference_table_dummy: 0,
        }
    }
}

} // verus!
