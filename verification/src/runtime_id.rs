//! Content-derived 56-bit resource identifiers.

use vstd::prelude::*;
use vstd::string::{StrSliceExecFns, StringExecFns, StringSliceAdditionalSpecFns};
use vstd::utf8::encode_utf8;

use crate::hash_list::{cache_after_from_path, resolved_path, HashCatalogue};
use crate::hex::{
    all_hex_digits, chars_to_string, hex_char_of, hex_digit_of, hex_digit_value, is_hex_digit,
    lemma_u64_hex_roundtrip, parse_hex_u64_16, u64_hex_16, upper_hex_char,
};

verus! {

broadcast use vstd::std_specs::hash::group_hash_axioms;

/// Exclusive upper bound that [`RuntimeID::try_from`] and
/// [`RuntimeID::from_hash`] enforce: the top byte must stay clear, and the
/// all-ones low 56 bits are reserved.
pub const RUNTIME_ID_BOUND: u64 = 0x00FFFFFFFFFFFFFF;

/// A 64-bit content identifier whose top byte is zero; derived from a path by
/// truncated MD5, or parsed from 16 hex digits.
#[derive(Debug, PartialEq, Eq, Structural, Clone, Copy, Hash, PartialOrd, Ord)]
pub struct RuntimeID(pub u64);

/// Failure to accept a raw 64-bit value as an identifier.
#[derive(Debug, PartialEq, Eq, Structural, Clone, Copy)]
pub enum FromU64Error {
    /// The value reaches into the reserved top byte.
    TooHigh,
}

/// Failure to parse an identifier from its 16-hex-digit form.
#[derive(Debug, PartialEq, Eq, Structural, Clone, Copy)]
pub enum RuntimeIDFromHashError {
    /// A character is not a hex digit.
    InvalidNumber,
    /// The text does not hold exactly 16 characters.
    InvalidLength,
    /// The digits parse but the value is out of range.
    InvalidID(FromU64Error),
}

/// The 16-byte MD5 digest of a byte sequence.
///
/// Named, not written out: the digest is a function of the bytes alone, and
/// only the real `md5` crate computes it.
pub uninterp spec fn md5_digest(data: Seq<u8>) -> Seq<u8>;

/// Relies on `md5::compute`: the 16-byte MD5 digest of the input, a function
/// of the input bytes alone.
#[verifier::external_body]
fn compute_md5(data: &[u8]) -> (r: Vec<u8>)
    ensures
        r@ == md5_digest(data@),
        r@.len() == 16,
{
    md5::compute(data).0.to_vec()
}

/// ASCII lower-casing of one byte: `A`..`Z` shift down, all else unchanged.
pub open spec fn ascii_lower_byte(b: u8) -> u8 {
    if 0x41 <= b && b <= 0x5A {
        (b + 0x20) as u8
    } else {
        b
    }
}

/// ASCII lower-casing of a byte sequence.
pub open spec fn ascii_lower(s: Seq<u8>) -> Seq<u8> {
    s.map(|i: int, b: u8| ascii_lower_byte(b))
}

/// The identifier value a path hashes to: digest bytes 1..7 of the MD5 of the
/// ASCII-lower-cased path, packed big-endian into the low 56 bits.
pub open spec fn path_hash_value(path: Seq<char>) -> u64 {
    let d = md5_digest(ascii_lower(encode_utf8(path)));
    ((d[1] as u64) << 48) | ((d[2] as u64) << 40) | ((d[3] as u64) << 32) | ((d[4] as u64) << 24)
        | ((d[5] as u64) << 16) | ((d[6] as u64) << 8) | (d[7] as u64)
}

/// A string that [`RuntimeID::from_hash`] accepts: 16 hex digits whose value
/// respects the range invariant.
pub open spec fn hash_str_ok(s: Seq<char>) -> bool {
    &&& s.len() == 16
    &&& all_hex_digits(s)
    &&& parse_hex_u64_16(s) < RUNTIME_ID_BOUND
}

impl RuntimeID {
    /// The top byte of the identifier is always zero.
    pub open spec fn wf(self) -> bool {
        self.0 < 0x0100000000000000
    }

    /// Accept a raw value as an identifier.
    ///
    /// The identifier range invariant: this succeeds exactly when the value
    /// is below [`RUNTIME_ID_BOUND`].
    pub fn try_from(value: u64) -> (r: Result<RuntimeID, FromU64Error>)
        ensures
            r is Ok <==> value < RUNTIME_ID_BOUND,
            r is Ok ==> r->Ok_0 == (RuntimeID(value)) && r->Ok_0.wf(),
            r is Err ==> r->Err_0 == FromU64Error::TooHigh,
    {
        if value < RUNTIME_ID_BOUND {
            Ok(RuntimeID(value))
        } else {
            Err(FromU64Error::TooHigh)
        }
    }

    /// Parse an identifier from exactly 16 hex digits.
    pub fn from_hash(hash: &str) -> (r: Result<RuntimeID, RuntimeIDFromHashError>)
        ensures
            r is Ok <==> hash_str_ok(hash@),
            r is Ok ==> r->Ok_0 == (RuntimeID(parse_hex_u64_16(hash@))) && r->Ok_0.wf(),
            r == Err::<RuntimeID, _>(RuntimeIDFromHashError::InvalidLength) <==> hash@.len() != 16,
            r == Err::<RuntimeID, _>(RuntimeIDFromHashError::InvalidNumber) <==> hash@.len() == 16
                && !all_hex_digits(hash@),
            r == Err::<RuntimeID, _>(
                RuntimeIDFromHashError::InvalidID(FromU64Error::TooHigh),
            ) <==> hash@.len() == 16 && all_hex_digits(hash@) && parse_hex_u64_16(hash@)
                >= RUNTIME_ID_BOUND,
    {
        if hash.unicode_len() != 16 {
            return Err(RuntimeIDFromHashError::InvalidLength);
        }
        let mut digits: Vec<u8> = Vec::new();
        let mut i: usize = 0;
        while i < 16
            invariant
                hash@.len() == 16,
                0 <= i <= 16,
                forall|k: int| 0 <= k < i ==> is_hex_digit(#[trigger] hash@[k]),
                digits@ == Seq::new(i as nat, |k: int| hex_digit_value(hash@[k])),
            decreases 16 - i,
        {
            let c = hash.get_char(i);
            match hex_digit_of(c) {
                Some(d) => {
                    digits.push(d);
                    proof {
                        assert(digits@ =~= Seq::new(
                            (i + 1) as nat,
                            |k: int| hex_digit_value(hash@[k]),
                        ));
                    }
                },
                None => {
                    return Err(RuntimeIDFromHashError::InvalidNumber);
                },
            }
            i += 1;
        }
        proof {
            assert forall|k: int| 0 <= k < 16 implies #[trigger] digits@[k] == hex_digit_value(
                hash@[k],
            ) && digits@[k] < 16 by {
                crate::hex::lemma_hex_digit_value_lt_16(hash@[k]);
            }
        }
        let v: u64 = ((digits[0] as u64) << 60) | ((digits[1] as u64) << 56) | ((digits[2] as u64)
            << 52) | ((digits[3] as u64) << 48) | ((digits[4] as u64) << 44) | ((digits[5] as u64)
            << 40) | ((digits[6] as u64) << 36) | ((digits[7] as u64) << 32) | ((digits[8] as u64)
            << 28) | ((digits[9] as u64) << 24) | ((digits[10] as u64) << 20) | ((digits[11]
            as u64) << 16) | ((digits[12] as u64) << 12) | ((digits[13] as u64) << 8) | ((
        digits[14] as u64) << 4) | (digits[15] as u64);
        assert(v == parse_hex_u64_16(hash@));
        if v < RUNTIME_ID_BOUND {
            Ok(RuntimeID(v))
        } else {
            Err(RuntimeIDFromHashError::InvalidID(FromU64Error::TooHigh))
        }
    }

    /// The identifier as 16 upper-case hex digits.
    pub fn to_hash(&self) -> (r: String)
        ensures
            r@ == u64_hex_16(self.0),
    {
        let v = self.0;
        let mut chars: Vec<char> = Vec::new();
        let mut k: usize = 0;
        while k < 16
            invariant
                0 <= k <= 16,
                chars@.len() == k,
                forall|j: int| 0 <= j < k ==> chars@[j] == #[trigger] u64_hex_16(v)[j],
            decreases 16 - k,
        {
            let shift: u64 = (4 * (15 - k)) as u64;
            let nibble: u8 = ((v >> shift) & 0xF) as u8;
            proof {
                let sh = shift;
                assert((v >> sh) & 0xF < 16) by (bit_vector);
            }
            chars.push(hex_char_of(nibble));
            k += 1;
        }
        let r = chars_to_string(&chars);
        proof {
            assert(chars@ =~= u64_hex_16(v));
        }
        r
    }

    /// The raw 64-bit value.
    pub fn as_u64(self) -> (r: u64)
        ensures
            r == self.0,
    {
        self.0
    }

    /// Derive the identifier of a path; total, and deterministic in the
    /// ASCII-lower-cased path bytes.
    ///
    /// As a side effect the identifier and path are recorded in the
    /// catalogue's session cache, if and only if the snapshot does not
    /// already know the identifier; a path already cached is not replaced.
    pub fn from_path(path: &str, catalogue: &mut HashCatalogue) -> (r: RuntimeID)
        ensures
            r == (RuntimeID(path_hash_value(path@))),
            r.wf(),
            cache_after_from_path(*old(catalogue), *final(catalogue), r.0, path@),
    {
        let id = RuntimeID::path_hash(path);
        if !catalogue.hash_list.entries.contains_key(&id.0) {
            if !catalogue.custom_paths.contains_key(&id.0) {
                catalogue.custom_paths.insert(id.0, String::from_str(path));
                proof {
                    assert(catalogue.custom_paths@.dom() =~= old(
                        catalogue,
                    ).custom_paths@.dom().insert(id.0));
                }
            }
        }
        id
    }

    /// The pure hashing step of [`RuntimeID::from_path`]: MD5 of the
    /// ASCII-lower-cased path, digest bytes 1..7 packed big-endian.
    pub fn path_hash(path: &str) -> (r: RuntimeID)
        ensures
            r == (RuntimeID(path_hash_value(path@))),
            r.wf(),
    {
        let bytes = path.as_bytes();
        let n = bytes.len();
        let mut lower: Vec<u8> = Vec::new();
        let mut i: usize = 0;
        while i < n
            invariant
                n == bytes@.len(),
                0 <= i <= n,
                lower@ == Seq::new(i as nat, |k: int| ascii_lower_byte(bytes@[k])),
            decreases n - i,
        {
            let b = bytes[i];
            let low = if 0x41 <= b && b <= 0x5A {
                b + 0x20
            } else {
                b
            };
            lower.push(low);
            proof {
                assert(lower@ =~= Seq::new((i + 1) as nat, |k: int| ascii_lower_byte(bytes@[k])));
            }
            i += 1;
        }
        proof {
            assert(lower@ =~= ascii_lower(bytes@));
        }
        let digest = compute_md5(lower.as_slice());
        let d1 = digest[1];
        let d2 = digest[2];
        let d3 = digest[3];
        let d4 = digest[4];
        let d5 = digest[5];
        let d6 = digest[6];
        let d7 = digest[7];
        let v: u64 = ((d1 as u64) << 48) | ((d2 as u64) << 40) | ((d3 as u64) << 32) | ((d4 as u64)
            << 24) | ((d5 as u64) << 16) | ((d6 as u64) << 8) | (d7 as u64);
        proof {
            let e1 = d1 as u64;
            let e2 = d2 as u64;
            let e3 = d3 as u64;
            let e4 = d4 as u64;
            let e5 = d5 as u64;
            let e6 = d6 as u64;
            let e7 = d7 as u64;
            assert((e1 << 48) | (e2 << 40) | (e3 << 32) | (e4 << 24) | (e5 << 16) | (e6 << 8) | e7
                < 0x0100000000000000) by (bit_vector)
                requires
                    e1 < 256 && e2 < 256 && e3 < 256 && e4 < 256 && e5 < 256 && e6 < 256 && e7
                        < 256,
            ;
        }
        RuntimeID(v)
    }

    /// The path this identifier resolves to, if any: the catalogue snapshot
    /// first, then the session cache; an authoritative snapshot entry is
    /// never shadowed by a cached one.
    pub fn get_path(&self, catalogue: &HashCatalogue) -> (r: Option<String>)
        ensures
            r is Some <==> resolved_path(*catalogue, self.0) is Some,
            r is Some ==> r->0@ == resolved_path(*catalogue, self.0)->0,
    {
        match catalogue.hash_list.get(self) {
            Some(data) => {
                match &data.path {
                    Some(p) => Some(p.clone()),
                    None => {
                        match catalogue.custom_paths.get(&self.0) {
                            Some(p) => Some(p.clone()),
                            None => None,
                        }
                    },
                }
            },
            None => {
                match catalogue.custom_paths.get(&self.0) {
                    Some(p) => Some(p.clone()),
                    None => None,
                }
            },
        }
    }

    /// The identifier as text for people: its resolved path where one is
    /// known, else its 16 hex digits. Catalogue-dependent; machine-readable
    /// output should use [`RuntimeID::to_hash`] instead.
    pub fn display(&self, catalogue: &HashCatalogue) -> (r: String)
        ensures
            resolved_path(*catalogue, self.0) is Some ==> r@ == resolved_path(
                *catalogue,
                self.0,
            )->0,
            resolved_path(*catalogue, self.0) is None ==> r@ == u64_hex_16(self.0),
    {
        match self.get_path(catalogue) {
            Some(p) => p,
            None => self.to_hash(),
        }
    }

    /// Read an identifier from either of its text forms: a path (marked by a
    /// leading `[`) is hashed, anything else must be the 16-hex-digit form.
    pub fn from_str(s: &str, catalogue: &mut HashCatalogue) -> (r: Result<
        RuntimeID,
        RuntimeIDFromHashError,
    >)
        ensures
            s@.len() > 0 && s@[0] == '[' ==> r is Ok && r->Ok_0 == (RuntimeID(
                path_hash_value(s@),
            )) && cache_after_from_path(*old(catalogue), *final(catalogue), r->Ok_0.0, s@),
            !(s@.len() > 0 && s@[0] == '[') ==> *final(catalogue) == *old(catalogue) && {
                &&& r is Ok <==> hash_str_ok(s@)
                &&& r is Ok ==> r->Ok_0 == (RuntimeID(parse_hex_u64_16(s@)))
            },
    {
        if s.unicode_len() > 0 && s.get_char(0) == '[' {
            Ok(RuntimeID::from_path(s, catalogue))
        } else {
            RuntimeID::from_hash(s)
        }
    }
}

/// Hex round-trip law: parsing 16 hex digits and formatting the result
/// reproduces the digits, upper-cased.
pub proof fn lemma_hash_roundtrip(s: Seq<char>)
    requires
        hash_str_ok(s),
    ensures
        u64_hex_16(parse_hex_u64_16(s)) == s.map(|i: int, c: char| upper_hex_char(c)),
{
    lemma_u64_hex_roundtrip(s);
}

/// Hash determinism law: paths that agree after ASCII lower-casing of their
/// bytes hash to the same identifier.
pub proof fn lemma_path_hash_case_insensitive(p1: Seq<char>, p2: Seq<char>)
    requires
        ascii_lower(encode_utf8(p1)) == ascii_lower(encode_utf8(p2)),
    ensures
        path_hash_value(p1) == path_hash_value(p2),
{
}

/// ASCII lower-casing of one character: `A`..`Z` shift down, all else
/// unchanged.
pub open spec fn ascii_lower_char(c: char) -> char {
    let u = c as u32;
    if 0x41 <= u && u <= 0x5A {
        ((u + 0x20) as u8) as char
    } else {
        c
    }
}

/// Hash determinism law, at the character level: ASCII paths that are equal
/// up to letter case hash to the same identifier.
pub proof fn lemma_path_hash_ascii_case_insensitive(p1: Seq<char>, p2: Seq<char>)
    requires
        vstd::utf8::is_ascii_chars(p1),
        vstd::utf8::is_ascii_chars(p2),
        p1.map(|i: int, c: char| ascii_lower_char(c)) == p2.map(
            |i: int, c: char| ascii_lower_char(c),
        ),
    ensures
        path_hash_value(p1) == path_hash_value(p2),
{
    lemma_ascii_lower_bytes(p1);
    lemma_ascii_lower_bytes(p2);
    assert(ascii_lower(encode_utf8(p1)) =~= ascii_lower(encode_utf8(p2)));
    lemma_path_hash_case_insensitive(p1, p2);
}

/// For an ASCII character sequence, lower-casing the UTF-8 bytes is
/// lower-casing the characters, read off byte by byte.
proof fn lemma_ascii_lower_bytes(p: Seq<char>)
    requires
        vstd::utf8::is_ascii_chars(p),
    ensures
        ascii_lower(encode_utf8(p)) =~= p.map(|i: int, c: char| ascii_lower_char(c)).map(
            |i: int, c: char| c as u8,
        ),
{
    vstd::utf8::is_ascii_chars_encode_utf8(p);
    assert forall|i: int| 0 <= i < p.len() implies ascii_lower(encode_utf8(p))[i] == (ascii_lower_char(
        p[i],
    ) as u8) by {
        assert(encode_utf8(p)[i] == p[i] as u8);
        assert(p[i] <= '\u{7f}');
    }
}

} // verus!
